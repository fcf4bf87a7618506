//! Actions, contexts, policies, tokens, robot records and receipts.
use vstd::prelude::*;

use crate::crypto::{PublicIdentity, SignatureBundle};
use crate::json::{json_string, push_json_string};
use crate::text::{append, same_text};

verus! {

/// A floating-point quantity, carried by the bit pattern of its `f64` (`f64::to_bits`).
/// The library never computes with it.
#[derive(Clone, Copy, Debug, PartialEq, Eq, Structural)]
pub struct FloatBits {
    pub bits: u64,
}

/// A requested skill with its arguments and requested physical limits.
#[derive(Debug)]
pub struct RobotAction {
    pub skill: String,
    /// Action arguments in key order.
    pub arguments: Vec<(String, serde_json::Value)>,
    pub requested_speed_mps: Option<FloatBits>,
    pub requested_force_newtons: Option<FloatBits>,
}

/// The task, zone and world-state reference that a token is bound to.
#[derive(Debug)]
pub struct ExecutionContext {
    pub task_id: String,
    pub zone: String,
    pub state_hash: String,
}

/// The limits that a token places on its action.
#[derive(Debug)]
pub struct PolicyConstraints {
    pub allowed_skills: Vec<String>,
    pub allowed_zones: Vec<String>,
    pub max_speed_mps: Option<FloatBits>,
    pub max_force_newtons: Option<FloatBits>,
}

/// The risk level of an action.
#[derive(Clone, Copy, Debug, PartialEq, Eq, Structural)]
pub enum RiskLevel {
    Normal,
    High,
}

/// An operator approval included in a token.
#[derive(Debug)]
pub struct Approval {
    pub operator_id: String,
    pub approved_at_unix_ms: i64,
}

/// The signed claims of an action token.
#[derive(Debug)]
pub struct ActionTokenClaims {
    pub token_id: String,
    pub issuer_key_id: String,
    pub robot_id: String,
    pub action: RobotAction,
    pub sequence: u64,
    pub context_hash: String,
    pub issued_at_unix_ms: i64,
    pub expires_at_unix_ms: i64,
    pub constraints: PolicyConstraints,
    pub risk: RiskLevel,
    pub approvals: Vec<Approval>,
}

/// An action token: its schema name, claims and the coordinator's hybrid signature.
#[derive(Debug)]
pub struct SignedActionToken {
    pub schema: String,
    pub claims: ActionTokenClaims,
    pub signature: SignatureBundle,
}

/// A request for an action token.
#[derive(Debug)]
pub struct TokenRequest {
    pub robot_id: String,
    pub action: RobotAction,
    pub context: ExecutionContext,
    pub ttl_seconds: u64,
    pub constraints: PolicyConstraints,
    pub risk: RiskLevel,
    pub approvals: Vec<Approval>,
}

/// A request to enroll a robot's public identity.
#[derive(Debug)]
pub struct RobotRegistration {
    pub robot_id: String,
    pub display_name: String,
    pub identity: PublicIdentity,
}

/// An enrolled robot as the coordinator records it.
#[derive(Debug)]
pub struct RobotRecord {
    pub robot_id: String,
    pub display_name: String,
    pub identity: PublicIdentity,
    pub revoked: bool,
    pub next_sequence: u64,
}

/// A token and the context it is presented with.
#[derive(Debug)]
pub struct ExecuteRequest {
    pub token: SignedActionToken,
    pub context: ExecutionContext,
}

/// The outcome recorded in a receipt.
#[derive(Clone, Copy, Debug, PartialEq, Eq, Structural)]
pub enum ExecutionStatus {
    Completed,
    Rejected,
}

/// The receipt of a completed action.
#[derive(Debug)]
pub struct ExecutionReceipt {
    pub token_id: String,
    pub robot_id: String,
    pub sequence: u64,
    pub status: ExecutionStatus,
    pub detail: String,
    pub completed_at_unix_ms: i64,
}

/// The most recent state-changing event of a node.
#[derive(Debug)]
pub struct ActivitySummary {
    pub kind: String,
    pub subject: String,
    pub at_unix_ms: i64,
}

/// The robot that owns a task.
#[derive(Debug)]
pub struct TaskAssignment {
    pub robot_id: String,
    pub assigned_at_unix_ms: i64,
}

/// The default token lifetime, in seconds.
pub fn default_ttl() -> (ttl: u64)
    ensures
        ttl == 30,
{
    30
}

impl Default for RiskLevel {
    fn default() -> (r: Self)
        ensures
            r == RiskLevel::Normal,
    {
        RiskLevel::Normal
    }
}

impl Default for PolicyConstraints {
    fn default() -> (c: Self)
        ensures
            c.allowed_skills@.len() == 0,
            c.allowed_zones@.len() == 0,
            c.max_speed_mps is None,
            c.max_force_newtons is None,
    {
        PolicyConstraints {
            allowed_skills: Vec::new(),
            allowed_zones: Vec::new(),
            max_speed_mps: None,
            max_force_newtons: None,
        }
    }
}

impl Clone for ExecutionContext {
    fn clone(&self) -> (r: Self)
        ensures
            r == *self,
    {
        ExecutionContext {
            task_id: self.task_id.clone(),
            zone: self.zone.clone(),
            state_hash: self.state_hash.clone(),
        }
    }
}

impl Clone for RobotRecord {
    fn clone(&self) -> (r: Self)
        ensures
            r == *self,
    {
        RobotRecord {
            robot_id: self.robot_id.clone(),
            display_name: self.display_name.clone(),
            identity: self.identity.clone(),
            revoked: self.revoked,
            next_sequence: self.next_sequence,
        }
    }
}

impl Clone for ActivitySummary {
    fn clone(&self) -> (r: Self)
        ensures
            r == *self,
    {
        ActivitySummary { kind: self.kind.clone(), subject: self.subject.clone(), at_unix_ms: self.at_unix_ms }
    }
}

impl Clone for TaskAssignment {
    fn clone(&self) -> (r: Self)
        ensures
            r == *self,
    {
        TaskAssignment { robot_id: self.robot_id.clone(), assigned_at_unix_ms: self.assigned_at_unix_ms }
    }
}

impl Clone for Approval {
    fn clone(&self) -> (r: Self)
        ensures
            r == *self,
    {
        Approval { operator_id: self.operator_id.clone(), approved_at_unix_ms: self.approved_at_unix_ms }
    }
}

/// The compact JSON text of an execution context, fields in declaration order.
pub open spec fn context_json(task_id: Seq<char>, zone: Seq<char>, state_hash: Seq<char>) -> Seq<char> {
    "{\"task_id\":"@ + json_string(task_id) + ",\"zone\":"@ + json_string(zone)
        + ",\"state_hash\":"@ + json_string(state_hash) + "}"@
}

impl ExecutionContext {
    /// The canonical (compact JSON) text of this context, which its hash covers.
    pub fn canonical_json(&self) -> (out: String)
        ensures
            out@ == context_json(self.task_id@, self.zone@, self.state_hash@),
    {
        let mut out = String::new();
        append(&mut out, "{\"task_id\":");
        push_json_string(&mut out, self.task_id.as_str());
        append(&mut out, ",\"zone\":");
        push_json_string(&mut out, self.zone.as_str());
        append(&mut out, ",\"state_hash\":");
        push_json_string(&mut out, self.state_hash.as_str());
        append(&mut out, "}");
        assert(out@ =~= context_json(self.task_id@, self.zone@, self.state_hash@));
        out
    }
}

/// Whether some string of `list` holds the characters `s`.
pub open spec fn text_in(list: Seq<String>, s: Seq<char>) -> bool {
    exists|i: int| 0 <= i < list.len() && #[trigger] list[i]@ == s
}

/// Whether the approvals name at least two distinct operators.
pub open spec fn two_distinct_operators(approvals: Seq<Approval>) -> bool {
    exists|i: int, j: int|
        0 <= i < approvals.len() && 0 <= j < approvals.len() && #[trigger] approvals[i].operator_id@
            != #[trigger] approvals[j].operator_id@
}

/// Whether `s` is one of the strings of `list`.
pub fn contains_text(list: &Vec<String>, s: &str) -> (r: bool)
    ensures
        r == text_in(list@, s@),
{
    let n = list.len();
    for i in 0..n
        invariant
            n == list@.len(),
            forall|j: int| 0 <= j < i ==> (#[trigger] list@[j])@ != s@,
    {
        if same_text(list[i].as_str(), s) {
            return true;
        }
    }
    false
}

/// Whether the approvals name at least two distinct operators.
pub fn has_two_distinct_operators(approvals: &Vec<Approval>) -> (r: bool)
    ensures
        r == two_distinct_operators(approvals@),
{
    let n = approvals.len();
    if n == 0 {
        return false;
    }
    let first = approvals[0].operator_id.as_str();
    for i in 1..n
        invariant
            n == approvals@.len(),
            n > 0,
            first@ == approvals@[0].operator_id@,
            forall|j: int| 0 <= j < i ==> (#[trigger] approvals@[j]).operator_id@ == first@,
    {
        if !same_text(approvals[i].operator_id.as_str(), first) {
            assert(approvals@[i as int].operator_id@ != approvals@[0].operator_id@);
            return true;
        }
    }
    assert forall|a: int, b: int|
        0 <= a < approvals@.len() && 0 <= b < approvals@.len() implies #[trigger] approvals@[a].operator_id@
        == #[trigger] approvals@[b].operator_id@ by {
        assert(approvals@[a].operator_id@ == first@);
        assert(approvals@[b].operator_id@ == first@);
    }
    false
}

} // verus!
