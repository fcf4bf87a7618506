//! The robot-side execution checks: a token is executed only when every check passes.
use vstd::prelude::*;

use crate::audit::{AuditEvent, detail_field as field, event_parts, new_event as event};
use crate::crypto::{
    HybridIdentity, IdentityError, PublicIdentity, PublicIdentityView, identity_error_text,
    sha256_hex, sha256_hex_of, verification_outcome,
};
use crate::model::{
    ActionTokenClaims, ActivitySummary, ExecutionContext, ExecutionReceipt, ExecutionStatus, RiskLevel,
    SignedActionToken, context_json, contains_text, has_two_distinct_operators, text_in,
    two_distinct_operators,
};
use crate::primitives::{
    json_i64, json_i64_value, json_object, json_object_value, json_text, json_text_value, json_u64,
    json_u64_value, now_unix_ms,
};
use crate::table::StringTable;
use crate::text::{append, decimal, decimal_string, owned, same_text};
use vstd::utf8::encode_utf8;

verus! {

/// How far in the future a token's issue time may lie, in milliseconds.
pub const CLOCK_SKEW_MS: i64 = 5000;

/// Why a token's signature was not accepted.
#[derive(Clone, Copy, Debug, PartialEq, Eq, Structural)]
pub enum SignatureFault {
    /// The token names another issuer than the pinned coordinator.
    UntrustedIssuer,
    /// The pinned coordinator identity does not verify the signature.
    Identity(IdentityError),
}

/// Why the token's policy denies the action.
#[derive(Debug)]
pub enum PolicyDenial {
    SkillNotAllowed,
    ZoneNotAllowed,
    SpeedExceeded,
    ForceExceeded,
    TwoApprovalsRequired,
    /// The simulator does not know this skill.
    UnknownSkill(String),
}

/// Why a token was not executed.
#[derive(Debug)]
pub enum ExecutionError {
    EmergencyStop,
    Schema,
    WrongRobot,
    InvalidSignature(SignatureFault),
    Expired,
    Sequence { expected: u64, actual: u64 },
    Context,
    Policy(PolicyDenial),
    Replay,
    /// A failure outside the execution checks, such as storage.
    Internal(String),
}

/// Whether the requested speed and force lie within the token's limits (finite, not negative,
/// at most the maximum). These are floating-point comparisons, made by the caller; each is
/// consulted only where both the request and the limit are present.
#[derive(Clone, Copy, Debug, PartialEq, Eq, Structural)]
pub struct LimitAssessment {
    pub speed_within_limit: bool,
    pub force_within_limit: bool,
}

/// The persisted state of a runtime.
#[derive(Debug)]
pub struct RuntimeState {
    pub next_sequence: u64,
    pub emergency_stop: bool,
    /// IDs of executed tokens.
    pub consumed_tokens: Vec<String>,
    pub last_activity: Option<ActivitySummary>,
}

/// Why a runtime could not be opened.
#[derive(Clone, Copy, Debug, PartialEq, Eq, Structural)]
pub enum RuntimeOpenError {
    /// The robot identity's subject is not the robot ID.
    SubjectMismatch,
    /// The pinned coordinator identity does not validate.
    InvalidCoordinator(IdentityError),
}

/// The schema name of action tokens.
pub open spec fn token_schema() -> Seq<char> {
    "spacl.action-token.v1"@
}

/// Whether the simulator can perform `skill`.
pub open spec fn simulated_skill(skill: Seq<char>) -> bool {
    skill == "move"@ || skill == "pick"@ || skill == "place"@ || skill == "wait"@
}

/// The hash that a token must carry for `context`.
pub open spec fn context_hash_of(context: ExecutionContext) -> Seq<char> {
    sha256_hex_of(encode_utf8(context_json(context.task_id@, context.zone@, context.state_hash@)))
}

/// The outcome of the token's policy checks, in order: skill, zone, speed, force, approvals.
pub open spec fn policy_outcome(
    token: SignedActionToken,
    context: ExecutionContext,
    limits: LimitAssessment,
) -> Result<(), ExecutionError> {
    let claims = token.claims;
    let policy = claims.constraints;
    if policy.allowed_skills@.len() > 0 && !text_in(policy.allowed_skills@, claims.action.skill@) {
        Err(ExecutionError::Policy(PolicyDenial::SkillNotAllowed))
    } else if policy.allowed_zones@.len() > 0 && !text_in(policy.allowed_zones@, context.zone@) {
        Err(ExecutionError::Policy(PolicyDenial::ZoneNotAllowed))
    } else if claims.action.requested_speed_mps is Some && policy.max_speed_mps is Some
        && !limits.speed_within_limit {
        Err(ExecutionError::Policy(PolicyDenial::SpeedExceeded))
    } else if claims.action.requested_force_newtons is Some && policy.max_force_newtons is Some
        && !limits.force_within_limit {
        Err(ExecutionError::Policy(PolicyDenial::ForceExceeded))
    } else if claims.risk == RiskLevel::High && !two_distinct_operators(claims.approvals@) {
        Err(ExecutionError::Policy(PolicyDenial::TwoApprovalsRequired))
    } else {
        Ok(())
    }
}

/// The outcome of the execution checks for a runtime of robot `robot_id` pinned to `coordinator`,
/// with the given sequence, stop and consumed-token state. `claims_json` holds the canonical
/// JSON bytes of the token claims; `now` is the current time in milliseconds.
pub open spec fn gate_outcome(
    robot_id: Seq<char>,
    coordinator: PublicIdentityView,
    next_sequence: u64,
    emergency_stop: bool,
    consumed: Set<Seq<char>>,
    token: SignedActionToken,
    context: ExecutionContext,
    claims_json: Seq<u8>,
    now: i64,
    limits: LimitAssessment,
) -> Result<(), ExecutionError> {
    let claims = token.claims;
    if emergency_stop {
        Err(ExecutionError::EmergencyStop)
    } else if token.schema@ != token_schema() {
        Err(ExecutionError::Schema)
    } else if claims.robot_id@ != robot_id {
        Err(ExecutionError::WrongRobot)
    } else if claims.issuer_key_id@ != coordinator.key_id {
        Err(ExecutionError::InvalidSignature(SignatureFault::UntrustedIssuer))
    } else if verification_outcome(coordinator, claims_json, token.signature@) is Err {
        Err(
            ExecutionError::InvalidSignature(
                SignatureFault::Identity(
                    verification_outcome(coordinator, claims_json, token.signature@)->Err_0,
                ),
            ),
        )
    } else if claims.issued_at_unix_ms > now + CLOCK_SKEW_MS || claims.expires_at_unix_ms < now {
        Err(ExecutionError::Expired)
    } else if consumed.contains(claims.token_id@) {
        Err(ExecutionError::Replay)
    } else if claims.sequence != next_sequence {
        Err(ExecutionError::Sequence { expected: next_sequence, actual: claims.sequence })
    } else if claims.context_hash@ != context_hash_of(context) {
        Err(ExecutionError::Context)
    } else {
        policy_outcome(token, context, limits)
    }
}

/// The human-readable description of a policy denial.
pub open spec fn denial_text(d: PolicyDenial) -> Seq<char> {
    match d {
        PolicyDenial::SkillNotAllowed => "skill is not allowed"@,
        PolicyDenial::ZoneNotAllowed => "zone is not allowed"@,
        PolicyDenial::SpeedExceeded => "speed exceeds the token limit"@,
        PolicyDenial::ForceExceeded => "force exceeds the token limit"@,
        PolicyDenial::TwoApprovalsRequired => "two distinct approvals are required"@,
        PolicyDenial::UnknownSkill(skill) => "unknown skill "@ + skill@,
    }
}

/// The human-readable description of a signature fault.
pub open spec fn signature_fault_text(f: SignatureFault) -> Seq<char> {
    match f {
        SignatureFault::UntrustedIssuer => "token issuer is not the pinned coordinator"@,
        SignatureFault::Identity(e) => identity_error_text(e),
    }
}

/// The human-readable description of an execution error.
pub open spec fn execution_error_text(e: ExecutionError) -> Seq<char> {
    match e {
        ExecutionError::EmergencyStop => "emergency stop is active"@,
        ExecutionError::Schema => "unsupported token schema"@,
        ExecutionError::WrongRobot => "token targets another robot"@,
        ExecutionError::InvalidSignature(f) => "token signature is invalid: "@ + signature_fault_text(f),
        ExecutionError::Expired => "token has expired or is not active"@,
        ExecutionError::Sequence { expected, actual } => "expected sequence "@ + decimal(
            expected as nat,
        ) + ", received "@ + decimal(actual as nat),
        ExecutionError::Context => "execution context does not match the token"@,
        ExecutionError::Policy(d) => "policy denied action: "@ + denial_text(d),
        ExecutionError::Replay => "token was already executed"@,
        ExecutionError::Internal(m) => m@,
    }
}

impl PolicyDenial {
    /// The human-readable description of the denial.
    pub fn message(&self) -> (s: String)
        ensures
            s@ == denial_text(*self),
    {
        match self {
            PolicyDenial::SkillNotAllowed => owned("skill is not allowed"),
            PolicyDenial::ZoneNotAllowed => owned("zone is not allowed"),
            PolicyDenial::SpeedExceeded => owned("speed exceeds the token limit"),
            PolicyDenial::ForceExceeded => owned("force exceeds the token limit"),
            PolicyDenial::TwoApprovalsRequired => owned("two distinct approvals are required"),
            PolicyDenial::UnknownSkill(skill) => {
                let mut s = owned("unknown skill ");
                append(&mut s, skill.as_str());
                s
            },
        }
    }
}

impl ExecutionError {
    /// The human-readable description of the error.
    pub fn message(&self) -> (s: String)
        ensures
            s@ == execution_error_text(*self),
    {
        match self {
            ExecutionError::EmergencyStop => owned("emergency stop is active"),
            ExecutionError::Schema => owned("unsupported token schema"),
            ExecutionError::WrongRobot => owned("token targets another robot"),
            ExecutionError::InvalidSignature(f) => {
                let mut s = owned("token signature is invalid: ");
                match f {
                    SignatureFault::UntrustedIssuer => append(
                        &mut s,
                        "token issuer is not the pinned coordinator",
                    ),
                    SignatureFault::Identity(e) => {
                        let m = e.message();
                        append(&mut s, m.as_str());
                    },
                }
                s
            },
            ExecutionError::Expired => owned("token has expired or is not active"),
            ExecutionError::Sequence { expected, actual } => {
                let mut s = owned("expected sequence ");
                let e = decimal_string(*expected);
                append(&mut s, e.as_str());
                append(&mut s, ", received ");
                let a = decimal_string(*actual);
                append(&mut s, a.as_str());
                s
            },
            ExecutionError::Context => owned("execution context does not match the token"),
            ExecutionError::Policy(d) => {
                let mut s = owned("policy denied action: ");
                let m = d.message();
                append(&mut s, m.as_str());
                s
            },
            ExecutionError::Replay => owned("token was already executed"),
            ExecutionError::Internal(m) => m.clone(),
        }
    }
}

fn check_policy(token: &SignedActionToken, context: &ExecutionContext, limits: LimitAssessment) -> (r:
    Result<(), ExecutionError>)
    ensures
        r == policy_outcome(*token, *context, limits),
{
    let claims = &token.claims;
    let policy = &claims.constraints;
    if policy.allowed_skills.len() > 0 && !contains_text(
        &policy.allowed_skills,
        claims.action.skill.as_str(),
    ) {
        return Err(ExecutionError::Policy(PolicyDenial::SkillNotAllowed));
    }
    if policy.allowed_zones.len() > 0 && !contains_text(&policy.allowed_zones, context.zone.as_str()) {
        return Err(ExecutionError::Policy(PolicyDenial::ZoneNotAllowed));
    }
    if claims.action.requested_speed_mps.is_some() && policy.max_speed_mps.is_some()
        && !limits.speed_within_limit {
        return Err(ExecutionError::Policy(PolicyDenial::SpeedExceeded));
    }
    if claims.action.requested_force_newtons.is_some() && policy.max_force_newtons.is_some()
        && !limits.force_within_limit {
        return Err(ExecutionError::Policy(PolicyDenial::ForceExceeded));
    }
    if claims.risk == RiskLevel::High && !has_two_distinct_operators(&claims.approvals) {
        return Err(ExecutionError::Policy(PolicyDenial::TwoApprovalsRequired));
    }
    Ok(())
}

/// The hash of a context's canonical JSON, as tokens carry it.
pub fn context_hash(context: &ExecutionContext) -> (h: String)
    ensures
        h@ == context_hash_of(*context),
{
    let text = context.canonical_json();
    sha256_hex(text.as_str().as_bytes())
}

/// A robot's execution checks: the robot's identity, the pinned coordinator identity, the next
/// expected sequence number, the emergency-stop flag, the executed token IDs, the last
/// activity, and the audit events not yet stored.
pub struct RobotRuntime {
    robot_id: String,
    identity: HybridIdentity,
    coordinator: PublicIdentity,
    next_sequence: u64,
    emergency_stop: bool,
    consumed: StringTable<()>,
    last_activity: Option<ActivitySummary>,
    audit_queue: Vec<AuditEvent>,
}

/// The audit event of a rejected token.
pub open spec fn rejection_event(robot_id: Seq<char>, token_id: Seq<char>, error: ExecutionError) -> (
    Seq<char>,
    Seq<char>,
    Seq<char>,
    serde_json::Value,
) {
    (
        "execution.rejected"@,
        robot_id,
        token_id,
        json_object_value(seq![("reason"@, json_text_value(execution_error_text(error)))]),
    )
}

/// The audit event of a started execution.
pub open spec fn start_event(robot_id: Seq<char>, token_id: Seq<char>, skill: Seq<char>, sequence: u64) -> (
    Seq<char>,
    Seq<char>,
    Seq<char>,
    serde_json::Value,
) {
    (
        "execution.started"@,
        robot_id,
        token_id,
        json_object_value(
            seq![("sequence"@, json_u64_value(sequence)), ("skill"@, json_text_value(skill))],
        ),
    )
}

/// The audit event of a completed execution, whose detail is the receipt.
pub open spec fn completion_event(receipt: ExecutionReceipt) -> (Seq<char>, Seq<char>, Seq<char>, serde_json::Value) {
    (
        "execution.completed"@,
        receipt.robot_id@,
        receipt.token_id@,
        json_object_value(
            seq![
                ("completed_at_unix_ms"@, json_i64_value(receipt.completed_at_unix_ms)),
                ("detail"@, json_text_value(receipt.detail@)),
                ("robot_id"@, json_text_value(receipt.robot_id@)),
                ("sequence"@, json_u64_value(receipt.sequence)),
                ("status"@, json_text_value("completed"@)),
                ("token_id"@, json_text_value(receipt.token_id@)),
            ],
        ),
    )
}

/// The audit event of an emergency-stop change.
pub open spec fn stop_event(robot_id: Seq<char>, active: bool) -> (Seq<char>, Seq<char>, Seq<char>, serde_json::Value) {
    (
        if active { "emergency_stop.activated"@ } else { "emergency_stop.cleared"@ },
        robot_id,
        robot_id,
        json_object_value(Seq::empty()),
    )
}

/// The receipt detail of a simulated skill.
pub open spec fn completion_detail(skill: Seq<char>) -> Seq<char> {
    "simulated "@ + skill + " completed"@
}

/// Whether `st` is the state of `rt`: its next sequence number, stop flag, executed token IDs
/// and last activity.
pub open spec fn runtime_state_of(rt: RobotRuntime, st: RuntimeState) -> bool {
    &&& st.next_sequence == rt.next_sequence_view()
    &&& st.emergency_stop == rt.emergency_stop_view()
    &&& st.consumed_tokens@.map_values(|t: String| t@).to_set() == rt.consumed_view()
    &&& st.last_activity == rt.last_activity_view()
}

/// Whether `rt` resumes `st`, with no audit events pending.
pub open spec fn resumes(rt: RobotRuntime, st: RuntimeState) -> bool {
    &&& rt.next_sequence_view() == st.next_sequence
    &&& rt.emergency_stop_view() == st.emergency_stop
    &&& rt.consumed_view() == st.consumed_tokens@.map_values(|t: String| t@).to_set()
    &&& rt.last_activity_view() == st.last_activity
    &&& rt.pending_events() == Seq::<AuditEvent>::empty()
}

/// Persisting and resuming keeps a runtime's checks: resuming the state of a runtime gives the
/// same next sequence number, stop flag, executed tokens and last activity, so a replayed token
/// stays refused across a restart.
pub proof fn lemma_runtime_state_round_trip(rt: RobotRuntime, st: RuntimeState, resumed: RobotRuntime)
    requires
        runtime_state_of(rt, st),
        resumes(resumed, st),
    ensures
        resumed.next_sequence_view() == rt.next_sequence_view(),
        resumed.emergency_stop_view() == rt.emergency_stop_view(),
        resumed.consumed_view() == rt.consumed_view(),
        resumed.last_activity_view() == rt.last_activity_view(),
{
}

impl RobotRuntime {
    #[verifier::type_invariant]
    closed spec fn inv(&self) -> bool {
        self.consumed.wf()
    }

    /// The robot ID.
    pub closed spec fn robot_id_view(&self) -> Seq<char> {
        self.robot_id@
    }

    /// The pinned coordinator identity.
    pub closed spec fn coordinator_view(&self) -> PublicIdentityView {
        self.coordinator@
    }

    /// The robot identity.
    pub closed spec fn identity_view(&self) -> HybridIdentity {
        self.identity
    }

    /// The next expected sequence number.
    pub closed spec fn next_sequence_view(&self) -> u64 {
        self.next_sequence
    }

    /// Whether the emergency stop is active.
    pub closed spec fn emergency_stop_view(&self) -> bool {
        self.emergency_stop
    }

    /// The IDs of executed tokens.
    pub closed spec fn consumed_view(&self) -> Set<Seq<char>> {
        self.consumed@.dom()
    }

    /// The last activity.
    pub closed spec fn last_activity_view(&self) -> Option<ActivitySummary> {
        self.last_activity
    }

    /// The audit events not yet taken for storage, oldest first.
    pub closed spec fn pending_events(&self) -> Seq<AuditEvent> {
        self.audit_queue@
    }

    /// The outcome of the execution checks for a token in the current state.
    pub open spec fn outcome(
        &self,
        token: SignedActionToken,
        context: ExecutionContext,
        claims_json: Seq<u8>,
        now: i64,
        limits: LimitAssessment,
    ) -> Result<(), ExecutionError> {
        gate_outcome(
            self.robot_id_view(),
            self.coordinator_view(),
            self.next_sequence_view(),
            self.emergency_stop_view(),
            self.consumed_view(),
            token,
            context,
            claims_json,
            now,
            limits,
        )
    }

    /// A runtime for `robot_id`, holding its identity, pinned to the coordinator identity, and
    /// resuming the persisted `state`. The identity's subject must be the robot ID and the
    /// coordinator identity must validate.
    pub fn open(
        robot_id: String,
        identity: HybridIdentity,
        coordinator: PublicIdentity,
        state: RuntimeState,
    ) -> (r: Result<Self, RuntimeOpenError>)
        ensures
            match r {
                Ok(rt) => {
                    &&& identity.public.subject@ == robot_id@
                    &&& crate::crypto::validation_outcome(coordinator@) is Ok
                    &&& rt.robot_id_view() == robot_id@
                    &&& rt.identity_view() == identity
                    &&& rt.coordinator_view() == coordinator@
                    &&& resumes(rt, state)
                },
                Err(RuntimeOpenError::SubjectMismatch) => identity.public.subject@ != robot_id@,
                Err(RuntimeOpenError::InvalidCoordinator(e)) => identity.public.subject@ == robot_id@
                    && crate::crypto::validation_outcome(coordinator@) == Err::<(), IdentityError>(e),
            },
    {
        if !same_text(identity.public.subject.as_str(), robot_id.as_str()) {
            return Err(RuntimeOpenError::SubjectMismatch);
        }
        match coordinator.validate() {
            Ok(()) => {},
            Err(e) => {
                return Err(RuntimeOpenError::InvalidCoordinator(e));
            },
        }
        let mut consumed: StringTable<()> = StringTable::new();
        let tokens = &state.consumed_tokens;
        let n = tokens.len();
        let ghost ids = tokens@.map_values(|t: String| t@);
        for i in 0..n
            invariant
                n == tokens@.len(),
                ids == tokens@.map_values(|t: String| t@),
                consumed.wf(),
                consumed@.dom() == ids.take(i as int).to_set(),
        {
            consumed.insert(tokens[i].clone(), ());
            assert(ids.take(i + 1) =~= ids.take(i as int).push(ids[i as int]));
            proof {
                let before = ids.take(i as int);
                let after = ids.take(i + 1);
                assert forall|x: Seq<char>| #[trigger] after.contains(x) == (before.contains(x) || x
                    == ids[i as int]) by {
                    if after.contains(x) {
                        let k = choose|k: int| 0 <= k < after.len() && after[k] == x;
                        if k < i {
                            assert(before[k] == x);
                        }
                    }
                    if before.contains(x) {
                        let k = choose|k: int| 0 <= k < before.len() && before[k] == x;
                        assert(after[k] == x);
                    }
                    if x == ids[i as int] {
                        assert(after[i as int] == x);
                    }
                }
            }
            assert(consumed@.dom() =~= ids.take(i + 1).to_set());
        }
        assert(ids.take(n as int) =~= ids);
        Ok(
            RobotRuntime {
                robot_id,
                identity,
                coordinator,
                next_sequence: state.next_sequence,
                emergency_stop: state.emergency_stop,
                consumed,
                last_activity: state.last_activity,
                audit_queue: Vec::new(),
            },
        )
    }

    /// Checks a token at time `now` (milliseconds since the Unix epoch): no emergency stop, the
    /// token schema, the target robot, the pinned issuer and its hybrid signature over
    /// `claims_json` (the canonical JSON bytes of the claims), the validity window (with five
    /// seconds of clock skew), replay, the sequence number, the context hash, and the policy.
    pub fn verify_at(
        &self,
        token: &SignedActionToken,
        context: &ExecutionContext,
        claims_json: &[u8],
        now: i64,
        limits: LimitAssessment,
    ) -> (r: Result<(), ExecutionError>)
        ensures
            r == self.outcome(*token, *context, claims_json@, now, limits),
    {
        proof {
            use_type_invariant(self);
        }
        let claims = &token.claims;
        if self.emergency_stop {
            return Err(ExecutionError::EmergencyStop);
        }
        if !same_text(token.schema.as_str(), "spacl.action-token.v1") {
            return Err(ExecutionError::Schema);
        }
        if !same_text(claims.robot_id.as_str(), self.robot_id.as_str()) {
            return Err(ExecutionError::WrongRobot);
        }
        if !same_text(claims.issuer_key_id.as_str(), self.coordinator.key_id.as_str()) {
            return Err(ExecutionError::InvalidSignature(SignatureFault::UntrustedIssuer));
        }
        match self.coordinator.verify(claims_json, &token.signature) {
            Ok(()) => {},
            Err(e) => {
                return Err(ExecutionError::InvalidSignature(SignatureFault::Identity(e)));
            },
        }
        if (claims.issued_at_unix_ms as i128) > (now as i128) + (CLOCK_SKEW_MS as i128)
            || claims.expires_at_unix_ms < now {
            return Err(ExecutionError::Expired);
        }
        if self.consumed.contains_key(claims.token_id.as_str()) {
            return Err(ExecutionError::Replay);
        }
        if claims.sequence != self.next_sequence {
            return Err(ExecutionError::Sequence { expected: self.next_sequence, actual: claims.sequence });
        }
        let expected = context_hash(context);
        if !same_text(claims.context_hash.as_str(), expected.as_str()) {
            return Err(ExecutionError::Context);
        }
        check_policy(token, context, limits)
    }

    /// Checks a token at the current time; see `verify_at`.
    pub fn verify<F: Fn(&ActionTokenClaims) -> Vec<u8>>(
        &self,
        token: &SignedActionToken,
        context: &ExecutionContext,
        encode_claims: &F,
        limits: LimitAssessment,
    ) -> (r: Result<(), ExecutionError>)
        requires
            forall|c: &ActionTokenClaims| #[trigger] encode_claims.requires((c,)),
        ensures
            exists|now: i64, claims_json: Vec<u8>|
                call_ensures(encode_claims, (&token.claims,), claims_json) && r == #[trigger] self.outcome(
                    *token,
                    *context,
                    claims_json@,
                    now,
                    limits,
                ),
    {
        let claims_json = encode_claims(&token.claims);
        let now = now_unix_ms();
        self.verify_at(token, context, claims_json.as_slice(), now, limits)
    }
}

impl RobotRuntime {
    fn enqueue(&mut self, e: AuditEvent)
        ensures
            final(self).pending_events() == old(self).pending_events().push(e),
            final(self).robot_id_view() == old(self).robot_id_view(),
            final(self).coordinator_view() == old(self).coordinator_view(),
            final(self).identity_view() == old(self).identity_view(),
            final(self).emergency_stop_view() == old(self).emergency_stop_view(),
            final(self).next_sequence_view() == old(self).next_sequence_view(),
            final(self).consumed_view() == old(self).consumed_view(),
            final(self).last_activity_view() == old(self).last_activity_view(),
    {
        proof {
            use_type_invariant(&*self);
        }
        let mut queue = Vec::new();
        std::mem::swap(&mut queue, &mut self.audit_queue);
        queue.push(e);
        self.audit_queue = queue;
    }

    /// Runs a token at time `now`: when the checks reject it, records the rejection and returns
    /// the error of the checks; otherwise records the start, performs the simulated skill (`move`,
    /// `pick`, `place` or `wait`; another skill is denied), consumes the token, advances the
    /// sequence and records the completion with its receipt.
    pub fn execute_at(
        &mut self,
        token: &SignedActionToken,
        context: &ExecutionContext,
        claims_json: &[u8],
        now: i64,
        limits: LimitAssessment,
    ) -> (r: Result<ExecutionReceipt, ExecutionError>)
        ensures
            execution_result(*old(self), *final(self), *token, *context, claims_json@, now, limits, r),
            final(self).robot_id_view() == old(self).robot_id_view(),
            final(self).coordinator_view() == old(self).coordinator_view(),
            final(self).identity_view() == old(self).identity_view(),
            final(self).emergency_stop_view() == old(self).emergency_stop_view(),
            match old(self).outcome(*token, *context, claims_json@, now, limits) {
                Err(e) => {
                    &&& r matches Err(err) && err == e
                    &&& final(self).next_sequence_view() == old(self).next_sequence_view()
                    &&& final(self).consumed_view() == old(self).consumed_view()
                    &&& final(self).pending_events().len() == old(self).pending_events().len() + 1
                    &&& final(self).pending_events().drop_last() == old(self).pending_events()
                    &&& event_parts(final(self).pending_events().last()) == rejection_event(
                        old(self).robot_id_view(),
                        token.claims.token_id@,
                        e,
                    )
                    &&& final(self).last_activity_view() matches Some(a) && a.kind@
                        == "execution.rejected"@ && a.subject@ == token.claims.token_id@
                        && a.at_unix_ms == now
                },
                Ok(()) => if !simulated_skill(token.claims.action.skill@) {
                    &&& r matches Err(ExecutionError::Policy(PolicyDenial::UnknownSkill(s))) && s@
                        == token.claims.action.skill@
                    &&& final(self).next_sequence_view() == old(self).next_sequence_view()
                    &&& final(self).consumed_view() == old(self).consumed_view()
                    &&& final(self).last_activity_view() == old(self).last_activity_view()
                    &&& final(self).pending_events().len() == old(self).pending_events().len() + 1
                    &&& final(self).pending_events().drop_last() == old(self).pending_events()
                    &&& event_parts(final(self).pending_events().last()) == start_event(
                        old(self).robot_id_view(),
                        token.claims.token_id@,
                        token.claims.action.skill@,
                        token.claims.sequence,
                    )
                } else if old(self).next_sequence_view() == u64::MAX {
                    &&& r matches Err(ExecutionError::Internal(m)) && m@ == "sequence numbers are exhausted"@
                    &&& final(self).next_sequence_view() == old(self).next_sequence_view()
                    &&& final(self).consumed_view() == old(self).consumed_view()
                    &&& final(self).last_activity_view() == old(self).last_activity_view()
                    &&& final(self).pending_events() == old(self).pending_events()
                } else {
                    &&& r matches Ok(receipt) && {
                        &&& receipt.token_id@ == token.claims.token_id@
                        &&& receipt.robot_id@ == old(self).robot_id_view()
                        &&& receipt.sequence == token.claims.sequence
                        &&& receipt.status == ExecutionStatus::Completed
                        &&& receipt.detail@ == completion_detail(token.claims.action.skill@)
                        &&& receipt.completed_at_unix_ms == now
                        &&& final(self).pending_events().len() == old(self).pending_events().len() + 2
                        &&& final(self).pending_events().take(old(self).pending_events().len() as int)
                            == old(self).pending_events()
                        &&& event_parts(final(self).pending_events()[old(self).pending_events().len() as int])
                            == start_event(
                            old(self).robot_id_view(),
                            token.claims.token_id@,
                            token.claims.action.skill@,
                            token.claims.sequence,
                        )
                        &&& event_parts(final(self).pending_events().last()) == completion_event(receipt)
                    }
                    &&& final(self).next_sequence_view() == old(self).next_sequence_view() + 1
                    &&& final(self).consumed_view() == old(self).consumed_view().insert(
                        token.claims.token_id@,
                    )
                    &&& final(self).last_activity_view() matches Some(a) && a.kind@
                        == "execution.completed"@ && a.subject@ == token.claims.token_id@
                        && a.at_unix_ms == now
                },
            },
    {
        proof {
            use_type_invariant(&*self);
        }
        let claims = &token.claims;
        match self.verify_at(token, context, claims_json, now, limits) {
            Ok(()) => {},
            Err(error) => {
                let reason = error.message();
                let fields = vec![field("reason", json_text(reason))];
                assert(fields@.map_values(|f: (String, serde_json::Value)| (f.0@, f.1)) =~= seq![
                    ("reason"@, json_text_value(execution_error_text(error))),
                ]);
                let detail = json_object(fields);
                let e = event("execution.rejected", &self.robot_id, &claims.token_id, detail);
                self.enqueue(e);
                proof {
                    use_type_invariant(&*self);
                }
                self.last_activity = Some(
                    ActivitySummary {
                        kind: owned("execution.rejected"),
                        subject: claims.token_id.clone(),
                        at_unix_ms: now,
                    },
                );
                assert(self.pending_events().drop_last() =~= old(self).pending_events());
                return Err(error);
            },
        }
        let skill = claims.action.skill.as_str();
        let known = same_text(skill, "move") || same_text(skill, "pick") || same_text(skill, "place")
            || same_text(skill, "wait");
        if known && self.next_sequence == u64::MAX {
            return Err(ExecutionError::Internal(owned("sequence numbers are exhausted")));
        }
        let start_fields = vec![
            field("sequence", json_u64(claims.sequence)),
            field("skill", json_text(claims.action.skill.clone())),
        ];
        assert(start_fields@.map_values(|f: (String, serde_json::Value)| (f.0@, f.1)) =~= seq![
            ("sequence"@, json_u64_value(claims.sequence)),
            ("skill"@, json_text_value(claims.action.skill@)),
        ]);
        let start_detail = json_object(start_fields);
        let started = event("execution.started", &self.robot_id, &claims.token_id, start_detail);
        self.enqueue(started);
        proof {
            use_type_invariant(&*self);
        }
        if !known {
            assert(self.pending_events().drop_last() =~= old(self).pending_events());
            return Err(ExecutionError::Policy(PolicyDenial::UnknownSkill(claims.action.skill.clone())));
        }
        let mut detail = owned("simulated ");
        append(&mut detail, skill);
        append(&mut detail, " completed");
        let mut consumed = StringTable::new();
        std::mem::swap(&mut consumed, &mut self.consumed);
        consumed.insert(claims.token_id.clone(), ());
        self.consumed = consumed;
        self.next_sequence = self.next_sequence + 1;
        let receipt = ExecutionReceipt {
            token_id: claims.token_id.clone(),
            robot_id: self.robot_id.clone(),
            sequence: claims.sequence,
            status: ExecutionStatus::Completed,
            detail,
            completed_at_unix_ms: now,
        };
        let completion_fields = vec![
            field("completed_at_unix_ms", json_i64(receipt.completed_at_unix_ms)),
            field("detail", json_text(receipt.detail.clone())),
            field("robot_id", json_text(receipt.robot_id.clone())),
            field("sequence", json_u64(receipt.sequence)),
            field("status", json_text(owned("completed"))),
            field("token_id", json_text(receipt.token_id.clone())),
        ];
        assert(completion_fields@.map_values(|f: (String, serde_json::Value)| (f.0@, f.1)) =~= seq![
            ("completed_at_unix_ms"@, json_i64_value(receipt.completed_at_unix_ms)),
            ("detail"@, json_text_value(receipt.detail@)),
            ("robot_id"@, json_text_value(receipt.robot_id@)),
            ("sequence"@, json_u64_value(receipt.sequence)),
            ("status"@, json_text_value("completed"@)),
            ("token_id"@, json_text_value(receipt.token_id@)),
        ]);
        let completion_detail_value = json_object(completion_fields);
        let completed = event("execution.completed", &self.robot_id, &claims.token_id, completion_detail_value);
        self.enqueue(completed);
        proof {
            use_type_invariant(&*self);
        }
        self.last_activity = Some(
            ActivitySummary {
                kind: owned("execution.completed"),
                subject: claims.token_id.clone(),
                at_unix_ms: now,
            },
        );
        assert(self.pending_events().take(old(self).pending_events().len() as int) =~= old(
            self,
        ).pending_events());
        assert(self.consumed_view() =~= old(self).consumed_view().insert(claims.token_id@));
        Ok(receipt)
    }
}

/// What executing `token` with `context` at `now` does, with `claims_json` the bytes the
/// signature is checked on: where the checks refuse, the error, unchanged sequence and
/// executed tokens, and the rejection recorded; where they accept an unknown skill, the denial
/// after the start is recorded; where sequence numbers are exhausted, an internal error and no
/// change; otherwise the receipt, the token consumed, the sequence advanced, and the start and
/// completion recorded.
pub open spec fn execution_result(
    before: RobotRuntime,
    after: RobotRuntime,
    token: SignedActionToken,
    context: ExecutionContext,
    claims_json: Seq<u8>,
    now: i64,
    limits: LimitAssessment,
    r: Result<ExecutionReceipt, ExecutionError>,
) -> bool {
    &&& after.robot_id_view() == before.robot_id_view()
    &&& after.coordinator_view() == before.coordinator_view()
    &&& after.identity_view() == before.identity_view()
    &&& after.emergency_stop_view() == before.emergency_stop_view()
    &&& match before.outcome(token, context, claims_json, now, limits) {
        Err(e) => {
            &&& r matches Err(err) && err == e
            &&& after.next_sequence_view() == before.next_sequence_view()
            &&& after.consumed_view() == before.consumed_view()
            &&& after.pending_events().len() == before.pending_events().len() + 1
            &&& after.pending_events().drop_last() == before.pending_events()
            &&& event_parts(after.pending_events().last()) == rejection_event(
                before.robot_id_view(),
                token.claims.token_id@,
                e,
            )
            &&& after.last_activity_view() matches Some(a) && a.kind@
                == "execution.rejected"@ && a.subject@ == token.claims.token_id@
                && a.at_unix_ms == now
        },
        Ok(()) => if !simulated_skill(token.claims.action.skill@) {
            &&& r matches Err(ExecutionError::Policy(PolicyDenial::UnknownSkill(s))) && s@
                == token.claims.action.skill@
            &&& after.next_sequence_view() == before.next_sequence_view()
            &&& after.consumed_view() == before.consumed_view()
            &&& after.last_activity_view() == before.last_activity_view()
            &&& after.pending_events().len() == before.pending_events().len() + 1
            &&& after.pending_events().drop_last() == before.pending_events()
            &&& event_parts(after.pending_events().last()) == start_event(
                before.robot_id_view(),
                token.claims.token_id@,
                token.claims.action.skill@,
                token.claims.sequence,
            )
        } else if before.next_sequence_view() == u64::MAX {
            &&& r matches Err(ExecutionError::Internal(m)) && m@ == "sequence numbers are exhausted"@
            &&& after.next_sequence_view() == before.next_sequence_view()
            &&& after.consumed_view() == before.consumed_view()
            &&& after.last_activity_view() == before.last_activity_view()
            &&& after.pending_events() == before.pending_events()
        } else {
            &&& r matches Ok(receipt) && {
                &&& receipt.token_id@ == token.claims.token_id@
                &&& receipt.robot_id@ == before.robot_id_view()
                &&& receipt.sequence == token.claims.sequence
                &&& receipt.status == ExecutionStatus::Completed
                &&& receipt.detail@ == completion_detail(token.claims.action.skill@)
                &&& receipt.completed_at_unix_ms == now
                &&& after.pending_events().len() == before.pending_events().len() + 2
                &&& after.pending_events().take(before.pending_events().len() as int)
                    == before.pending_events()
                &&& event_parts(after.pending_events()[before.pending_events().len() as int])
                    == start_event(
                    before.robot_id_view(),
                    token.claims.token_id@,
                    token.claims.action.skill@,
                    token.claims.sequence,
                )
                &&& event_parts(after.pending_events().last()) == completion_event(receipt)
            }
            &&& after.next_sequence_view() == before.next_sequence_view() + 1
            &&& after.consumed_view() == before.consumed_view().insert(
                token.claims.token_id@,
            )
            &&& after.last_activity_view() matches Some(a) && a.kind@
                == "execution.completed"@ && a.subject@ == token.claims.token_id@
                && a.at_unix_ms == now
        },
    }
}

impl RobotRuntime {
    /// Runs a token at the current time, checking the signature over the bytes that
    /// `encode_claims` gives for the token's claims; see `execute_at`.
    pub fn execute<F: Fn(&ActionTokenClaims) -> Vec<u8>>(
        &mut self,
        token: &SignedActionToken,
        context: &ExecutionContext,
        encode_claims: &F,
        limits: LimitAssessment,
    ) -> (r: Result<ExecutionReceipt, ExecutionError>)
        requires
            forall|c: &ActionTokenClaims| #[trigger] encode_claims.requires((c,)),
        ensures
            exists|now: i64, claims_json: Vec<u8>|
                call_ensures(encode_claims, (&token.claims,), claims_json) && #[trigger] execution_result(
                    *old(self),
                    *final(self),
                    *token,
                    *context,
                    claims_json@,
                    now,
                    limits,
                    r,
                ),
    {
        let claims_json = encode_claims(&token.claims);
        let now = now_unix_ms();
        let r = self.execute_at(token, context, claims_json.as_slice(), now, limits);
        assert(execution_result(*old(self), *self, *token, *context, claims_json@, now, limits, r));
        r
    }

    /// Activates or clears the emergency stop at time `now`, and records the change.
    pub fn set_emergency_stop_at(&mut self, active: bool, now: i64)
        ensures
            final(self).emergency_stop_view() == active,
            final(self).robot_id_view() == old(self).robot_id_view(),
            final(self).coordinator_view() == old(self).coordinator_view(),
            final(self).identity_view() == old(self).identity_view(),
            final(self).next_sequence_view() == old(self).next_sequence_view(),
            final(self).consumed_view() == old(self).consumed_view(),
            final(self).pending_events().len() == old(self).pending_events().len() + 1,
            final(self).pending_events().drop_last() == old(self).pending_events(),
            event_parts(final(self).pending_events().last()) == stop_event(old(self).robot_id_view(), active),
            final(self).last_activity_view() matches Some(a) && a.kind@ == stop_event(
                old(self).robot_id_view(),
                active,
            ).0 && a.subject@ == old(self).robot_id_view() && a.at_unix_ms == now,
    {
        proof {
            use_type_invariant(&*self);
        }
        self.emergency_stop = active;
        let kind = if active {
            "emergency_stop.activated"
        } else {
            "emergency_stop.cleared"
        };
        let fields: Vec<(String, serde_json::Value)> = Vec::new();
        assert(fields@.map_values(|f: (String, serde_json::Value)| (f.0@, f.1)) =~= Seq::empty());
        let detail = json_object(fields);
        let e = event(kind, &self.robot_id, &self.robot_id, detail);
        self.enqueue(e);
        proof {
            use_type_invariant(&*self);
        }
        self.last_activity = Some(
            ActivitySummary { kind: owned(kind), subject: self.robot_id.clone(), at_unix_ms: now },
        );
    }

    /// Activates or clears the emergency stop at the current time; see `set_emergency_stop_at`.
    pub fn set_emergency_stop(&mut self, active: bool)
        ensures
            final(self).emergency_stop_view() == active,
            final(self).next_sequence_view() == old(self).next_sequence_view(),
            final(self).consumed_view() == old(self).consumed_view(),
            final(self).robot_id_view() == old(self).robot_id_view(),
            final(self).coordinator_view() == old(self).coordinator_view(),
            final(self).identity_view() == old(self).identity_view(),
            final(self).pending_events().len() == old(self).pending_events().len() + 1,
            final(self).pending_events().drop_last() == old(self).pending_events(),
            event_parts(final(self).pending_events().last()) == stop_event(old(self).robot_id_view(), active),
            final(self).last_activity_view() matches Some(a) && a.kind@ == stop_event(
                old(self).robot_id_view(),
                active,
            ).0 && a.subject@ == old(self).robot_id_view(),
    {
        let now = now_unix_ms();
        self.set_emergency_stop_at(active, now);
    }

    /// Takes the audit events recorded since the last call, oldest first.
    pub fn take_pending_events(&mut self) -> (events: Vec<AuditEvent>)
        ensures
            events@ == old(self).pending_events(),
            final(self).pending_events() == Seq::<AuditEvent>::empty(),
            final(self).robot_id_view() == old(self).robot_id_view(),
            final(self).coordinator_view() == old(self).coordinator_view(),
            final(self).identity_view() == old(self).identity_view(),
            final(self).emergency_stop_view() == old(self).emergency_stop_view(),
            final(self).next_sequence_view() == old(self).next_sequence_view(),
            final(self).consumed_view() == old(self).consumed_view(),
            final(self).last_activity_view() == old(self).last_activity_view(),
    {
        proof {
            use_type_invariant(&*self);
        }
        let mut events = Vec::new();
        std::mem::swap(&mut events, &mut self.audit_queue);
        events
    }

    /// The robot ID.
    pub fn robot_id(&self) -> (r: &String)
        ensures
            r@ == self.robot_id_view(),
    {
        &self.robot_id
    }

    /// The robot's identity.
    pub fn identity(&self) -> (r: &HybridIdentity)
        ensures
            *r == self.identity_view(),
    {
        &self.identity
    }

    /// The next expected sequence number.
    pub fn next_sequence(&self) -> (r: u64)
        ensures
            r == self.next_sequence_view(),
    {
        self.next_sequence
    }

    /// Whether the emergency stop is active.
    pub fn emergency_stop(&self) -> (r: bool)
        ensures
            r == self.emergency_stop_view(),
    {
        self.emergency_stop
    }

    /// The last activity, if any.
    pub fn last_activity(&self) -> (r: &Option<ActivitySummary>)
        ensures
            *r == self.last_activity_view(),
    {
        &self.last_activity
    }

    /// The state to persist: sequence, stop flag, executed token IDs in string order, last activity.
    pub fn state(&self) -> (st: RuntimeState)
        ensures
            runtime_state_of(*self, st),
    {
        proof {
            use_type_invariant(self);
        }
        let entries = self.consumed.entries();
        let n = entries.len();
        let mut tokens: Vec<String> = Vec::new();
        for i in 0..n
            invariant
                n == entries@.len(),
                n == self.consumed.entries_view().len(),
                forall|j: int|
                    0 <= j < entries@.len() ==> (#[trigger] entries@[j]).0@
                        == self.consumed.entries_view()[j].0,
                tokens@.len() == i,
                forall|j: int| 0 <= j < i ==> (#[trigger] tokens@[j])@ == entries@[j].0@,
        {
            tokens.push(entries[i].0.clone());
        }
        proof {
            let ids = tokens@.map_values(|t: String| t@);
            let view = self.consumed.entries_view();
            assert forall|x: Seq<char>| #[trigger] ids.to_set().contains(x) == self.consumed_view().contains(x) by {
                if ids.contains(x) {
                    let k = choose|k: int| 0 <= k < ids.len() && ids[k] == x;
                    assert(view[k].0 == x);
                    assert(crate::table::has_key(view, x));
                }
                if self.consumed_view().contains(x) {
                    assert(crate::table::has_key(view, x));
                    let k = choose|k: int| 0 <= k < view.len() && #[trigger] view[k].0 == x;
                    assert(ids[k] == x);
                }
            }
            assert(ids.to_set() =~= self.consumed_view());
        }
        let last_activity = match &self.last_activity {
            Some(a) => Some(a.clone()),
            None => None,
        };
        RuntimeState {
            next_sequence: self.next_sequence,
            emergency_stop: self.emergency_stop,
            consumed_tokens: tokens,
            last_activity,
        }
    }
}

/// A robot accepts tokens only from its pinned coordinator, for itself, in sequence, in
/// context and within policy: when the checks accept a token, the token names the pinned
/// coordinator as issuer and its signature verifies against that identity on the claim bytes;
/// it targets this robot, carries the next sequence number, was not executed before, lies in
/// its validity window, carries the hash of the presented context, and its policy passes.
pub proof fn lemma_accepted_token(
    rt: RobotRuntime,
    token: SignedActionToken,
    context: ExecutionContext,
    claims_json: Seq<u8>,
    now: i64,
    limits: LimitAssessment,
)
    requires
        rt.outcome(token, context, claims_json, now, limits) is Ok,
    ensures
        !rt.emergency_stop_view(),
        token.schema@ == token_schema(),
        token.claims.robot_id@ == rt.robot_id_view(),
        token.claims.issuer_key_id@ == rt.coordinator_view().key_id,
        verification_outcome(rt.coordinator_view(), claims_json, token.signature@) is Ok,
        token.schema@ == "spacl.action-token.v1"@,
        token.claims.issued_at_unix_ms <= now + CLOCK_SKEW_MS,
        token.claims.issued_at_unix_ms <= now + 5000,
        now <= token.claims.expires_at_unix_ms,
        !rt.consumed_view().contains(token.claims.token_id@),
        token.claims.sequence == rt.next_sequence_view(),
        token.claims.context_hash@ == context_hash_of(context),
        policy_outcome(token, context, limits) is Ok,
        token.claims.risk == RiskLevel::High ==> two_distinct_operators(token.claims.approvals@),
{
}

/// An active emergency stop refuses every token.
pub proof fn lemma_emergency_stop_refuses(
    rt: RobotRuntime,
    token: SignedActionToken,
    context: ExecutionContext,
    claims_json: Seq<u8>,
    now: i64,
    limits: LimitAssessment,
)
    requires
        rt.emergency_stop_view(),
    ensures
        rt.outcome(token, context, claims_json, now, limits) matches Err(ExecutionError::EmergencyStop),
{
}

/// An executed token is never accepted again: once its ID is consumed, the checks refuse it
/// whatever context, bytes, time and limits come with it; and where it was accepted before
/// with the same inputs and nothing else changed, the refusal is `Replay`.
pub proof fn lemma_consumed_token_refused(
    before: RobotRuntime,
    after: RobotRuntime,
    token: SignedActionToken,
    context: ExecutionContext,
    claims_json: Seq<u8>,
    now: i64,
    limits: LimitAssessment,
)
    requires
        after.consumed_view().contains(token.claims.token_id@),
    ensures
        after.outcome(token, context, claims_json, now, limits) is Err,
        (before.outcome(token, context, claims_json, now, limits) is Ok && after.robot_id_view()
            == before.robot_id_view() && after.coordinator_view() == before.coordinator_view()
            && after.emergency_stop_view() == before.emergency_stop_view()) ==> after.outcome(
            token,
            context,
            claims_json,
            now,
            limits,
        ) matches Err(ExecutionError::Replay),
{
}

/// The policy passes exactly when the skill is allowed (or no skill list is given), the zone is
/// allowed (or no zone list is given), a requested speed or force is within its limit where
/// the token sets one (as the caller judged it), and a high-risk action carries approvals from
/// two distinct operators; every refusal is a policy denial.
pub proof fn lemma_policy_passes_iff(
    token: SignedActionToken,
    context: ExecutionContext,
    limits: LimitAssessment,
)
    ensures
        policy_outcome(token, context, limits) is Ok <==> {
            let c = token.claims;
            let p = c.constraints;
            &&& (p.allowed_skills@.len() == 0 || text_in(p.allowed_skills@, c.action.skill@))
            &&& (p.allowed_zones@.len() == 0 || text_in(p.allowed_zones@, context.zone@))
            &&& (c.action.requested_speed_mps is Some && p.max_speed_mps is Some
                ==> limits.speed_within_limit)
            &&& (c.action.requested_force_newtons is Some && p.max_force_newtons is Some
                ==> limits.force_within_limit)
            &&& (c.risk == RiskLevel::High ==> two_distinct_operators(c.approvals@))
        },
        policy_outcome(token, context, limits) is Ok <==> {
            let c = token.claims;
            let p = c.constraints;
            &&& (p.allowed_skills@.len() == 0 || exists|i: int|
                0 <= i < p.allowed_skills@.len() && #[trigger] p.allowed_skills@[i]@ == c.action.skill@)
            &&& (p.allowed_zones@.len() == 0 || exists|i: int|
                0 <= i < p.allowed_zones@.len() && #[trigger] p.allowed_zones@[i]@ == context.zone@)
            &&& (c.action.requested_speed_mps is Some && p.max_speed_mps is Some
                ==> limits.speed_within_limit)
            &&& (c.action.requested_force_newtons is Some && p.max_force_newtons is Some
                ==> limits.force_within_limit)
            &&& (c.risk == RiskLevel::High ==> exists|i: int, j: int|
                0 <= i < c.approvals@.len() && 0 <= j < c.approvals@.len()
                    && #[trigger] c.approvals@[i].operator_id@ != #[trigger] c.approvals@[j].operator_id@)
        },
        policy_outcome(token, context, limits) matches Err(e) ==> e is Policy,
{
}

/// An emergency stop survives a restart: a runtime resumed from the state of a stopped runtime
/// is stopped, refuses every token, and keeps the next sequence number and executed tokens.
pub proof fn lemma_stop_survives_restart(
    rt: RobotRuntime,
    st: RuntimeState,
    resumed: RobotRuntime,
    token: SignedActionToken,
    context: ExecutionContext,
    claims_json: Seq<u8>,
    now: i64,
    limits: LimitAssessment,
)
    requires
        runtime_state_of(rt, st),
        resumes(resumed, st),
        rt.emergency_stop_view(),
    ensures
        resumed.emergency_stop_view(),
        resumed.next_sequence_view() == rt.next_sequence_view(),
        resumed.consumed_view() == rt.consumed_view(),
        resumed.outcome(token, context, claims_json, now, limits) matches Err(ExecutionError::EmergencyStop),
{
    lemma_runtime_state_round_trip(rt, st, resumed);
    lemma_emergency_stop_refuses(resumed, token, context, claims_json, now, limits);
}

/// The simulator performs exactly the skills `move`, `pick`, `place` and `wait`: when the checks
/// accept a token and sequence numbers remain, a token for one of these skills completes, with
/// the detail `simulated <skill> completed`, its sequence number, the token consumed and the
/// sequence advanced; a token for any other skill is denied as unknown and changes neither.
pub proof fn lemma_simulated_skills_complete(
    before: RobotRuntime,
    after: RobotRuntime,
    token: SignedActionToken,
    context: ExecutionContext,
    claims_json: Seq<u8>,
    now: i64,
    limits: LimitAssessment,
    r: Result<ExecutionReceipt, ExecutionError>,
)
    requires
        execution_result(before, after, token, context, claims_json, now, limits, r),
        before.outcome(token, context, claims_json, now, limits) is Ok,
        before.next_sequence_view() < u64::MAX,
    ensures
        (token.claims.action.skill@ == "move"@ || token.claims.action.skill@ == "pick"@
            || token.claims.action.skill@ == "place"@ || token.claims.action.skill@ == "wait"@) ==> {
            &&& r matches Ok(receipt) && receipt.detail@ == "simulated "@ + token.claims.action.skill@
                + " completed"@ && receipt.sequence == token.claims.sequence && receipt.status
                == ExecutionStatus::Completed && receipt.token_id@ == token.claims.token_id@
            &&& after.next_sequence_view() == before.next_sequence_view() + 1
            &&& after.consumed_view() == before.consumed_view().insert(token.claims.token_id@)
        },
        (token.claims.action.skill@ != "move"@ && token.claims.action.skill@ != "pick"@
            && token.claims.action.skill@ != "place"@ && token.claims.action.skill@ != "wait"@) ==> {
            &&& r matches Err(ExecutionError::Policy(PolicyDenial::UnknownSkill(s))) && s@
                == token.claims.action.skill@
            &&& after.next_sequence_view() == before.next_sequence_view()
            &&& after.consumed_view() == before.consumed_view()
        },
{
}

/// The validity window allows five seconds of clock skew and nothing more: a token is refused
/// as expired exactly when it was issued more than 5000 ms after `now` or expired before `now`,
/// once the stop, schema, robot, issuer and signature checks have passed; no other token is
/// ever refused as expired.
pub proof fn lemma_validity_window(
    rt: RobotRuntime,
    token: SignedActionToken,
    context: ExecutionContext,
    claims_json: Seq<u8>,
    now: i64,
    limits: LimitAssessment,
)
    ensures
        rt.outcome(token, context, claims_json, now, limits) matches Err(ExecutionError::Expired)
            ==> token.claims.issued_at_unix_ms > now + 5000 || token.claims.expires_at_unix_ms < now,
        (token.claims.issued_at_unix_ms <= now + 5000 && now <= token.claims.expires_at_unix_ms)
            ==> !(rt.outcome(token, context, claims_json, now, limits) matches Err(ExecutionError::Expired)),
        ({
            &&& !rt.emergency_stop_view()
            &&& token.schema@ == "spacl.action-token.v1"@
            &&& token.claims.robot_id@ == rt.robot_id_view()
            &&& token.claims.issuer_key_id@ == rt.coordinator_view().key_id
            &&& verification_outcome(rt.coordinator_view(), claims_json, token.signature@) is Ok
        }) ==> ((token.claims.issued_at_unix_ms > now + 5000 || token.claims.expires_at_unix_ms < now)
            <==> rt.outcome(token, context, claims_json, now, limits) matches Err(ExecutionError::Expired)),
{
}

} // verus!
