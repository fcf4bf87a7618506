//! The coordination node: robot enrollment, revocation, exclusive task ownership and
//! action-token issuance.
use vstd::prelude::*;

use crate::audit::{AuditEvent, detail_field, event_parts, new_event};
use crate::crypto::{
    HybridIdentity, IdentityError, identity_error_text, is_blank,
    signing_outcome, validation_outcome, verification_outcome,
};
use crate::model::{
    ActionTokenClaims, ActivitySummary, RiskLevel, RobotRecord, RobotRegistration,
    SignedActionToken, TaskAssignment, TokenRequest, has_two_distinct_operators,
    two_distinct_operators,
};
use crate::primitives::{
    fresh_uuid, uuid_v4_text, json_object, json_object_value, json_text, json_text_value, json_u64,
    json_u64_value, now_unix_ms,
};
use crate::runtime::{LimitAssessment, RobotRuntime, context_hash, context_hash_of, policy_outcome};
use crate::model::ExecutionContext;
use crate::table::{StringTable, in_key_order, keyed, lemma_key_order_len, lemma_stored_increasing, stored};
use crate::text::{append, owned, same_text};

verus! {

/// Why the coordinator refused a request.
#[derive(Debug)]
pub enum CoordinatorError {
    UnknownRobot(String),
    RevokedRobot(String),
    AlreadyEnrolled(String),
    SubjectMismatch,
    TwoPersonApprovalRequired,
    InvalidTtl,
    /// The task is already assigned to another robot.
    TaskAssigned { task_id: String, owner: String },
    /// Identity validation or signing failed.
    Identity(IdentityError),
    /// A failure outside the coordinator's checks, such as storage.
    Internal(String),
}

/// A coordinator error, each text taken by its characters.
pub enum CoordinatorFailure {
    UnknownRobot(Seq<char>),
    RevokedRobot(Seq<char>),
    AlreadyEnrolled(Seq<char>),
    SubjectMismatch,
    TwoPersonApprovalRequired,
    InvalidTtl,
    TaskAssigned { task_id: Seq<char>, owner: Seq<char> },
    Identity(IdentityError),
    Internal(Seq<char>),
}

impl View for CoordinatorError {
    type V = CoordinatorFailure;

    open spec fn view(&self) -> CoordinatorFailure {
        match self {
            CoordinatorError::UnknownRobot(id) => CoordinatorFailure::UnknownRobot(id@),
            CoordinatorError::RevokedRobot(id) => CoordinatorFailure::RevokedRobot(id@),
            CoordinatorError::AlreadyEnrolled(id) => CoordinatorFailure::AlreadyEnrolled(id@),
            CoordinatorError::SubjectMismatch => CoordinatorFailure::SubjectMismatch,
            CoordinatorError::TwoPersonApprovalRequired => CoordinatorFailure::TwoPersonApprovalRequired,
            CoordinatorError::InvalidTtl => CoordinatorFailure::InvalidTtl,
            CoordinatorError::TaskAssigned { task_id, owner } => CoordinatorFailure::TaskAssigned {
                task_id: task_id@,
                owner: owner@,
            },
            CoordinatorError::Identity(e) => CoordinatorFailure::Identity(*e),
            CoordinatorError::Internal(m) => CoordinatorFailure::Internal(m@),
        }
    }
}

/// The human-readable description of a coordinator error.
pub open spec fn coordinator_error_text(e: CoordinatorFailure) -> Seq<char> {
    match e {
        CoordinatorFailure::UnknownRobot(id) => "robot is not enrolled: "@ + id,
        CoordinatorFailure::RevokedRobot(id) => "robot identity is revoked: "@ + id,
        CoordinatorFailure::AlreadyEnrolled(id) => "robot is already enrolled: "@ + id,
        CoordinatorFailure::SubjectMismatch => "robot identity subject does not match the robot ID"@,
        CoordinatorFailure::TwoPersonApprovalRequired => "high-risk actions require two distinct operator approvals"@,
        CoordinatorFailure::InvalidTtl => "token TTL must be between 1 and 300 seconds"@,
        CoordinatorFailure::TaskAssigned { task_id, owner } => "task "@ + task_id
            + " is assigned to robot "@ + owner,
        CoordinatorFailure::Identity(e) => identity_error_text(e),
        CoordinatorFailure::Internal(m) => m,
    }
}

impl CoordinatorError {
    /// The human-readable description of the error.
    pub fn message(&self) -> (s: String)
        ensures
            s@ == coordinator_error_text(self@),
    {
        match self {
            CoordinatorError::UnknownRobot(id) => {
                let mut s = owned("robot is not enrolled: ");
                append(&mut s, id.as_str());
                s
            },
            CoordinatorError::RevokedRobot(id) => {
                let mut s = owned("robot identity is revoked: ");
                append(&mut s, id.as_str());
                s
            },
            CoordinatorError::AlreadyEnrolled(id) => {
                let mut s = owned("robot is already enrolled: ");
                append(&mut s, id.as_str());
                s
            },
            CoordinatorError::SubjectMismatch => owned("robot identity subject does not match the robot ID"),
            CoordinatorError::TwoPersonApprovalRequired => owned(
                "high-risk actions require two distinct operator approvals",
            ),
            CoordinatorError::InvalidTtl => owned("token TTL must be between 1 and 300 seconds"),
            CoordinatorError::TaskAssigned { task_id, owner } => {
                let mut s = owned("task ");
                append(&mut s, task_id.as_str());
                append(&mut s, " is assigned to robot ");
                append(&mut s, owner.as_str());
                s
            },
            CoordinatorError::Identity(e) => e.message(),
            CoordinatorError::Internal(m) => m.clone(),
        }
    }
}

/// The coordinator's persisted state.
#[derive(Debug)]
pub struct CoordinatorState {
    /// Enrolled robots, by robot ID.
    pub robots: Vec<(String, RobotRecord)>,
    /// Task owners, by task ID.
    pub tasks: Vec<(String, TaskAssignment)>,
    pub last_activity: Option<ActivitySummary>,
}

/// The coordination node: its identity, the enrolled robots, the task owners, the last activity,
/// and the audit events not yet stored.
pub struct Coordinator {
    pub identity: HybridIdentity,
    robots: StringTable<RobotRecord>,
    tasks: StringTable<TaskAssignment>,
    last_activity: Option<ActivitySummary>,
    audit_queue: Vec<AuditEvent>,
}

/// The audit event of an enrollment.
pub open spec fn enrollment_event(robot_id: Seq<char>, key_id: Seq<char>) -> (Seq<char>, Seq<char>, Seq<char>, serde_json::Value) {
    (
        "robot.enrolled"@,
        "coordinator"@,
        robot_id,
        json_object_value(seq![("key_id"@, json_text_value(key_id))]),
    )
}

/// The audit event of a revocation.
pub open spec fn revocation_event(robot_id: Seq<char>) -> (Seq<char>, Seq<char>, Seq<char>, serde_json::Value) {
    ("robot.revoked"@, "operator"@, robot_id, json_object_value(Seq::empty()))
}

/// The audit event of a task assignment.
pub open spec fn assignment_event(task_id: Seq<char>, robot_id: Seq<char>) -> (Seq<char>, Seq<char>, Seq<char>, serde_json::Value) {
    (
        "task.assigned"@,
        "coordinator"@,
        task_id,
        json_object_value(seq![("robot_id"@, json_text_value(robot_id))]),
    )
}

/// The name of a risk level in tokens and events.
pub open spec fn risk_name(risk: RiskLevel) -> Seq<char> {
    match risk {
        RiskLevel::Normal => "normal"@,
        RiskLevel::High => "high"@,
    }
}

/// The audit event of an issued token.
pub open spec fn issuance_event(token_id: Seq<char>, robot_id: Seq<char>, sequence: u64, risk: RiskLevel) -> (Seq<char>, Seq<char>, Seq<char>, serde_json::Value) {
    (
        "token.issued"@,
        "coordinator"@,
        token_id,
        json_object_value(
            seq![
                ("risk"@, json_text_value(risk_name(risk))),
                ("robot_id"@, json_text_value(robot_id)),
                ("sequence"@, json_u64_value(sequence)),
            ],
        ),
    )
}

/// The outcome of the enrollment checks, in order: identity validation, subject, duplicate.
pub open spec fn enrollment_check(robots: Map<Seq<char>, RobotRecord>, registration: RobotRegistration) -> Result<
    (),
    CoordinatorFailure,
> {
    if validation_outcome(registration.identity@) is Err {
        Err(CoordinatorFailure::Identity(validation_outcome(registration.identity@)->Err_0))
    } else if registration.identity.subject@ != registration.robot_id@ {
        Err(CoordinatorFailure::SubjectMismatch)
    } else if robots.contains_key(registration.robot_id@) {
        Err(CoordinatorFailure::AlreadyEnrolled(registration.robot_id@))
    } else {
        Ok(())
    }
}

/// Whether the TTL lies between 1 and 300 seconds.
pub open spec fn ttl_valid(ttl_seconds: u64) -> bool {
    1 <= ttl_seconds <= 300
}

/// The outcome of the checks made before a token is signed, in order: TTL, two-person rule,
/// enrollment, revocation, task ownership, sequence space, expiry range.
pub open spec fn issuance_check(
    robots: Map<Seq<char>, RobotRecord>,
    tasks: Map<Seq<char>, TaskAssignment>,
    request: TokenRequest,
    now: i64,
) -> Result<(), CoordinatorFailure> {
    let robot = request.robot_id@;
    let task = request.context.task_id@;
    if !ttl_valid(request.ttl_seconds) {
        Err(CoordinatorFailure::InvalidTtl)
    } else if request.risk == RiskLevel::High && !two_distinct_operators(request.approvals@) {
        Err(CoordinatorFailure::TwoPersonApprovalRequired)
    } else if !robots.contains_key(robot) {
        Err(CoordinatorFailure::UnknownRobot(robot))
    } else if robots[robot].revoked {
        Err(CoordinatorFailure::RevokedRobot(robot))
    } else if tasks.contains_key(task) && tasks[task].robot_id@ != robot {
        Err(CoordinatorFailure::TaskAssigned { task_id: task, owner: tasks[task].robot_id@ })
    } else if robots[robot].next_sequence == u64::MAX {
        Err(CoordinatorFailure::Internal("robot sequence numbers are exhausted"@))
    } else if now + request.ttl_seconds * 1000 > i64::MAX {
        Err(CoordinatorFailure::Internal("token expiry is out of range"@))
    } else {
        Ok(())
    }
}

fn copy_activity(a: &Option<ActivitySummary>) -> (r: Option<ActivitySummary>)
    ensures
        r == *a,
{
    match a {
        Some(x) => Some(x.clone()),
        None => None,
    }
}

impl Coordinator {
    /// The table invariants.
    pub closed spec fn wf(&self) -> bool {
        self.robots.wf() && self.tasks.wf()
    }

    /// The coordinator's identity.
    pub closed spec fn identity_view(&self) -> HybridIdentity {
        self.identity
    }

    /// The enrolled robots by robot ID.
    pub closed spec fn robots_view(&self) -> Map<Seq<char>, RobotRecord> {
        self.robots@
    }

    /// The enrolled robots in robot-ID order.
    pub closed spec fn robots_in_order(&self) -> Seq<(Seq<char>, RobotRecord)> {
        self.robots.entries_view()
    }

    /// The task owners in task-ID order.
    pub closed spec fn tasks_in_order(&self) -> Seq<(Seq<char>, TaskAssignment)> {
        self.tasks.entries_view()
    }

    /// The task owners by task ID.
    pub closed spec fn tasks_view(&self) -> Map<Seq<char>, TaskAssignment> {
        self.tasks@
    }

    /// The last activity.
    pub closed spec fn last_activity_view(&self) -> Option<ActivitySummary> {
        self.last_activity
    }

    /// The audit events not yet taken for storage, oldest first.
    pub closed spec fn pending_events(&self) -> Seq<AuditEvent> {
        self.audit_queue@
    }

    /// A coordinator with this identity and nothing enrolled or assigned.
    pub fn new(identity: HybridIdentity) -> (c: Self)
        ensures
            c.wf(),
            c.identity_view() == identity,
            c.robots_view() == Map::<Seq<char>, RobotRecord>::empty(),
            c.tasks_view() == Map::<Seq<char>, TaskAssignment>::empty(),
            c.last_activity_view() is None,
            c.pending_events() == Seq::<AuditEvent>::empty(),
    {
        Coordinator {
            identity,
            robots: StringTable::new(),
            tasks: StringTable::new(),
            last_activity: None,
            audit_queue: Vec::new(),
        }
    }

    fn enqueue(&mut self, e: AuditEvent)
        ensures
            final(self).pending_events() == old(self).pending_events().push(e),
            final(self).identity == old(self).identity,
            final(self).robots == old(self).robots,
            final(self).tasks == old(self).tasks,
            final(self).last_activity == old(self).last_activity,
    {
        self.audit_queue.push(e);
    }

    /// Enrolls a robot at time `now`: the identity must validate, its subject must be the robot
    /// ID, and the robot must not be enrolled yet (an identity is never replaced).
    pub fn enroll_at(&mut self, registration: RobotRegistration, now: i64) -> (r: Result<RobotRecord, CoordinatorError>)
        requires
            old(self).wf(),
        ensures
            final(self).wf(),
            enroll_result(*old(self), *final(self), registration, now, r),
    {
        match registration.identity.validate() {
            Ok(()) => {},
            Err(e) => {
                return Err(CoordinatorError::Identity(e));
            },
        }
        if !same_text(registration.identity.subject.as_str(), registration.robot_id.as_str()) {
            return Err(CoordinatorError::SubjectMismatch);
        }
        if self.robots.contains_key(registration.robot_id.as_str()) {
            return Err(CoordinatorError::AlreadyEnrolled(registration.robot_id));
        }
        let record = RobotRecord {
            robot_id: registration.robot_id.clone(),
            display_name: registration.display_name,
            identity: registration.identity,
            revoked: false,
            next_sequence: 0,
        };
        self.robots.insert(registration.robot_id.clone(), record.clone());
        self.last_activity = Some(
            ActivitySummary {
                kind: owned("robot.enrolled"),
                subject: registration.robot_id.clone(),
                at_unix_ms: now,
            },
        );
        let fields = vec![detail_field("key_id", json_text(record.identity.key_id.clone()))];
        assert(fields@.map_values(|f: (String, serde_json::Value)| (f.0@, f.1)) =~= seq![
            ("key_id"@, json_text_value(record.identity.key_id@)),
        ]);
        let actor = owned("coordinator");
        let e = new_event("robot.enrolled", &actor, &registration.robot_id, json_object(fields));
        let ghost queue0 = self.audit_queue@;
        self.enqueue(e);
        assert(self.audit_queue@.drop_last() =~= queue0);
        Ok(record)
    }

    /// Enrolls a robot at the current time; see `enroll_at`.
    pub fn enroll(&mut self, registration: RobotRegistration) -> (r: Result<RobotRecord, CoordinatorError>)
        requires
            old(self).wf(),
        ensures
            final(self).wf(),
            exists|now: i64| enroll_result(*old(self), *final(self), registration, now, r),
    {
        let now = now_unix_ms();
        self.enroll_at(registration, now)
    }

    /// Revokes a robot at time `now`: it receives no further tokens.
    pub fn revoke_at(&mut self, robot_id: &str, now: i64) -> (r: Result<(), CoordinatorError>)
        requires
            old(self).wf(),
        ensures
            final(self).wf(),
            revoke_result(*old(self), *final(self), robot_id@, now, r),
    {
        let current = match self.robots.get(robot_id) {
            Some(record) => record.clone(),
            None => {
                return Err(CoordinatorError::UnknownRobot(owned(robot_id)));
            },
        };
        let updated = RobotRecord { revoked: true, ..current };
        let key = owned(robot_id);
        self.robots.insert(key, updated);
        let subject = owned(robot_id);
        self.last_activity = Some(
            ActivitySummary { kind: owned("robot.revoked"), subject: subject.clone(), at_unix_ms: now },
        );
        let fields: Vec<(String, serde_json::Value)> = Vec::new();
        assert(fields@.map_values(|f: (String, serde_json::Value)| (f.0@, f.1)) =~= Seq::empty());
        let actor = owned("operator");
        let e = new_event("robot.revoked", &actor, &subject, json_object(fields));
        let ghost queue0 = self.audit_queue@;
        self.enqueue(e);
        assert(self.audit_queue@.drop_last() =~= queue0);
        Ok(())
    }

    /// Revokes a robot at the current time; see `revoke_at`.
    pub fn revoke(&mut self, robot_id: &str) -> (r: Result<(), CoordinatorError>)
        requires
            old(self).wf(),
        ensures
            final(self).wf(),
            exists|now: i64| revoke_result(*old(self), *final(self), robot_id@, now, r),
    {
        let now = now_unix_ms();
        self.revoke_at(robot_id, now)
    }
}

/// What enrolling `registration` at `now` does: where `enrollment_check` refuses it, the error
/// and no change; otherwise a fresh, unrevoked record at sequence zero is stored under the
/// robot ID, the activity and the event are recorded. Nothing else changes.
pub open spec fn enroll_result(
    before: Coordinator,
    after: Coordinator,
    registration: RobotRegistration,
    now: i64,
    r: Result<RobotRecord, CoordinatorError>,
) -> bool {
    &&& after.identity_view() == before.identity_view()
    &&& after.tasks_view() == before.tasks_view()
    &&& match enrollment_check(before.robots_view(), registration) {
        Err(f) => {
            &&& r matches Err(e) && e@ == f
            &&& after.robots_view() == before.robots_view()
            &&& after.last_activity_view() == before.last_activity_view()
            &&& after.pending_events() == before.pending_events()
        },
        Ok(()) => {
            &&& r matches Ok(record) && {
                &&& record.robot_id@ == registration.robot_id@
                &&& record.display_name == registration.display_name
                &&& record.identity == registration.identity
                &&& !record.revoked
                &&& record.next_sequence == 0
                &&& after.robots_view() == before.robots_view().insert(registration.robot_id@, record)
            }
            &&& after.last_activity_view() matches Some(a) && a.kind@ == "robot.enrolled"@ && a.subject@
                == registration.robot_id@ && a.at_unix_ms == now
            &&& after.pending_events().len() == before.pending_events().len() + 1
            &&& after.pending_events().drop_last() == before.pending_events()
            &&& event_parts(after.pending_events().last()) == enrollment_event(
                registration.robot_id@,
                registration.identity.key_id@,
            )
        },
    }
}

/// What revoking `robot_id` at `now` does: an enrolled robot's record is marked revoked and the
/// activity and event are recorded; an unknown robot is an error and nothing changes.
pub open spec fn revoke_result(
    before: Coordinator,
    after: Coordinator,
    robot_id: Seq<char>,
    now: i64,
    r: Result<(), CoordinatorError>,
) -> bool {
    &&& after.identity_view() == before.identity_view()
    &&& after.tasks_view() == before.tasks_view()
    &&& if before.robots_view().contains_key(robot_id) {
        &&& r is Ok
        &&& after.robots_view() == before.robots_view().insert(
            robot_id,
            RobotRecord { revoked: true, ..before.robots_view()[robot_id] },
        )
        &&& after.last_activity_view() matches Some(a) && a.kind@ == "robot.revoked"@ && a.subject@
            == robot_id && a.at_unix_ms == now
        &&& after.pending_events().len() == before.pending_events().len() + 1
        &&& after.pending_events().drop_last() == before.pending_events()
        &&& event_parts(after.pending_events().last()) == revocation_event(robot_id)
    } else {
        &&& r matches Err(e) && e@ == CoordinatorFailure::UnknownRobot(robot_id)
        &&& after.robots_view() == before.robots_view()
        &&& after.last_activity_view() == before.last_activity_view()
        &&& after.pending_events() == before.pending_events()
    }
}

/// The claims that issuing a token for `request` with ID `token_id` at `now` signs: the
/// request's robot, action, constraints, risk and approvals, the robot's next sequence number,
/// the hash of the request's context, the validity window from `now` for the TTL, and the
/// coordinator's key ID as issuer.
pub open spec fn issued_claims(
    before: Coordinator,
    request: TokenRequest,
    token_id: Seq<char>,
    now: i64,
    claims: ActionTokenClaims,
) -> bool {
    &&& claims.token_id@ == token_id
    &&& claims.issuer_key_id@ == before.identity_view().public.key_id@
    &&& claims.robot_id@ == request.robot_id@
    &&& claims.action == request.action
    &&& claims.sequence == before.robots_view()[request.robot_id@].next_sequence
    &&& claims.context_hash@ == context_hash_of(request.context)
    &&& claims.issued_at_unix_ms == now
    &&& claims.expires_at_unix_ms == now + request.ttl_seconds * 1000
    &&& claims.constraints == request.constraints
    &&& claims.risk == request.risk
    &&& claims.approvals == request.approvals
}

/// What issuing a token for `request` with ID `token_id` at `now` does, with `encode` giving the
/// signed bytes of the claims: where `issuance_check` refuses, the error and no change; where
/// signing fails, the signing error and no change; otherwise the token carries the request's
/// action, context hash, constraints, risk and approvals, the robot's next sequence number, the
/// validity window from `now` for the TTL, the coordinator's key ID, and the coordinator's
/// signature of the encoded claims (which verifies where its secrets derive its public half),
/// and the state changes as `issued_state` says.
pub open spec fn issue_result<F: Fn(&ActionTokenClaims) -> Vec<u8>>(
    before: Coordinator,
    after: Coordinator,
    request: TokenRequest,
    token_id: Seq<char>,
    now: i64,
    encode: F,
    r: Result<SignedActionToken, CoordinatorError>,
) -> bool {
    let identity = before.identity_view();
    &&& after.identity_view() == identity
    &&& match issuance_check(before.robots_view(), before.tasks_view(), request, now) {
        Err(f) => {
            &&& r matches Err(e) && e@ == f
            &&& after.robots_view() == before.robots_view()
            &&& after.tasks_view() == before.tasks_view()
            &&& after.last_activity_view() == before.last_activity_view()
            &&& after.pending_events() == before.pending_events()
        },
        Ok(()) => match r {
            Err(e) => {
                &&& e@ matches CoordinatorFailure::Identity(err) && exists|claims: ActionTokenClaims, bytes: Vec<u8>|
                    {
                        &&& issued_claims(before, request, token_id, now, claims)
                        &&& call_ensures(encode, (&claims,), bytes)
                        &&& signing_outcome(
                            identity.public@,
                            identity.ml_dsa_seed_text(),
                            identity.ed25519_secret_text(),
                            bytes@,
                        ) == Err::<crate::crypto::SignatureBundleView, IdentityError>(err)
                    }
                &&& after.robots_view() == before.robots_view()
                &&& after.tasks_view() == before.tasks_view()
                &&& after.last_activity_view() == before.last_activity_view()
                &&& after.pending_events() == before.pending_events()
            },
            Ok(token) => {
                let claims = token.claims;
                &&& token.schema@ == crate::runtime::token_schema()
                &&& issued_claims(before, request, token_id, now, claims)
                &&& exists|bytes: Vec<u8>| {
                    &&& call_ensures(encode, (&claims,), bytes)
                    &&& signing_outcome(
                        identity.public@,
                        identity.ml_dsa_seed_text(),
                        identity.ed25519_secret_text(),
                        bytes@,
                    ) == Ok::<crate::crypto::SignatureBundleView, IdentityError>(token.signature@)
                    &&& (identity.keys_match() && !is_blank(identity.public.subject@))
                        ==> verification_outcome(identity.public@, bytes@, token.signature@) is Ok
                }
                &&& issued_state(
                    before,
                    after,
                    request.robot_id@,
                    request.context.task_id@,
                    token_id,
                    claims.sequence,
                    request.risk,
                    now,
                )
            },
        },
    }
}

/// The state changes of issuing a token for `robot` on `task` at `now`: the robot's next
/// sequence number advances by one, an unowned task becomes the robot's, and the events for
/// the assignment (when new) and the issuance are recorded.
pub open spec fn issued_state(
    before: Coordinator,
    after: Coordinator,
    robot: Seq<char>,
    task: Seq<char>,
    token_id: Seq<char>,
    sequence: u64,
    risk: RiskLevel,
    now: i64,
) -> bool {
    let old_record = before.robots_view()[robot];
    let new_task = !before.tasks_view().contains_key(task);
    let events = before.pending_events();
    &&& after.robots_view() == before.robots_view().insert(
        robot,
        RobotRecord { next_sequence: (old_record.next_sequence + 1) as u64, ..old_record },
    )
    &&& after.tasks_view().contains_key(task)
    &&& after.tasks_view()[task].robot_id@ == robot
    &&& (new_task ==> after.tasks_view() == before.tasks_view().insert(task, after.tasks_view()[task])
        && after.tasks_view()[task].assigned_at_unix_ms == now)
    &&& (!new_task ==> after.tasks_view() == before.tasks_view())
    &&& after.last_activity_view() matches Some(a) && a.kind@ == "token.issued"@ && a.subject@
        == token_id && a.at_unix_ms == now
    &&& after.pending_events().len() == events.len() + if new_task { 2int } else { 1int }
    &&& after.pending_events().take(events.len() as int) == events
    &&& (new_task ==> event_parts(after.pending_events()[events.len() as int]) == assignment_event(task, robot))
    &&& event_parts(after.pending_events().last()) == issuance_event(token_id, robot, sequence, risk)
}

impl Coordinator {
    /// Issues a token with ID `token_id` at time `now`, after the checks of `issuance_check`.
    /// `encode_claims` gives the canonical JSON bytes of the claims, which the coordinator
    /// signs. Where the coordinator's secrets derive its public half, the signature verifies
    /// against that public half on those bytes.
    pub fn issue_token_at<F: Fn(&ActionTokenClaims) -> Vec<u8>>(
        &mut self,
        request: TokenRequest,
        token_id: String,
        now: i64,
        encode_claims: &F,
    ) -> (r: Result<SignedActionToken, CoordinatorError>)
        requires
            old(self).wf(),
            forall|c: &ActionTokenClaims| #[trigger] encode_claims.requires((c,)),
        ensures
            final(self).wf(),
            issue_result(*old(self), *final(self), request, token_id@, now, *encode_claims, r),
    {
        if !(1 <= request.ttl_seconds && request.ttl_seconds <= 300) {
            return Err(CoordinatorError::InvalidTtl);
        }
        if request.risk == RiskLevel::High && !has_two_distinct_operators(&request.approvals) {
            return Err(CoordinatorError::TwoPersonApprovalRequired);
        }
        let record = match self.robots.get(request.robot_id.as_str()) {
            Some(record) => record.clone(),
            None => {
                return Err(CoordinatorError::UnknownRobot(request.robot_id));
            },
        };
        if record.revoked {
            return Err(CoordinatorError::RevokedRobot(request.robot_id));
        }
        let already_assigned = match self.tasks.get(request.context.task_id.as_str()) {
            Some(assignment) => {
                if !same_text(assignment.robot_id.as_str(), request.robot_id.as_str()) {
                    return Err(
                        CoordinatorError::TaskAssigned {
                            task_id: request.context.task_id.clone(),
                            owner: assignment.robot_id.clone(),
                        },
                    );
                }
                true
            },
            None => false,
        };
        if record.next_sequence == u64::MAX {
            return Err(CoordinatorError::Internal(owned("robot sequence numbers are exhausted")));
        }
        if (now as i128) + (request.ttl_seconds as i128) * 1000 > (i64::MAX as i128) {
            return Err(CoordinatorError::Internal(owned("token expiry is out of range")));
        }
        let expires = now + (request.ttl_seconds as i64) * 1000;
        let hash = context_hash(&request.context);
        let robot_id = request.robot_id.clone();
        let task_id = request.context.task_id.clone();
        let sequence = record.next_sequence;
        let risk = request.risk;
        let claims = ActionTokenClaims {
            token_id: token_id.clone(),
            issuer_key_id: self.identity.public.key_id.clone(),
            robot_id: request.robot_id,
            action: request.action,
            sequence,
            context_hash: hash,
            issued_at_unix_ms: now,
            expires_at_unix_ms: expires,
            constraints: request.constraints,
            risk: request.risk,
            approvals: request.approvals,
        };
        let bytes = encode_claims(&claims);
        let signature = match self.identity.sign(bytes.as_slice()) {
            Ok(signature) => signature,
            Err(e) => {
                return Err(CoordinatorError::Identity(e));
            },
        };
        let token = SignedActionToken {
            schema: owned("spacl.action-token.v1"),
            claims,
            signature,
        };
        let ghost events0 = self.audit_queue@;
        let updated = RobotRecord { next_sequence: sequence + 1, ..record };
        self.robots.insert(robot_id.clone(), updated);
        let actor = owned("coordinator");
        if !already_assigned {
            self.tasks.insert(
                task_id.clone(),
                TaskAssignment { robot_id: robot_id.clone(), assigned_at_unix_ms: now },
            );
            let fields = vec![detail_field("robot_id", json_text(robot_id.clone()))];
            assert(fields@.map_values(|f: (String, serde_json::Value)| (f.0@, f.1)) =~= seq![
                ("robot_id"@, json_text_value(robot_id@)),
            ]);
            let e = new_event("task.assigned", &actor, &task_id, json_object(fields));
            self.enqueue(e);
        }
        self.last_activity = Some(
            ActivitySummary { kind: owned("token.issued"), subject: token_id.clone(), at_unix_ms: now },
        );
        let risk_text = match risk {
            RiskLevel::Normal => owned("normal"),
            RiskLevel::High => owned("high"),
        };
        let fields = vec![
            detail_field("risk", json_text(risk_text)),
            detail_field("robot_id", json_text(robot_id.clone())),
            detail_field("sequence", json_u64(sequence)),
        ];
        assert(fields@.map_values(|f: (String, serde_json::Value)| (f.0@, f.1)) =~= seq![
            ("risk"@, json_text_value(risk_name(risk))),
            ("robot_id"@, json_text_value(robot_id@)),
            ("sequence"@, json_u64_value(sequence)),
        ]);
        let e = new_event("token.issued", &actor, &token_id, json_object(fields));
        self.enqueue(e);
        assert(self.audit_queue@.take(events0.len() as int) =~= events0);
        Ok(token)
    }
}

impl Coordinator {
    /// Issues a token with a fresh random ID at the current time; see `issue_token_at`.
    pub fn issue_token<F: Fn(&ActionTokenClaims) -> Vec<u8>>(
        &mut self,
        request: TokenRequest,
        encode_claims: &F,
    ) -> (r: Result<SignedActionToken, CoordinatorError>)
        requires
            old(self).wf(),
            forall|c: &ActionTokenClaims| #[trigger] encode_claims.requires((c,)),
        ensures
            final(self).wf(),
            exists|token_id: Seq<char>, now: i64|
                uuid_v4_text(token_id) && #[trigger] issue_result(
                    *old(self),
                    *final(self),
                    request,
                    token_id,
                    now,
                    *encode_claims,
                    r,
                ),
    {
        let token_id = fresh_uuid();
        let now = now_unix_ms();
        self.issue_token_at(request, token_id, now, encode_claims)
    }

    /// The enrolled robots in robot-ID order.
    pub fn robots(&self) -> (records: Vec<RobotRecord>)
        requires
            self.wf(),
        ensures
            records@.len() == self.robots_in_order().len(),
            forall|i: int|
                0 <= i < records@.len() ==> #[trigger] records@[i] == self.robots_in_order()[i].1,
            in_key_order(self.robots_in_order(), self.robots_view()),
            records@.len() == self.robots_view().dom().len(),
    {
        proof {
            lemma_key_order_len(self.robots_in_order());
        }
        let entries = self.robots.entries();
        let n = entries.len();
        let mut records: Vec<RobotRecord> = Vec::new();
        for i in 0..n
            invariant
                n == entries@.len(),
                n == self.robots_in_order().len(),
                forall|j: int| 0 <= j < entries@.len() ==> (#[trigger] entries@[j]).1 == self.robots_in_order()[j].1,
                records@.len() == i,
                forall|j: int| 0 <= j < i ==> #[trigger] records@[j] == self.robots_in_order()[j].1,
        {
            records.push(entries[i].1.clone());
        }
        records
    }

    /// The number of enrolled robots.
    pub fn robot_count(&self) -> (n: usize)
        ensures
            n == self.robots_in_order().len(),
            self.wf() ==> in_key_order(self.robots_in_order(), self.robots_view()) && n
                == self.robots_view().dom().len(),
    {
        proof {
            if self.wf() {
                lemma_key_order_len(self.robots_in_order());
            }
        }
        self.robots.len()
    }

    /// The robot ID of `task_id`'s owner, if the task is assigned.
    pub fn task_owner(&self, task_id: &str) -> (r: Option<String>)
        requires
            self.wf(),
        ensures
            match r {
                Some(owner) => self.tasks_view().contains_key(task_id@) && owner@
                    == self.tasks_view()[task_id@].robot_id@,
                None => !self.tasks_view().contains_key(task_id@),
            },
    {
        match self.tasks.get(task_id) {
            Some(a) => Some(a.robot_id.clone()),
            None => None,
        }
    }

    /// The last activity, if any.
    pub fn last_activity(&self) -> (r: &Option<ActivitySummary>)
        ensures
            *r == self.last_activity_view(),
    {
        &self.last_activity
    }

    /// Takes the audit events recorded since the last call, oldest first.
    pub fn take_pending_events(&mut self) -> (events: Vec<AuditEvent>)
        ensures
            events@ == old(self).pending_events(),
            final(self).pending_events() == Seq::<AuditEvent>::empty(),
            final(self).identity_view() == old(self).identity_view(),
            final(self).wf() == old(self).wf(),
            final(self).robots_view() == old(self).robots_view(),
            final(self).robots_in_order() == old(self).robots_in_order(),
            final(self).tasks_view() == old(self).tasks_view(),
            final(self).last_activity_view() == old(self).last_activity_view(),
    {
        let mut events = Vec::new();
        std::mem::swap(&mut events, &mut self.audit_queue);
        events
    }

    /// The state to persist: robots and tasks in ID order, and the last activity.
    pub fn state(&self) -> (st: CoordinatorState)
        requires
            self.wf(),
        ensures
            state_of(*self, st),
    {
        let entries = self.robots.entries();
        let n = entries.len();
        let mut robots: Vec<(String, RobotRecord)> = Vec::new();
        for i in 0..n
            invariant
                n == entries@.len(),
                n == self.robots_in_order().len(),
                forall|j: int|
                    0 <= j < entries@.len() ==> (#[trigger] entries@[j]).0@ == self.robots_in_order()[j].0
                        && entries@[j].1 == self.robots_in_order()[j].1,
                robots@.len() == i,
                forall|j: int|
                    0 <= j < i ==> (#[trigger] robots@[j]).0@ == self.robots_in_order()[j].0
                        && robots@[j].1 == self.robots_in_order()[j].1,
        {
            robots.push((entries[i].0.clone(), entries[i].1.clone()));
        }
        let task_entries = self.tasks.entries();
        let m = task_entries.len();
        let mut tasks: Vec<(String, TaskAssignment)> = Vec::new();
        for j in 0..m
            invariant
                m == task_entries@.len(),
                m == self.tasks_in_order().len(),
                forall|k: int|
                    0 <= k < task_entries@.len() ==> (#[trigger] task_entries@[k]).0@
                        == self.tasks_in_order()[k].0 && task_entries@[k].1 == self.tasks_in_order()[k].1,
                tasks@.len() == j,
                forall|k: int|
                    0 <= k < j ==> (#[trigger] tasks@[k]).0@ == self.tasks_in_order()[k].0
                        && tasks@[k].1 == self.tasks_in_order()[k].1,
        {
            tasks.push((task_entries[j].0.clone(), task_entries[j].1.clone()));
        }
        let st = CoordinatorState { robots, tasks, last_activity: copy_activity(&self.last_activity) };
        assert(keyed(st.robots@) =~= self.robots_in_order());
        assert(keyed(st.tasks@) =~= self.tasks_in_order());
        st
    }

    /// A coordinator with this identity that resumes a persisted state: the robots and tasks
    /// are those of the state's entries, stored one after another.
    pub fn restore(identity: HybridIdentity, state: CoordinatorState) -> (c: Self)
        ensures
            c.wf(),
            restored_from(c, identity, state),
    {
        let CoordinatorState { robots: robot_entries, tasks: task_entries, last_activity } = state;
        let robots = StringTable::from_entries(robot_entries);
        let tasks = StringTable::from_entries(task_entries);
        Coordinator { identity, robots, tasks, last_activity, audit_queue: Vec::new() }
    }
}

/// Whether `st` is the state of `c`: its robots and tasks in ID order, and its last activity.
pub open spec fn state_of(c: Coordinator, st: CoordinatorState) -> bool {
    &&& keyed(st.robots@) == c.robots_in_order()
    &&& keyed(st.tasks@) == c.tasks_in_order()
    &&& st.last_activity == c.last_activity_view()
}

/// Whether `c` resumes `st` with `identity` and an empty audit queue.
pub open spec fn restored_from(c: Coordinator, identity: HybridIdentity, st: CoordinatorState) -> bool {
    &&& c.identity_view() == identity
    &&& c.robots_view() == stored(keyed(st.robots@))
    &&& c.tasks_view() == stored(keyed(st.tasks@))
    &&& c.last_activity_view() == st.last_activity
    &&& c.pending_events() == Seq::<AuditEvent>::empty()
}

/// Persisting and resuming keeps the coordinator: resuming the state of a coordinator gives the
/// same enrolled robots, the same task owners and the same last activity.
pub proof fn lemma_state_round_trip(
    c: Coordinator,
    st: CoordinatorState,
    identity: HybridIdentity,
    resumed: Coordinator,
)
    requires
        c.wf(),
        state_of(c, st),
        restored_from(resumed, identity, st),
    ensures
        resumed.robots_view() == c.robots_view(),
        resumed.tasks_view() == c.tasks_view(),
        resumed.last_activity_view() == c.last_activity_view(),
{
    c.lemma_tables_stored();
}

impl Coordinator {
    /// Each table is the map that storing its entries in order gives.
    proof fn lemma_tables_stored(&self)
        requires
            self.wf(),
        ensures
            stored(self.robots_in_order()) == self.robots_view(),
            stored(self.tasks_in_order()) == self.tasks_view(),
    {
        lemma_stored_increasing(self.robots.entries_view());
        lemma_stored_increasing(self.tasks.entries_view());
    }
}

/// A revoked robot receives no token: whatever the request, issuance is refused.
pub proof fn lemma_revoked_robot_gets_no_token(c: Coordinator, request: TokenRequest, now: i64)
    requires
        c.robots_view().contains_key(request.robot_id@),
        c.robots_view()[request.robot_id@].revoked,
    ensures
        issuance_check(c.robots_view(), c.tasks_view(), request, now) is Err,
        ttl_valid(request.ttl_seconds) && (request.risk == RiskLevel::High ==> two_distinct_operators(
            request.approvals@,
        )) ==> issuance_check(c.robots_view(), c.tasks_view(), request, now) == Err::<
            (),
            CoordinatorFailure,
        >(CoordinatorFailure::RevokedRobot(request.robot_id@)),
{
}

/// Enrollment binds the subject and never replaces an identity: an accepted registration has a
/// valid identity whose subject is the robot ID, for a robot not enrolled before; registering an
/// enrolled robot ID again is refused.
pub proof fn lemma_enrollment_binds_subject(
    robots: Map<Seq<char>, RobotRecord>,
    registration: RobotRegistration,
)
    ensures
        enrollment_check(robots, registration) is Ok ==> {
            &&& validation_outcome(registration.identity@) is Ok
            &&& registration.identity.subject@ == registration.robot_id@
            &&& !robots.contains_key(registration.robot_id@)
        },
        robots.contains_key(registration.robot_id@) ==> enrollment_check(robots, registration) is Err,
{
}

/// Issuance honours the two-person rule, revocation and task ownership: an accepted request has
/// a TTL of 1 to 300 seconds, names an enrolled, unrevoked robot, has two distinct approvers when
/// it is high-risk, and its task is unowned or owned by the same robot.
pub proof fn lemma_issuance_guards(
    robots: Map<Seq<char>, RobotRecord>,
    tasks: Map<Seq<char>, TaskAssignment>,
    request: TokenRequest,
    now: i64,
)
    requires
        issuance_check(robots, tasks, request, now) is Ok,
    ensures
        ttl_valid(request.ttl_seconds),
        1 <= request.ttl_seconds <= 300,
        request.risk == RiskLevel::High ==> two_distinct_operators(request.approvals@),
        request.risk == RiskLevel::High ==> exists|i: int, j: int|
            0 <= i < request.approvals@.len() && 0 <= j < request.approvals@.len()
                && #[trigger] request.approvals@[i].operator_id@
                != #[trigger] request.approvals@[j].operator_id@,
        robots.contains_key(request.robot_id@),
        !robots[request.robot_id@].revoked,
        tasks.contains_key(request.context.task_id@) ==> tasks[request.context.task_id@].robot_id@
            == request.robot_id@,
{
}

/// Every operation keeps each enrolled robot enrolled with the same robot ID, display name and
/// identity: enrollment only adds, revocation only marks, issuance only advances the sequence.
pub open spec fn identities_kept(before: Map<Seq<char>, RobotRecord>, after: Map<Seq<char>, RobotRecord>) -> bool {
    forall|k: Seq<char>|
        #[trigger] before.contains_key(k) ==> after.contains_key(k) && after[k].identity
            == before[k].identity && after[k].robot_id == before[k].robot_id
            && after[k].display_name == before[k].display_name
}

/// Enrolled identities are never replaced, by enrollment, revocation or issuance.
pub proof fn lemma_identities_kept<F: Fn(&ActionTokenClaims) -> Vec<u8>>(
    before: Coordinator,
    after: Coordinator,
    registration: RobotRegistration,
    robot_id: Seq<char>,
    request: TokenRequest,
    token_id: Seq<char>,
    now: i64,
    encode: F,
    enrolled: Result<RobotRecord, CoordinatorError>,
    revoked: Result<(), CoordinatorError>,
    issued: Result<SignedActionToken, CoordinatorError>,
)
    ensures
        enroll_result(before, after, registration, now, enrolled) ==> identities_kept(
            before.robots_view(),
            after.robots_view(),
        ),
        revoke_result(before, after, robot_id, now, revoked) ==> identities_kept(
            before.robots_view(),
            after.robots_view(),
        ),
        issue_result(before, after, request, token_id, now, encode, issued) ==> identities_kept(
            before.robots_view(),
            after.robots_view(),
        ),
{
}

/// Task ownership is exclusive and permanent: after issuance the task is owned by the token's
/// robot, and a task that was owned before keeps its owner.
pub proof fn lemma_task_ownership<F: Fn(&ActionTokenClaims) -> Vec<u8>>(
    before: Coordinator,
    after: Coordinator,
    request: TokenRequest,
    token_id: Seq<char>,
    now: i64,
    encode: F,
    issued: Result<SignedActionToken, CoordinatorError>,
)
    requires
        issue_result(before, after, request, token_id, now, encode, issued),
    ensures
        forall|t: Seq<char>|
            #[trigger] before.tasks_view().contains_key(t) ==> after.tasks_view().contains_key(t)
                && after.tasks_view()[t] == before.tasks_view()[t],
        issued is Ok ==> after.tasks_view().contains_key(request.context.task_id@)
            && after.tasks_view()[request.context.task_id@].robot_id@ == request.robot_id@,
{
}

/// Sequence numbers per robot increase by one with each token: the token carries the robot's
/// next sequence number, and the next one after it is one more.
pub proof fn lemma_sequence_advances<F: Fn(&ActionTokenClaims) -> Vec<u8>>(
    before: Coordinator,
    after: Coordinator,
    request: TokenRequest,
    token_id: Seq<char>,
    now: i64,
    encode: F,
    issued: Result<SignedActionToken, CoordinatorError>,
)
    requires
        issue_result(before, after, request, token_id, now, encode, issued),
        issued is Ok,
    ensures
        issued->Ok_0.claims.sequence == before.robots_view()[request.robot_id@].next_sequence,
        after.robots_view()[request.robot_id@].next_sequence == issued->Ok_0.claims.sequence + 1,
{
}

/// A robot accepts the tokens its coordinator issues: a token that the coordinator (whose
/// secrets derive its public half, with a non-blank subject) issued, presented with the bytes
/// that a deterministic claim encoder gives for its claims, passes the execution checks of a runtime pinned
/// to the coordinator's public identity for the token's robot, when the runtime expects the
/// token's sequence number, is not stopped, has not executed the token, the presented context
/// hashes like the requested one, the time lies in the token's validity window, and the policy
/// passes.
pub proof fn lemma_issued_token_accepted<F: Fn(&ActionTokenClaims) -> Vec<u8>>(
    before: Coordinator,
    after: Coordinator,
    request: TokenRequest,
    token_id: Seq<char>,
    now: i64,
    encode: F,
    token: SignedActionToken,
    bytes: Vec<u8>,
    rt: RobotRuntime,
    context: ExecutionContext,
    at: i64,
    limits: LimitAssessment,
)
    requires
        issue_result(before, after, request, token_id, now, encode, Ok::<SignedActionToken, CoordinatorError>(token)),
        before.identity_view().keys_match(),
        !is_blank(before.identity_view().public.subject@),
        call_ensures(encode, (&token.claims,), bytes),
        forall|b: Vec<u8>| #[trigger] call_ensures(encode, (&token.claims,), b) ==> b@ == bytes@,
        rt.coordinator_view() == before.identity_view().public@,
        rt.robot_id_view() == request.robot_id@,
        rt.next_sequence_view() == token.claims.sequence,
        !rt.emergency_stop_view(),
        !rt.consumed_view().contains(token_id),
        context_hash_of(context) == context_hash_of(request.context),
        now <= at <= now + request.ttl_seconds * 1000,
        policy_outcome(token, context, limits) is Ok,
    ensures
        rt.outcome(token, context, bytes@, at, limits) is Ok,
{
}

/// Enrollment accepts exactly the registrations whose identity validates, whose subject is the
/// robot ID and whose robot ID is not enrolled yet; nothing else about the other enrolled
/// robots (their names, keys or states) can refuse one. An accepted registration is stored
/// under its robot ID, unrevoked, at sequence zero, with its display name and identity.
pub proof fn lemma_enrollment_accepts(
    before: Coordinator,
    after: Coordinator,
    registration: RobotRegistration,
    now: i64,
    r: Result<RobotRecord, CoordinatorError>,
)
    requires
        enroll_result(before, after, registration, now, r),
    ensures
        enrollment_check(before.robots_view(), registration) is Ok <==> {
            &&& validation_outcome(registration.identity@) is Ok
            &&& registration.identity.subject@ == registration.robot_id@
            &&& !before.robots_view().contains_key(registration.robot_id@)
        },
        r is Ok <==> {
            &&& validation_outcome(registration.identity@) is Ok
            &&& registration.identity.subject@ == registration.robot_id@
            &&& !before.robots_view().contains_key(registration.robot_id@)
        },
        r matches Ok(record) ==> {
            &&& record.robot_id@ == registration.robot_id@
            &&& record.display_name == registration.display_name
            &&& record.identity == registration.identity
            &&& !record.revoked
            &&& record.next_sequence == 0
            &&& after.robots_view().contains_key(registration.robot_id@)
            &&& after.robots_view()[registration.robot_id@] == record
        },
{
}

/// Issuance refuses only on its stated grounds: a request with a TTL of 1 to 300 seconds, two
/// approvals from distinct operators when it is high-risk, for an enrolled and unrevoked robot,
/// on a task that is unowned or owned by that robot, with sequence numbers left and an expiry
/// that fits, passes the checks, whatever other tasks the robot already owns.
pub proof fn lemma_issuance_accepts(
    robots: Map<Seq<char>, RobotRecord>,
    tasks: Map<Seq<char>, TaskAssignment>,
    request: TokenRequest,
    now: i64,
)
    requires
        1 <= request.ttl_seconds <= 300,
        request.risk == RiskLevel::High ==> exists|i: int, j: int|
            0 <= i < request.approvals@.len() && 0 <= j < request.approvals@.len()
                && #[trigger] request.approvals@[i].operator_id@
                != #[trigger] request.approvals@[j].operator_id@,
        robots.contains_key(request.robot_id@),
        !robots[request.robot_id@].revoked,
        tasks.contains_key(request.context.task_id@) ==> tasks[request.context.task_id@].robot_id@
            == request.robot_id@,
        robots[request.robot_id@].next_sequence < u64::MAX,
        now + request.ttl_seconds * 1000 <= i64::MAX,
    ensures
        issuance_check(robots, tasks, request, now) is Ok,
{
}

/// Under the same conditions, issuing a token can fail only where signing fails: otherwise the
/// token carries the robot's next sequence number, the task (unowned before, or already the
/// robot's) is then owned by the robot, and the robot's next sequence number advances by one.
pub proof fn lemma_issuance_succeeds<F: Fn(&ActionTokenClaims) -> Vec<u8>>(
    before: Coordinator,
    after: Coordinator,
    request: TokenRequest,
    token_id: Seq<char>,
    now: i64,
    encode: F,
    r: Result<SignedActionToken, CoordinatorError>,
)
    requires
        issue_result(before, after, request, token_id, now, encode, r),
        1 <= request.ttl_seconds <= 300,
        request.risk == RiskLevel::High ==> exists|i: int, j: int|
            0 <= i < request.approvals@.len() && 0 <= j < request.approvals@.len()
                && #[trigger] request.approvals@[i].operator_id@
                != #[trigger] request.approvals@[j].operator_id@,
        before.robots_view().contains_key(request.robot_id@),
        !before.robots_view()[request.robot_id@].revoked,
        before.tasks_view().contains_key(request.context.task_id@)
            ==> before.tasks_view()[request.context.task_id@].robot_id@ == request.robot_id@,
        before.robots_view()[request.robot_id@].next_sequence < u64::MAX,
        now + request.ttl_seconds * 1000 <= i64::MAX,
    ensures
        r is Ok || r matches Err(CoordinatorError::Identity(_)),
        r matches Ok(token) ==> {
            &&& token.claims.sequence == before.robots_view()[request.robot_id@].next_sequence
            &&& token.claims.robot_id@ == request.robot_id@
            &&& after.tasks_view().contains_key(request.context.task_id@)
            &&& after.tasks_view()[request.context.task_id@].robot_id@ == request.robot_id@
            &&& after.robots_view()[request.robot_id@].next_sequence
                == before.robots_view()[request.robot_id@].next_sequence + 1
        },
{
    lemma_issuance_accepts(before.robots_view(), before.tasks_view(), request, now);
}

} // verus!
