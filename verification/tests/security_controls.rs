use spacl::coordinator::{Coordinator, CoordinatorError};
use spacl::crypto::HybridIdentity;
use spacl::model::{
    ActionTokenClaims, Approval, ExecutionContext, FloatBits, PolicyConstraints, RiskLevel,
    RobotAction, RobotRegistration, SignedActionToken, TokenRequest,
};
use spacl::runtime::{
    ExecutionError, LimitAssessment, PolicyDenial, RobotRuntime, RuntimeState, SignatureFault,
};

fn now_ms() -> i64 {
    std::time::SystemTime::now()
        .duration_since(std::time::UNIX_EPOCH)
        .unwrap()
        .as_millis() as i64
}

/// A deterministic encoding of every claim, standing in for the canonical JSON.
fn encode_claims(c: &ActionTokenClaims) -> Vec<u8> {
    let approvals: Vec<String> = c.approvals.iter().map(|a| a.operator_id.clone()).collect();
    format!(
        "{}|{}|{}|{}|{:?}|{:?}|{:?}|{}|{}|{}|{}|{:?}|{:?}|{:?}|{:?}|{:?}|{:?}",
        c.token_id,
        c.issuer_key_id,
        c.robot_id,
        c.action.skill,
        c.action.requested_speed_mps,
        c.action.requested_force_newtons,
        c.action.arguments.iter().map(|(k, v)| format!("{k}={v}")).collect::<Vec<_>>(),
        c.sequence,
        c.context_hash,
        c.issued_at_unix_ms,
        c.expires_at_unix_ms,
        c.constraints.allowed_skills,
        c.constraints.allowed_zones,
        c.constraints.max_speed_mps,
        c.constraints.max_force_newtons,
        c.risk,
        approvals,
    )
    .into_bytes()
}

fn within(requested: Option<FloatBits>, maximum: Option<FloatBits>) -> bool {
    match (requested, maximum) {
        (Some(r), Some(m)) => {
            let r = f64::from_bits(r.bits);
            let m = f64::from_bits(m.bits);
            r.is_finite() && r >= 0.0 && !(r > m)
        }
        _ => true,
    }
}

fn limits(token: &SignedActionToken) -> LimitAssessment {
    let claims = &token.claims;
    LimitAssessment {
        speed_within_limit: within(claims.action.requested_speed_mps, claims.constraints.max_speed_mps),
        force_within_limit: within(
            claims.action.requested_force_newtons,
            claims.constraints.max_force_newtons,
        ),
    }
}

fn bits(value: f64) -> FloatBits {
    FloatBits { bits: value.to_bits() }
}

struct Fixture {
    coordinator: Coordinator,
    robot_identity: HybridIdentity,
    context: ExecutionContext,
}

impl Fixture {
    fn new() -> Self {
        let mut coordinator = Coordinator::new(HybridIdentity::generate("coordinator"));
        let robot_identity = HybridIdentity::generate("robot-1");
        coordinator
            .enroll(RobotRegistration {
                robot_id: "robot-1".into(),
                display_name: "Test Robot".into(),
                identity: robot_identity.public.clone(),
            })
            .unwrap();
        Self {
            coordinator,
            robot_identity,
            context: ExecutionContext {
                task_id: "task-1".into(),
                zone: "safe-zone".into(),
                state_hash: "world-1".into(),
            },
        }
    }

    fn request(&self) -> TokenRequest {
        TokenRequest {
            robot_id: "robot-1".into(),
            action: RobotAction {
                skill: "move".into(),
                arguments: vec![],
                requested_speed_mps: Some(bits(0.5)),
                requested_force_newtons: None,
            },
            context: self.context.clone(),
            ttl_seconds: 30,
            constraints: PolicyConstraints {
                allowed_skills: vec!["move".into()],
                allowed_zones: vec!["safe-zone".into()],
                max_speed_mps: Some(bits(1.0)),
                max_force_newtons: None,
            },
            risk: RiskLevel::Normal,
            approvals: vec![],
        }
    }

    fn issue(&mut self, request: TokenRequest) -> Result<SignedActionToken, CoordinatorError> {
        self.coordinator.issue_token(request, &encode_claims)
    }

    fn runtime(&self) -> RobotRuntime {
        RobotRuntime::open(
            "robot-1".into(),
            self.robot_identity.clone(),
            self.coordinator.identity.public.clone(),
            RuntimeState {
                next_sequence: 0,
                emergency_stop: false,
                consumed_tokens: vec![],
                last_activity: None,
            },
        )
        .unwrap()
    }
}

fn verify(
    runtime: &RobotRuntime,
    token: &SignedActionToken,
    context: &ExecutionContext,
) -> Result<(), ExecutionError> {
    runtime.verify(token, context, &encode_claims, limits(token))
}

fn execute(
    runtime: &mut RobotRuntime,
    token: &SignedActionToken,
    context: &ExecutionContext,
) -> Result<spacl::model::ExecutionReceipt, ExecutionError> {
    runtime.execute(token, context, &encode_claims, limits(token))
}

#[test]
fn valid_token_executes_once_and_replay_fails() {
    let mut fixture = Fixture::new();
    let request = fixture.request();
    let token = fixture.issue(request).unwrap();
    let mut runtime = fixture.runtime();
    let receipt = execute(&mut runtime, &token, &fixture.context).unwrap();
    assert_eq!(receipt.sequence, 0);
    assert!(matches!(
        execute(&mut runtime, &token, &fixture.context),
        Err(ExecutionError::Replay)
    ));
}

#[test]
fn tampering_breaks_the_hybrid_signature() {
    let mut fixture = Fixture::new();
    let request = fixture.request();
    let mut token = fixture.issue(request).unwrap();
    token.claims.action.skill = "place".into();
    let runtime = fixture.runtime();
    assert!(matches!(
        verify(&runtime, &token, &fixture.context),
        Err(ExecutionError::InvalidSignature(_))
    ));
}

#[test]
fn context_and_policy_are_enforced() {
    let mut fixture = Fixture::new();
    let request = fixture.request();
    let token = fixture.issue(request).unwrap();
    let runtime = fixture.runtime();
    let wrong_context = ExecutionContext {
        zone: "restricted-zone".into(),
        ..fixture.context.clone()
    };
    assert!(matches!(
        verify(&runtime, &token, &wrong_context),
        Err(ExecutionError::Context)
    ));
}

#[test]
fn sequence_and_emergency_stop_are_enforced() {
    let mut fixture = Fixture::new();
    let first_request = fixture.request();
    let first = fixture.issue(first_request).unwrap();
    let second_request = fixture.request();
    let second = fixture.issue(second_request).unwrap();
    let mut runtime = fixture.runtime();
    assert!(matches!(
        verify(&runtime, &second, &fixture.context),
        Err(ExecutionError::Sequence { .. })
    ));
    runtime.set_emergency_stop(true);
    assert!(matches!(
        verify(&runtime, &first, &fixture.context),
        Err(ExecutionError::EmergencyStop)
    ));
}

#[test]
fn high_risk_action_requires_two_distinct_operators() {
    let mut fixture = Fixture::new();
    let mut request = fixture.request();
    request.risk = RiskLevel::High;
    request.approvals = vec![Approval {
        operator_id: "alice".into(),
        approved_at_unix_ms: now_ms(),
    }];
    let mut retry = fixture.request();
    retry.risk = RiskLevel::High;
    retry.approvals = vec![Approval {
        operator_id: "alice".into(),
        approved_at_unix_ms: now_ms(),
    }];
    assert!(fixture.issue(request).is_err());
    retry.approvals.push(Approval {
        operator_id: "bob".into(),
        approved_at_unix_ms: now_ms(),
    });
    assert!(fixture.issue(retry).is_ok());
}

#[test]
fn revoked_robot_cannot_receive_tokens() {
    let mut fixture = Fixture::new();
    fixture.coordinator.revoke("robot-1").unwrap();
    let request = fixture.request();
    assert!(fixture.issue(request).is_err());
}

#[test]
fn enrollment_binds_subject_and_blocks_replacement() {
    let mut fixture = Fixture::new();
    let wrong_subject = HybridIdentity::generate("another-robot");
    assert!(fixture
        .coordinator
        .enroll(RobotRegistration {
            robot_id: "robot-2".into(),
            display_name: "Wrong Subject".into(),
            identity: wrong_subject.public.clone(),
        })
        .is_err());
    let replacement = HybridIdentity::generate("robot-1");
    assert!(fixture
        .coordinator
        .enroll(RobotRegistration {
            robot_id: "robot-1".into(),
            display_name: "Replacement".into(),
            identity: replacement.public.clone(),
        })
        .is_err());
}

#[test]
fn issuer_claim_must_match_the_pinned_coordinator() {
    let mut fixture = Fixture::new();
    let request = fixture.request();
    let mut token = fixture.issue(request).unwrap();
    token.claims.issuer_key_id = HybridIdentity::generate("attacker").public.key_id.clone();
    token.signature = fixture
        .coordinator
        .identity
        .sign(&encode_claims(&token.claims))
        .unwrap();
    let runtime = fixture.runtime();
    assert!(matches!(
        verify(&runtime, &token, &fixture.context),
        Err(ExecutionError::InvalidSignature(_))
    ));
}

#[test]
fn expired_and_over_limit_tokens_are_rejected() {
    let mut fixture = Fixture::new();
    let request = fixture.request();
    let mut expired = fixture.issue(request).unwrap();
    expired.claims.expires_at_unix_ms = now_ms() - 1;
    expired.signature = fixture
        .coordinator
        .identity
        .sign(&encode_claims(&expired.claims))
        .unwrap();
    let runtime = fixture.runtime();
    assert!(matches!(
        verify(&runtime, &expired, &fixture.context),
        Err(ExecutionError::Expired)
    ));

    let mut policy_fixture = Fixture::new();
    let mut request = policy_fixture.request();
    request.action.requested_speed_mps = Some(bits(2.0));
    let over_limit = policy_fixture.issue(request).unwrap();
    let runtime = policy_fixture.runtime();
    assert!(matches!(
        verify(&runtime, &over_limit, &policy_fixture.context),
        Err(ExecutionError::Policy(_))
    ));
}

#[test]
fn status_reports_persisted_last_activity() {
    let mut fixture = Fixture::new();
    let request = fixture.request();
    fixture.issue(request).unwrap();
    assert_eq!(
        fixture.coordinator.last_activity().as_ref().unwrap().kind,
        "token.issued"
    );

    let request = fixture.request();
    let token = fixture.issue(request).unwrap();
    let mut runtime = fixture.runtime();
    assert!(execute(&mut runtime, &token, &fixture.context).is_err());
    assert_eq!(
        runtime.last_activity().as_ref().unwrap().kind,
        "execution.rejected"
    );
}

#[test]
fn issuer_mismatch_is_reported_before_the_signature_check() {
    let mut fixture = Fixture::new();
    let request = fixture.request();
    let mut token = fixture.issue(request).unwrap();
    token.claims.issuer_key_id = "sha256:other".into();
    let runtime = fixture.runtime();
    assert!(matches!(
        verify(&runtime, &token, &fixture.context),
        Err(ExecutionError::InvalidSignature(SignatureFault::UntrustedIssuer))
    ));
}

#[test]
fn unknown_skill_is_denied_after_the_start_is_recorded() {
    let mut fixture = Fixture::new();
    let mut request = fixture.request();
    request.action.skill = "dance".into();
    request.constraints.allowed_skills = vec![];
    let token = fixture.issue(request).unwrap();
    let mut runtime = fixture.runtime();
    match execute(&mut runtime, &token, &fixture.context) {
        Err(ExecutionError::Policy(PolicyDenial::UnknownSkill(skill))) => assert_eq!(skill, "dance"),
        other => panic!("unexpected {other:?}"),
    }
    assert_eq!(runtime.next_sequence(), 0);
    let events = runtime.take_pending_events();
    assert_eq!(events.len(), 1);
    assert_eq!(events[0].kind, "execution.started");
}

#[test]
fn completion_event_carries_the_receipt() {
    let mut fixture = Fixture::new();
    let request = fixture.request();
    let token = fixture.issue(request).unwrap();
    assert_eq!(token.claims.token_id.len(), 36);
    assert_eq!(token.claims.token_id.matches('-').count(), 4);
    let mut runtime = fixture.runtime();
    let receipt = execute(&mut runtime, &token, &fixture.context).unwrap();
    assert_eq!(receipt.detail, "simulated move completed");
    let events = runtime.take_pending_events();
    let kinds: Vec<&str> = events.iter().map(|e| e.kind.as_str()).collect();
    assert_eq!(kinds, vec!["execution.started", "execution.completed"]);
    let detail = &events[1].detail;
    assert_eq!(detail["completed_at_unix_ms"], receipt.completed_at_unix_ms);
    assert_eq!(detail["status"], "completed");
    assert_eq!(detail["sequence"], 0);
    assert_eq!(detail["token_id"], token.claims.token_id.as_str());
    assert_eq!(events[0].detail["skill"], "move");
    assert_eq!(runtime.next_sequence(), 1);
    let state = runtime.state();
    assert_eq!(state.consumed_tokens, vec![token.claims.token_id.clone()]);
    assert_eq!(runtime.last_activity().as_ref().unwrap().kind, "execution.completed");
}

#[test]
fn runtime_state_survives_a_restart() {
    let mut fixture = Fixture::new();
    let request = fixture.request();
    let token = fixture.issue(request).unwrap();
    let mut runtime = fixture.runtime();
    execute(&mut runtime, &token, &fixture.context).unwrap();
    runtime.set_emergency_stop(true);
    let state = runtime.state();
    let resumed = RobotRuntime::open(
        "robot-1".into(),
        fixture.robot_identity.clone(),
        fixture.coordinator.identity.public.clone(),
        state,
    )
    .unwrap();
    assert!(resumed.emergency_stop());
    assert_eq!(resumed.next_sequence(), 1);
    let mut cleared = resumed;
    cleared.set_emergency_stop(false);
    assert!(matches!(
        execute(&mut cleared, &token, &fixture.context),
        Err(ExecutionError::Replay)
    ));
}
