use spacl::api::ApiError;
use spacl::coordinator::{Coordinator, CoordinatorError};
use spacl::crypto::HybridIdentity;
use spacl::model::{
    ActionTokenClaims, ExecutionContext, PolicyConstraints, RiskLevel, RobotAction,
    RobotRegistration, TokenRequest,
};
use spacl::runtime::context_hash;

fn encode(c: &ActionTokenClaims) -> Vec<u8> {
    format!("{}|{}|{}|{}", c.token_id, c.robot_id, c.sequence, c.context_hash).into_bytes()
}

fn enroll(coordinator: &mut Coordinator, robot_id: &str) -> HybridIdentity {
    let identity = HybridIdentity::generate(robot_id);
    coordinator
        .enroll(RobotRegistration {
            robot_id: robot_id.into(),
            display_name: format!("Robot {robot_id}"),
            identity: identity.public.clone(),
        })
        .unwrap();
    identity
}

fn request(robot_id: &str, task_id: &str) -> TokenRequest {
    TokenRequest {
        robot_id: robot_id.into(),
        action: RobotAction {
            skill: "move".into(),
            arguments: vec![],
            requested_speed_mps: None,
            requested_force_newtons: None,
        },
        context: ExecutionContext {
            task_id: task_id.into(),
            zone: "safe-zone".into(),
            state_hash: "world-1".into(),
        },
        ttl_seconds: 30,
        constraints: PolicyConstraints::default(),
        risk: RiskLevel::Normal,
        approvals: vec![],
    }
}

#[test]
fn a_task_belongs_to_the_first_robot_that_receives_a_token_for_it() {
    let mut coordinator = Coordinator::new(HybridIdentity::generate("coordinator"));
    enroll(&mut coordinator, "robot-1");
    enroll(&mut coordinator, "robot-2");
    assert_eq!(coordinator.task_owner("task-1"), None);
    coordinator.issue_token(request("robot-1", "task-1"), &encode).unwrap();
    assert_eq!(coordinator.task_owner("task-1").as_deref(), Some("robot-1"));

    match coordinator.issue_token(request("robot-2", "task-1"), &encode) {
        Err(CoordinatorError::TaskAssigned { task_id, owner }) => {
            assert_eq!(task_id, "task-1");
            assert_eq!(owner, "robot-1");
        }
        other => panic!("unexpected {other:?}"),
    }
    // The owner keeps receiving tokens for its task.
    coordinator.issue_token(request("robot-1", "task-1"), &encode).unwrap();
    assert_eq!(coordinator.task_owner("task-1").as_deref(), Some("robot-1"));
}

#[test]
fn issuance_records_the_assignment_and_the_token() {
    let mut coordinator = Coordinator::new(HybridIdentity::generate("coordinator"));
    enroll(&mut coordinator, "robot-1");
    let enrolled = coordinator.take_pending_events();
    assert_eq!(enrolled.len(), 1);
    assert_eq!(enrolled[0].kind, "robot.enrolled");
    assert_eq!(enrolled[0].subject, "robot-1");

    let token = coordinator
        .issue_token_at(request("robot-1", "task-9"), "token-a".into(), 1_000, &encode)
        .unwrap();
    assert_eq!(token.schema, "spacl.action-token.v1");
    assert_eq!(token.claims.token_id, "token-a");
    assert_eq!(token.claims.sequence, 0);
    assert_eq!(token.claims.issued_at_unix_ms, 1_000);
    assert_eq!(token.claims.expires_at_unix_ms, 31_000);
    assert_eq!(token.claims.issuer_key_id, coordinator.identity.public.key_id);
    assert_eq!(token.claims.context_hash, context_hash(&request("robot-1", "task-9").context));
    assert_eq!(
        coordinator.identity.public.verify(&encode(&token.claims), &token.signature),
        Ok(())
    );
    let events = coordinator.take_pending_events();
    let kinds: Vec<&str> = events.iter().map(|e| e.kind.as_str()).collect();
    assert_eq!(kinds, vec!["task.assigned", "token.issued"]);
    assert_eq!(events[0].subject, "task-9");
    assert_eq!(events[0].detail["robot_id"], "robot-1");
    assert_eq!(events[1].subject, "token-a");
    assert_eq!(events[1].detail["sequence"], 0);
    assert_eq!(events[1].detail["risk"], "normal");
    let activity = coordinator.last_activity().as_ref().unwrap();
    assert_eq!(activity.kind, "token.issued");
    assert_eq!(activity.subject, "token-a");
    assert_eq!(activity.at_unix_ms, 1_000);

    let second = coordinator
        .issue_token_at(request("robot-1", "task-9"), "token-b".into(), 2_000, &encode)
        .unwrap();
    assert_eq!(second.claims.sequence, 1);
    assert_eq!(coordinator.take_pending_events().len(), 1);
}

#[test]
fn invalid_ttls_and_unknown_robots_are_refused() {
    let mut coordinator = Coordinator::new(HybridIdentity::generate("coordinator"));
    enroll(&mut coordinator, "robot-1");
    let mut zero = request("robot-1", "task-1");
    zero.ttl_seconds = 0;
    assert!(matches!(coordinator.issue_token(zero, &encode), Err(CoordinatorError::InvalidTtl)));
    let mut long = request("robot-1", "task-1");
    long.ttl_seconds = 301;
    assert!(matches!(coordinator.issue_token(long, &encode), Err(CoordinatorError::InvalidTtl)));
    let mut longest = request("robot-1", "task-1");
    longest.ttl_seconds = 300;
    assert!(coordinator.issue_token(longest, &encode).is_ok());
    match coordinator.issue_token(request("ghost", "task-2"), &encode) {
        Err(CoordinatorError::UnknownRobot(id)) => assert_eq!(id, "ghost"),
        other => panic!("unexpected {other:?}"),
    }
    assert!(matches!(coordinator.revoke("ghost"), Err(CoordinatorError::UnknownRobot(_))));
}

#[test]
fn revocation_marks_the_record_and_is_audited() {
    let mut coordinator = Coordinator::new(HybridIdentity::generate("coordinator"));
    enroll(&mut coordinator, "robot-1");
    coordinator.take_pending_events();
    coordinator.revoke("robot-1").unwrap();
    let robots = coordinator.robots();
    assert_eq!(robots.len(), 1);
    assert!(robots[0].revoked);
    let events = coordinator.take_pending_events();
    assert_eq!(events.len(), 1);
    assert_eq!(events[0].kind, "robot.revoked");
    assert_eq!(events[0].actor, "operator");
    match coordinator.issue_token(request("robot-1", "task-1"), &encode) {
        Err(e @ CoordinatorError::RevokedRobot(_)) => {
            assert_eq!(e.message(), "robot identity is revoked: robot-1");
            let api = ApiError::from_coordinator_error(&e);
            assert_eq!(api.status, 403);
            assert_eq!(api.body.code, "IDENTITY_REVOKED");
        }
        other => panic!("unexpected {other:?}"),
    }
}

#[test]
fn robots_are_listed_in_id_order() {
    let mut coordinator = Coordinator::new(HybridIdentity::generate("coordinator"));
    for id in ["robot-c", "robot-a", "robot-b"] {
        enroll(&mut coordinator, id);
    }
    let ids: Vec<String> = coordinator.robots().into_iter().map(|r| r.robot_id).collect();
    assert_eq!(ids, vec!["robot-a", "robot-b", "robot-c"]);
    assert_eq!(coordinator.robot_count(), 3);
}

#[test]
fn state_round_trips_through_restore() {
    let identity = HybridIdentity::generate("coordinator");
    let mut coordinator = Coordinator::new(identity.clone());
    enroll(&mut coordinator, "robot-2");
    enroll(&mut coordinator, "robot-1");
    coordinator.issue_token(request("robot-1", "task-b"), &encode).unwrap();
    coordinator.issue_token(request("robot-2", "task-a"), &encode).unwrap();
    coordinator.issue_token(request("robot-1", "task-b"), &encode).unwrap();
    let state = coordinator.state();
    let robot_ids: Vec<&str> = state.robots.iter().map(|(k, _)| k.as_str()).collect();
    assert_eq!(robot_ids, vec!["robot-1", "robot-2"]);
    let task_ids: Vec<(&str, &str)> = state
        .tasks
        .iter()
        .map(|(k, v)| (k.as_str(), v.robot_id.as_str()))
        .collect();
    assert_eq!(task_ids, vec![("task-a", "robot-2"), ("task-b", "robot-1")]);
    assert_eq!(state.robots[0].1.next_sequence, 2);

    let mut restored = Coordinator::restore(identity, state);
    assert_eq!(restored.robot_count(), 2);
    assert_eq!(restored.task_owner("task-b").as_deref(), Some("robot-1"));
    assert_eq!(restored.last_activity().as_ref().unwrap().kind, "token.issued");
    assert!(restored.take_pending_events().is_empty());
    let next = restored.issue_token(request("robot-1", "task-b"), &encode).unwrap();
    assert_eq!(next.claims.sequence, 2);
    assert!(matches!(
        restored.issue_token(request("robot-1", "task-a"), &encode),
        Err(CoordinatorError::TaskAssigned { .. })
    ));
}

#[test]
fn issued_token_ids_are_version_four_uuids() {
    let mut coordinator = Coordinator::new(HybridIdentity::generate("coordinator"));
    enroll(&mut coordinator, "robot-1");
    let token = coordinator.issue_token(request("robot-1", "task-1"), &encode).unwrap();
    let id = token.claims.token_id.as_bytes();
    assert_eq!(id.len(), 36);
    for (i, b) in id.iter().enumerate() {
        if [8, 13, 18, 23].contains(&i) {
            assert_eq!(*b, b'-');
        } else {
            assert!(b.is_ascii_digit() || (b'a'..=b'f').contains(b));
        }
    }
    assert_eq!(id[14], b'4');
    assert!(b"89ab".contains(&id[19]));
}
