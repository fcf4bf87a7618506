use serde_json::Value;
use spacl::audit::{AuditError, AuditEvent, AuditFault, AuditLog, AuditRecord};
use spacl::crypto::{HybridIdentity, PublicIdentity};

fn detail(value: i64) -> Value {
    let mut map = serde_json::Map::new();
    map.insert("value".to_string(), Value::from(value));
    Value::Object(map)
}

fn event(value: i64) -> AuditEvent {
    AuditEvent {
        kind: "test".into(),
        actor: "tester".into(),
        subject: "item".into(),
        detail: detail(value),
    }
}

/// The canonical JSON bytes of a body, as the stored log holds them.
fn body_bytes(record_body: &spacl::audit::AuditBody) -> Vec<u8> {
    let mut event = serde_json::Map::new();
    event.insert("kind".into(), Value::from(record_body.event.kind.clone()));
    event.insert("actor".into(), Value::from(record_body.event.actor.clone()));
    event.insert("subject".into(), Value::from(record_body.event.subject.clone()));
    event.insert("detail".into(), record_body.event.detail.clone());
    let mut body = serde_json::Map::new();
    body.insert("index".into(), Value::from(record_body.index));
    body.insert("timestamp_unix_ms".into(), Value::from(record_body.timestamp_unix_ms));
    body.insert("previous_hash".into(), Value::from(record_body.previous_hash.clone()));
    body.insert("signer_key_id".into(), Value::from(record_body.signer_key_id.clone()));
    body.insert("event".into(), Value::Object(event));
    serde_json::to_vec(&Value::Object(body)).unwrap()
}

fn append(log: &mut AuditLog, value: i64, signer: &HybridIdentity, at: i64) -> (AuditRecord, Vec<u8>) {
    let body = log.next_body(event(value), signer, at).unwrap();
    let bytes = body_bytes(&body);
    let record = AuditLog::seal(body, &bytes, signer).unwrap();
    log.commit(&record);
    (record, bytes)
}

fn trusted(identity: &HybridIdentity) -> Vec<PublicIdentity> {
    vec![identity.public.clone()]
}

#[test]
fn audit_chain_detects_tampering() {
    let identity = HybridIdentity::generate("auditor");
    let mut log = AuditLog::open("audit.jsonl".into(), &vec![]);
    let (record, bytes) = append(&mut log, 1, &identity, 1_700_000_000_000);
    let records = vec![record];
    let bodies = vec![bytes];
    assert!(AuditLog::verify(&records, &bodies, &trusted(&identity)).is_ok());
    assert_eq!(records.len(), 1);

    let mut tampered = records;
    tampered[0].body.event.detail = detail(2);
    let tampered_bytes = vec![body_bytes(&tampered[0].body)];
    let text = String::from_utf8(tampered_bytes[0].clone()).unwrap();
    assert!(text.contains("\"value\":2"));
    assert!(AuditLog::verify(&tampered, &tampered_bytes, &trusted(&identity)).is_err());
}

#[test]
fn a_chain_of_three_links_each_record_to_the_previous_hash() {
    let identity = HybridIdentity::generate("auditor");
    let mut log = AuditLog::open("audit.jsonl".into(), &vec![]);
    let mut records = Vec::new();
    let mut bodies = Vec::new();
    for value in 0..3 {
        let (record, bytes) = append(&mut log, value, &identity, 1_700_000_000_000 + value);
        records.push(record);
        bodies.push(bytes);
    }
    assert_eq!(records[0].body.previous_hash, "GENESIS");
    assert_eq!(records[1].body.previous_hash, records[0].record_hash);
    assert_eq!(records[2].body.previous_hash, records[1].record_hash);
    for (i, record) in records.iter().enumerate() {
        assert_eq!(record.body.index, i as u64);
        assert_eq!(record.schema, "spacl.audit.v1");
        assert!(record.record_hash.starts_with("sha256:"));
        assert_eq!(record.record_hash.len(), 71);
    }
    assert_eq!(AuditLog::verify(&records, &bodies, &trusted(&identity)), Ok(()));

    // A log reopened after the stored records continues the chain.
    let reopened = AuditLog::open_verified("audit.jsonl".into(), Some((records, bodies)), &trusted(&identity))
        .unwrap();
    let next = reopened.next_body(event(9), &identity, 0).unwrap();
    assert_eq!(next.index, 3);
}

#[test]
fn reordered_records_fail_on_the_index() {
    let identity = HybridIdentity::generate("auditor");
    let mut log = AuditLog::open("audit.jsonl".into(), &vec![]);
    let (first, first_bytes) = append(&mut log, 1, &identity, 1);
    let (second, second_bytes) = append(&mut log, 2, &identity, 2);
    let records = vec![second, first];
    let bodies = vec![second_bytes, first_bytes];
    let err = AuditLog::verify(&records, &bodies, &trusted(&identity)).unwrap_err();
    assert_eq!(err, AuditError { line: 1, fault: AuditFault::IndexMismatch });
    assert_eq!(err.message(), "audit index mismatch at line 1");
}

#[test]
fn a_broken_link_fails_on_the_chain() {
    let identity = HybridIdentity::generate("auditor");
    let mut log = AuditLog::open("audit.jsonl".into(), &vec![]);
    let (first, first_bytes) = append(&mut log, 1, &identity, 1);
    // A second chain whose first record is then put at position one.
    let mut other = AuditLog::open("other.jsonl".into(), &vec![]);
    let (_, _) = append(&mut other, 5, &identity, 1);
    let (stray, stray_bytes) = append(&mut other, 6, &identity, 2);
    let records = vec![first, stray];
    let bodies = vec![first_bytes, stray_bytes];
    let err = AuditLog::verify(&records, &bodies, &trusted(&identity)).unwrap_err();
    assert_eq!(err, AuditError { line: 2, fault: AuditFault::ChainMismatch });
    assert_eq!(err.message(), "audit chain mismatch at line 2");
}

#[test]
fn an_unknown_signer_is_untrusted() {
    let identity = HybridIdentity::generate("auditor");
    let stranger = HybridIdentity::generate("stranger");
    let mut log = AuditLog::open("audit.jsonl".into(), &vec![]);
    let (record, bytes) = append(&mut log, 1, &identity, 1);
    let err = AuditLog::verify(&vec![record], &vec![bytes], &trusted(&stranger)).unwrap_err();
    assert_eq!(err, AuditError { line: 1, fault: AuditFault::UntrustedSigner });
    assert_eq!(err.message(), "untrusted audit signer at line 1");
}

#[test]
fn a_forged_signature_fails_on_the_signature() {
    let identity = HybridIdentity::generate("auditor");
    let mut log = AuditLog::open("audit.jsonl".into(), &vec![]);
    let (mut record, bytes) = append(&mut log, 1, &identity, 1);
    record.signature = identity.sign(b"something else").unwrap();
    let err = AuditLog::verify(&vec![record], &vec![bytes], &trusted(&identity)).unwrap_err();
    assert_eq!(err.line, 1);
    assert!(matches!(err.fault, AuditFault::Signature(_)));
    assert_eq!(err.message(), "verify audit signature at line 1");
}

#[test]
fn an_empty_log_starts_at_genesis() {
    let identity = HybridIdentity::generate("auditor");
    let log = AuditLog::open_verified("audit.jsonl".into(), None, &trusted(&identity)).unwrap();
    let body = log.next_body(event(1), &identity, 7).unwrap();
    assert_eq!(body.index, 0);
    assert_eq!(body.previous_hash, "GENESIS");
    assert_eq!(body.signer_key_id, identity.public.key_id);
    assert_eq!(body.timestamp_unix_ms, 7);
    assert_eq!(log.path(), std::path::Path::new("audit.jsonl"));
}

#[test]
fn append_seals_and_commits_the_next_record() {
    let identity = HybridIdentity::generate("auditor");
    let mut log = AuditLog::open("audit.jsonl".into(), &vec![]);
    let first = log.append(event(1), &identity, 10, &body_bytes).unwrap();
    let second = log.append(event(2), &identity, 20, &body_bytes).unwrap();
    assert_eq!(first.body.index, 0);
    assert_eq!(first.body.previous_hash, "GENESIS");
    assert_eq!(second.body.index, 1);
    assert_eq!(second.body.previous_hash, first.record_hash);
    assert_eq!(second.body.timestamp_unix_ms, 20);
    assert_eq!(
        second.record_hash,
        spacl::crypto::sha256_hex(&body_bytes(&second.body))
    );
    let bodies = vec![body_bytes(&first.body), body_bytes(&second.body)];
    let records = vec![first, second];
    assert_eq!(AuditLog::verify(&records, &bodies, &trusted(&identity)), Ok(()));
    let next = log.next_body(event(3), &identity, 30).unwrap();
    assert_eq!(next.index, 2);
    assert_eq!(next.previous_hash, records[1].record_hash);
}

#[test]
fn append_with_broken_secrets_changes_nothing() {
    let identity = HybridIdentity::generate("auditor");
    let broken = HybridIdentity::from_parts(identity.public.clone(), "!!".into(), "".into());
    let mut log = AuditLog::open("audit.jsonl".into(), &vec![]);
    let err = log.append(event(1), &broken, 10, &body_bytes).unwrap_err();
    assert!(matches!(err, spacl::audit::AppendError::Signing(_)));
    assert_eq!(err.message(), "decode ML-DSA seed");
    let next = log.next_body(event(1), &identity, 10).unwrap();
    assert_eq!(next.index, 0);
}
