//! Signed hash-chain audit records: building, sealing and verifying a chain.
use vstd::prelude::*;

use crate::crypto::{
    HybridIdentity, IdentityError, PublicIdentity, SignatureBundle, identity_error_text, is_blank,
    sha256_hex, sha256_hex_of, verification_outcome, signing_outcome,
};
use crate::text::{append, decimal, decimal_string, owned, same_text};
use vstd::utf8::encode_utf8;

verus! {

/// `PathBuf`, held to say where a log is stored.
#[verifier::external_type_specification]
#[verifier::external_body]
pub struct ExPathBuf(std::path::PathBuf);

/// An append-only audit log: where it is stored, and the index and hash of its last record.
pub struct AuditLog {
    path: std::path::PathBuf,
    last_index: Option<u64>,
    last_hash: String,
}

/// One audited event.
#[derive(Debug)]
pub struct AuditEvent {
    pub kind: String,
    pub actor: String,
    pub subject: String,
    pub detail: serde_json::Value,
}

/// The hashed and signed part of an audit record.
#[derive(Debug)]
pub struct AuditBody {
    pub index: u64,
    pub timestamp_unix_ms: i64,
    pub previous_hash: String,
    pub signer_key_id: String,
    pub event: AuditEvent,
}

/// One record of an audit chain.
#[derive(Debug)]
pub struct AuditRecord {
    pub schema: String,
    pub body: AuditBody,
    pub record_hash: String,
    pub signature: SignatureBundle,
}

/// What is wrong with one record of a chain.
#[derive(Clone, Copy, Debug, PartialEq, Eq, Structural)]
pub enum AuditFault {
    /// The record's index is not its position in the chain.
    IndexMismatch,
    /// The record does not name the previous record's hash (or `GENESIS` first).
    ChainMismatch,
    /// The record hash is not the hash of the record body.
    HashMismatch,
    /// No trusted identity has the signer's key ID.
    UntrustedSigner,
    /// The signature does not verify against the signer's identity.
    Signature(IdentityError),
}

/// A chain verification failure: the first faulty record (lines count from 1) and its fault.
#[derive(Clone, Copy, Debug, PartialEq, Eq, Structural)]
pub struct AuditError {
    pub line: u64,
    pub fault: AuditFault,
}

/// The previous-hash value of the first record.
pub open spec fn genesis() -> Seq<char> {
    "GENESIS"@
}

/// The previous-hash value that the record at `position` must carry.
pub open spec fn expected_previous(records: Seq<AuditRecord>, position: int) -> Seq<char> {
    if position == 0 {
        genesis()
    } else {
        records[position - 1].record_hash@
    }
}

/// Whether some identity in `identities` has key ID `key_id`.
pub open spec fn has_identity(identities: Seq<PublicIdentity>, key_id: Seq<char>) -> bool {
    exists|i: int| 0 <= i < identities.len() && #[trigger] identities[i].key_id@ == key_id
}

/// The position of the last identity with key ID `key_id` (a map built from the list in order
/// keeps the last one).
pub open spec fn identity_position(identities: Seq<PublicIdentity>, key_id: Seq<char>) -> int {
    choose|i: int|
        0 <= i < identities.len() && #[trigger] identities[i].key_id@ == key_id && forall|j: int|
            i < j < identities.len() ==> identities[j].key_id@ != key_id
}

/// The fault of the record at `position`, checked in order: index, chain link, hash, signer, signature.
#[verifier::opaque]
pub open spec fn record_fault(
    record: AuditRecord,
    body: Seq<u8>,
    position: int,
    previous: Seq<char>,
    identities: Seq<PublicIdentity>,
) -> Option<AuditFault> {
    if record.body.index != position {
        Some(AuditFault::IndexMismatch)
    } else if record.body.previous_hash@ != previous {
        Some(AuditFault::ChainMismatch)
    } else if sha256_hex_of(body) != record.record_hash@ {
        Some(AuditFault::HashMismatch)
    } else if !has_identity(identities, record.body.signer_key_id@) {
        Some(AuditFault::UntrustedSigner)
    } else {
        match verification_outcome(
            identities[identity_position(identities, record.body.signer_key_id@)]@,
            encode_utf8(record.record_hash@),
            record.signature@,
        ) {
            Err(e) => Some(AuditFault::Signature(e)),
            Ok(()) => None,
        }
    }
}

/// The first faulty record of a chain, by position, with its fault; `None` when the chain verifies.
#[verifier::opaque]
pub open spec fn chain_fault(
    records: Seq<AuditRecord>,
    bodies: Seq<Seq<u8>>,
    identities: Seq<PublicIdentity>,
) -> Option<(int, AuditFault)>
    decreases records.len(),
{
    if records.len() == 0 {
        None
    } else {
        let last = records.len() - 1;
        match chain_fault(records.drop_last(), bodies.drop_last(), identities) {
            Some(f) => Some(f),
            None => match record_fault(
                records[last],
                bodies[last],
                last,
                expected_previous(records, last),
                identities,
            ) {
                Some(fault) => Some((last, fault)),
                None => None,
            },
        }
    }
}

/// A chain of records with their hashed body bytes verifies against `identities`.
pub open spec fn chain_verifies(
    records: Seq<AuditRecord>,
    bodies: Seq<Seq<u8>>,
    identities: Seq<PublicIdentity>,
) -> bool {
    chain_fault(records, bodies, identities) is None
}

/// The human-readable description of a fault, for the given line.
pub open spec fn audit_error_text(e: AuditError) -> Seq<char> {
    match e.fault {
        AuditFault::IndexMismatch => "audit index mismatch at line "@ + decimal(e.line as nat),
        AuditFault::ChainMismatch => "audit chain mismatch at line "@ + decimal(e.line as nat),
        AuditFault::HashMismatch => "audit record hash mismatch at line "@ + decimal(e.line as nat),
        AuditFault::UntrustedSigner => "untrusted audit signer at line "@ + decimal(e.line as nat),
        AuditFault::Signature(_) => "verify audit signature at line "@ + decimal(e.line as nat),
    }
}

impl AuditError {
    /// The human-readable description of the error.
    pub fn message(&self) -> (s: String)
        ensures
            s@ == audit_error_text(*self),
    {
        let mut s = match self.fault {
            AuditFault::IndexMismatch => owned("audit index mismatch at line "),
            AuditFault::ChainMismatch => owned("audit chain mismatch at line "),
            AuditFault::HashMismatch => owned("audit record hash mismatch at line "),
            AuditFault::UntrustedSigner => owned("untrusted audit signer at line "),
            AuditFault::Signature(_) => owned("verify audit signature at line "),
        };
        let line = decimal_string(self.line);
        append(&mut s, line.as_str());
        s
    }
}

/// Finds the last identity with key ID `key_id`.
fn find_identity(identities: &Vec<PublicIdentity>, key_id: &str) -> (r: Option<usize>)
    ensures
        match r {
            Some(i) => has_identity(identities@, key_id@) && i == identity_position(identities@, key_id@)
                && i < identities@.len(),
            None => !has_identity(identities@, key_id@),
        },
{
    let mut i = identities.len();
    while i > 0
        invariant
            i <= identities@.len(),
            forall|j: int| i <= j < identities@.len() ==> (#[trigger] identities@[j]).key_id@ != key_id@,
        decreases i,
    {
        i = i - 1;
        if same_text(identities[i].key_id.as_str(), key_id) {
            proof {
                let ids = identities@;
                let k = key_id@;
                assert(ids[i as int].key_id@ == k);
                assert(has_identity(ids, k));
                assert(0 <= i < ids.len() && ids[i as int].key_id@ == k && forall|j: int|
                    i < j < ids.len() ==> ids[j].key_id@ != k);
                let p = identity_position(ids, k);
                assert(0 <= p < ids.len() && ids[p].key_id@ == k && forall|j: int|
                    p < j < ids.len() ==> ids[j].key_id@ != k);
                if p < i {
                    assert(ids[i as int].key_id@ != k);
                } else if p > i {
                    assert(ids[p].key_id@ != k);
                }
            }
            return Some(i);
        }
    }
    None
}

proof fn lemma_chain_fault_step(
    records: Seq<AuditRecord>,
    bodies: Seq<Seq<u8>>,
    identities: Seq<PublicIdentity>,
    i: int,
)
    requires
        0 <= i < records.len(),
        records.len() == bodies.len(),
        chain_fault(records.take(i), bodies.take(i), identities) is None,
    ensures
        chain_fault(records.take(i + 1), bodies.take(i + 1), identities) == (match record_fault(
            records[i],
            bodies[i],
            i,
            expected_previous(records, i),
            identities,
        ) {
            Some(fault) => Some((i, fault)),
            None => None,
        }),
{
    reveal(chain_fault);
    let rs = records.take(i + 1);
    let bs = bodies.take(i + 1);
    assert(rs.drop_last() =~= records.take(i));
    assert(bs.drop_last() =~= bodies.take(i));
    assert(rs[i] == records[i]);
    assert(bs[i] == bodies[i]);
    assert(expected_previous(rs, i) == expected_previous(records, i));
}

proof fn lemma_fault_extends(
    records: Seq<AuditRecord>,
    bodies: Seq<Seq<u8>>,
    identities: Seq<PublicIdentity>,
    k: int,
)
    requires
        0 <= k <= records.len(),
        records.len() == bodies.len(),
        chain_fault(records.take(k), bodies.take(k), identities) is Some,
    ensures
        chain_fault(records, bodies, identities) == chain_fault(records.take(k), bodies.take(k), identities),
    decreases records.len() - k,
{
    if k == records.len() {
        assert(records.take(k) =~= records);
        assert(bodies.take(k) =~= bodies);
    } else {
        let rs = records.drop_last();
        let bs = bodies.drop_last();
        assert(rs.take(k) =~= records.take(k));
        assert(bs.take(k) =~= bodies.take(k));
        lemma_fault_extends(rs, bs, identities, k);
        reveal(chain_fault);
    }
}

/// Checks one record at `position`, whose predecessor's hash is `previous`.
fn check_record(
    record: &AuditRecord,
    body: &Vec<u8>,
    position: u64,
    previous: &String,
    identities: &Vec<PublicIdentity>,
) -> (r: Option<AuditFault>)
    ensures
        r == record_fault(*record, body@, position as int, previous@, identities@),
{
    reveal(record_fault);
    if record.body.index != position {
        return Some(AuditFault::IndexMismatch);
    }
    if !same_text(record.body.previous_hash.as_str(), previous.as_str()) {
        return Some(AuditFault::ChainMismatch);
    }
    let computed = sha256_hex(body.as_slice());
    if !same_text(computed.as_str(), record.record_hash.as_str()) {
        return Some(AuditFault::HashMismatch);
    }
    let position = match find_identity(identities, record.body.signer_key_id.as_str()) {
        Some(p) => p,
        None => {
            return Some(AuditFault::UntrustedSigner);
        },
    };
    match identities[position].verify(record.record_hash.as_str().as_bytes(), &record.signature) {
        Ok(()) => None,
        Err(e) => Some(AuditFault::Signature(e)),
    }
}

impl AuditLog {
    /// Verifies a chain: each record carries its position as index, the previous record's hash
    /// (`GENESIS` first), the hash of its body bytes, a signer key ID that a trusted identity
    /// has, and a hybrid signature of its record hash by that identity. `bodies` holds the
    /// canonical JSON bytes of each record body.
    pub fn verify(
        records: &Vec<AuditRecord>,
        bodies: &Vec<Vec<u8>>,
        identities: &Vec<PublicIdentity>,
    ) -> (r: Result<(), AuditError>)
        requires
            bodies@.len() == records@.len(),
        ensures
            match r {
                Ok(()) => chain_verifies(records@, byte_views(bodies@), identities@),
                Err(e) => chain_fault(records@, byte_views(bodies@), identities@)
                    == Some((e.line - 1, e.fault)),
            },
            r is Ok <==> forall|i: int|
                0 <= i < records@.len() ==> #[trigger] record_passes(
                    records@,
                    byte_views(bodies@),
                    identities@,
                    i,
                ),
    {
        let ghost body_views = byte_views(bodies@);
        proof {
            lemma_chain_verifies_iff(records@, body_views, identities@);
        }
        let n = records.len();
        let mut previous = owned("GENESIS");
        proof {
            reveal(chain_fault);
        }
        for i in 0..n
            invariant
                n == records@.len(),
                n == bodies@.len(),
                body_views == byte_views(bodies@),
                previous@ == expected_previous(records@, i as int),
                chain_fault(records@.take(i as int), body_views.take(i as int), identities@) is None,
        {
            let record = &records[i];
            proof {
                lemma_chain_fault_step(records@, body_views, identities@, i as int);
                assert(body_views[i as int] == bodies@[i as int]@);
            }
            let line: u64 = i as u64 + 1;
            match check_record(record, &bodies[i], i as u64, &previous, identities) {
                Some(fault) => {
                    proof {
                        lemma_fault_extends(records@, body_views, identities@, i + 1);
                        lemma_chain_verifies_iff(records@, body_views, identities@);
                    }
                    return Err(AuditError { line, fault });
                },
                None => {},
            }
            previous = record.record_hash.clone();
        }
        proof {
            reveal(chain_fault);
            assert(records@.take(n as int) =~= records@);
            assert(body_views.take(n as int) =~= body_views);
        }
        Ok(())
    }
}

impl AuditLog {
    /// The index of the last record, if any.
    pub closed spec fn last_index_view(&self) -> Option<u64> {
        self.last_index
    }

    /// The hash of the last record, or `GENESIS` for an empty log.
    pub closed spec fn last_hash_view(&self) -> Seq<char> {
        self.last_hash@
    }

    /// The path the log is stored at.
    pub closed spec fn path_view(&self) -> std::path::PathBuf {
        self.path
    }

    /// Whether this log's head is the last record of `records`.
    pub open spec fn tracks(&self, records: Seq<AuditRecord>) -> bool {
        if records.len() == 0 {
            self.last_index_view() is None && self.last_hash_view() == genesis()
        } else {
            self.last_index_view() == Some(records.last().body.index) && self.last_hash_view()
                == records.last().record_hash@
        }
    }

    /// A log stored at `path` that continues after `existing`, the records already stored there.
    pub fn open(path: std::path::PathBuf, existing: &Vec<AuditRecord>) -> (log: Self)
        ensures
            log.tracks(existing@),
            log.path_view() == path,
    {
        let n = existing.len();
        if n == 0 {
            AuditLog { path, last_index: None, last_hash: owned("GENESIS") }
        } else {
            let last = &existing[n - 1];
            AuditLog {
                path,
                last_index: Some(last.body.index),
                last_hash: last.record_hash.clone(),
            }
        }
    }

    /// Verifies the stored records, if there are any, against `identities`, then opens the log
    /// after them. `existing` holds the stored records with the canonical JSON bytes of their bodies.
    pub fn open_verified(
        path: std::path::PathBuf,
        existing: Option<(Vec<AuditRecord>, Vec<Vec<u8>>)>,
        identities: &Vec<PublicIdentity>,
    ) -> (r: Result<Self, AuditError>)
        requires
            existing matches Some(stored) ==> stored.1@.len() == stored.0@.len(),
        ensures
            match existing {
                None => r matches Ok(log) && log.tracks(Seq::empty()) && log.path_view() == path,
                Some(stored) => match r {
                    Ok(log) => chain_verifies(
                        stored.0@,
                        byte_views(stored.1@),
                        identities@,
                    ) && log.tracks(stored.0@) && log.path_view() == path,
                    Err(e) => chain_fault(
                        stored.0@,
                        byte_views(stored.1@),
                        identities@,
                    ) == Some((e.line - 1, e.fault)),
                },
            },
    {
        match existing {
            None => {
                let empty: Vec<AuditRecord> = Vec::new();
                Ok(AuditLog::open(path, &empty))
            },
            Some((records, bodies)) => {
                AuditLog::verify(&records, &bodies, identities)?;
                Ok(AuditLog::open(path, &records))
            },
        }
    }

    /// The path the log is stored at.
    pub fn path(&self) -> (p: &std::path::PathBuf)
        ensures
            *p == self.path_view(),
    {
        &self.path
    }

    /// The body of the next record for `event`, signed by `signer` at `timestamp_unix_ms`: it
    /// follows the last record's index and names its hash. `None` once indices are exhausted.
    pub fn next_body(&self, event: AuditEvent, signer: &HybridIdentity, timestamp_unix_ms: i64) -> (r:
        Option<AuditBody>)
        ensures
            match r {
                Some(body) => {
                    &&& body.index == (match self.last_index_view() {
                        None => 0,
                        Some(i) => i + 1,
                    })
                    &&& body.previous_hash@ == self.last_hash_view()
                    &&& body.signer_key_id@ == signer.public.key_id@
                    &&& body.timestamp_unix_ms == timestamp_unix_ms
                    &&& body.event == event
                },
                None => self.last_index_view() == Some(u64::MAX),
            },
    {
        let index = match self.last_index {
            None => 0,
            Some(i) => {
                if i == u64::MAX {
                    return None;
                }
                i + 1
            },
        };
        Some(
            AuditBody {
                index,
                timestamp_unix_ms,
                previous_hash: self.last_hash.clone(),
                signer_key_id: signer.public.key_id.clone(),
                event,
            },
        )
    }

    /// Seals a body into a record: its hash is the SHA-256 hex of `body_json`, the canonical JSON
    /// bytes of the body, and the signer signs that hash. Where the signer's secrets derive its
    /// public half, the signature verifies against that public half.
    pub fn seal(body: AuditBody, body_json: &[u8], signer: &HybridIdentity) -> (r: Result<
        AuditRecord,
        IdentityError,
    >)
        ensures
            match r {
                Ok(record) => {
                    &&& record.schema@ == "spacl.audit.v1"@
                    &&& record.body == body
                    &&& record.record_hash@ == sha256_hex_of(body_json@)
                    &&& signing_outcome(
                        signer.public@,
                        signer.ml_dsa_seed_text(),
                        signer.ed25519_secret_text(),
                        encode_utf8(record.record_hash@),
                    ) == Ok::<crate::crypto::SignatureBundleView, IdentityError>(record.signature@)
                    &&& (signer.keys_match() && !is_blank(signer.public.subject@))
                        ==> verification_outcome(
                        signer.public@,
                        encode_utf8(record.record_hash@),
                        record.signature@,
                    ) is Ok
                },
                Err(e) => signing_outcome(
                    signer.public@,
                    signer.ml_dsa_seed_text(),
                    signer.ed25519_secret_text(),
                    encode_utf8(sha256_hex_of(body_json@)),
                ) == Err::<crate::crypto::SignatureBundleView, IdentityError>(e),
            },
    {
        let record_hash = sha256_hex(body_json);
        let signature = signer.sign(record_hash.as_str().as_bytes())?;
        Ok(AuditRecord { schema: owned("spacl.audit.v1"), body, record_hash, signature })
    }

    /// Makes `record`, now stored, the last record of the log.
    pub fn commit(&mut self, record: &AuditRecord)
        ensures
            final(self).last_index_view() == Some(record.body.index),
            final(self).last_hash_view() == record.record_hash@,
            final(self).path_view() == old(self).path_view(),
    {
        self.last_index = Some(record.body.index);
        self.last_hash = record.record_hash.clone();
    }

    /// Appends a record for `event`, signed by `signer` at `timestamp_unix_ms`: the body follows
    /// the last record (next index, its hash, the signer's key ID), `encode_body` gives the
    /// canonical bytes that the record hash covers, the signer signs that hash, and the record
    /// becomes the last one. Nothing changes where indices are exhausted or signing fails.
    pub fn append<F: Fn(&AuditBody) -> Vec<u8>>(
        &mut self,
        event: AuditEvent,
        signer: &HybridIdentity,
        timestamp_unix_ms: i64,
        encode_body: &F,
    ) -> (r: Result<AuditRecord, AppendError>)
        requires
            forall|b: &AuditBody| #[trigger] encode_body.requires((b,)),
        ensures
            match r {
                Ok(record) => appended(*old(self), *final(self), event, signer, timestamp_unix_ms, *encode_body, record),
                Err(AppendError::IndicesExhausted) => old(self).last_index_view() == Some(u64::MAX)
                    && *final(self) == *old(self),
                Err(AppendError::Signing(e)) => *final(self) == *old(self) && old(self).last_index_view()
                    != Some(u64::MAX) && exists|body: AuditBody, bytes: Vec<u8>|
                    body_follows(*old(self), event, signer, timestamp_unix_ms, body) && call_ensures(
                        encode_body,
                        (&body,),
                        bytes,
                    ) && signing_outcome(
                        signer.public@,
                        signer.ml_dsa_seed_text(),
                        signer.ed25519_secret_text(),
                        encode_utf8(sha256_hex_of(bytes@)),
                    ) == Err::<crate::crypto::SignatureBundleView, IdentityError>(e),
            },
    {
        let body = match self.next_body(event, signer, timestamp_unix_ms) {
            Some(body) => body,
            None => {
                return Err(AppendError::IndicesExhausted);
            },
        };
        let bytes = encode_body(&body);
        let record = match AuditLog::seal(body, bytes.as_slice(), signer) {
            Ok(record) => record,
            Err(e) => {
                return Err(AppendError::Signing(e));
            },
        };
        self.commit(&record);
        Ok(record)
    }
}

/// Why an append was refused.
#[derive(Clone, Copy, Debug, PartialEq, Eq, Structural)]
pub enum AppendError {
    /// The last record has the largest index.
    IndicesExhausted,
    /// Signing the record hash failed.
    Signing(IdentityError),
}

impl AppendError {
    /// The human-readable description of the error.
    pub fn message(&self) -> (s: String)
        ensures
            s@ == match *self {
                AppendError::IndicesExhausted => "audit record indices are exhausted"@,
                AppendError::Signing(e) => identity_error_text(e),
            },
    {
        match self {
            AppendError::IndicesExhausted => owned("audit record indices are exhausted"),
            AppendError::Signing(e) => e.message(),
        }
    }
}

/// Whether `body` is the body of the next record of `log` for `event`, signed by `signer` at
/// `timestamp_unix_ms`: the next index, the last record's hash, the signer's key ID.
pub open spec fn body_follows(
    log: AuditLog,
    event: AuditEvent,
    signer: &HybridIdentity,
    timestamp_unix_ms: i64,
    body: AuditBody,
) -> bool {
    &&& body.index == (match log.last_index_view() {
        None => 0,
        Some(i) => i + 1,
    })
    &&& body.previous_hash@ == log.last_hash_view()
    &&& body.signer_key_id@ == signer.public.key_id@
    &&& body.timestamp_unix_ms == timestamp_unix_ms
    &&& body.event == event
}

/// What appending `record` for `event` did: the body follows the log's last record (the next
/// index, its hash), names the signer's key ID, the time and the event; the record hash is the
/// SHA-256 hex of the bytes the encoder gives for the body; the signature is the signer's
/// signature of the record hash (and verifies against the signer's public half where its secrets
/// derive it); the record is the log's last record now, at the same path.
pub open spec fn appended<F: Fn(&AuditBody) -> Vec<u8>>(
    before: AuditLog,
    after: AuditLog,
    event: AuditEvent,
    signer: &HybridIdentity,
    timestamp_unix_ms: i64,
    encode_body: F,
    record: AuditRecord,
) -> bool {
    &&& record.schema@ == "spacl.audit.v1"@
    &&& body_follows(before, event, signer, timestamp_unix_ms, record.body)
    &&& exists|bytes: Vec<u8>|
        call_ensures(encode_body, (&record.body,), bytes) && record.record_hash@ == sha256_hex_of(
            #[trigger] bytes@,
        )
    &&& signing_outcome(
        signer.public@,
        signer.ml_dsa_seed_text(),
        signer.ed25519_secret_text(),
        encode_utf8(record.record_hash@),
    ) == Ok::<crate::crypto::SignatureBundleView, IdentityError>(record.signature@)
    &&& (signer.keys_match() && !is_blank(signer.public.subject@)) ==> verification_outcome(
        signer.public@,
        encode_utf8(record.record_hash@),
        record.signature@,
    ) is Ok
    &&& after.last_index_view() == Some(record.body.index)
    &&& after.last_hash_view() == record.record_hash@
    &&& after.path_view() == before.path_view()
}

/// In a verifying chain, each record's index is its position.
pub proof fn lemma_verified_indices(
    records: Seq<AuditRecord>,
    bodies: Seq<Seq<u8>>,
    identities: Seq<PublicIdentity>,
)
    requires
        records.len() == bodies.len(),
        chain_verifies(records, bodies, identities),
    ensures
        forall|i: int| 0 <= i < records.len() ==> (#[trigger] records[i]).body.index == i,
    decreases records.len(),
{
    reveal(chain_fault);
    reveal(record_fault);
    if records.len() > 0 {
        lemma_verified_indices(records.drop_last(), bodies.drop_last(), identities);
        assert forall|i: int| 0 <= i < records.len() implies (#[trigger] records[i]).body.index == i by {
            if i < records.len() - 1 {
                assert(records[i] == records.drop_last()[i]);
            }
        }
    }
}

/// Byte vectors, each taken by its bytes.
pub open spec fn byte_views(bodies: Seq<Vec<u8>>) -> Seq<Seq<u8>> {
    bodies.map_values(|b: Vec<u8>| b@)
}

/// Everything that the record at position `i` of a chain must satisfy: its index is `i`, its
/// hash is the SHA-256 hex of its body bytes, it names the previous record's hash (`GENESIS`
/// first), some trusted identity has its signer's key ID, and the signature of its record hash
/// verifies against the last such identity.
#[verifier::opaque]
pub open spec fn record_passes(
    records: Seq<AuditRecord>,
    bodies: Seq<Seq<u8>>,
    identities: Seq<PublicIdentity>,
    i: int,
) -> bool {
    &&& records[i].body.index == i
    &&& records[i].record_hash@ == sha256_hex_of(bodies[i])
    &&& records[i].body.previous_hash@ == expected_previous(records, i)
    &&& has_identity(identities, records[i].body.signer_key_id@)
    &&& verification_outcome(
        identities[identity_position(identities, records[i].body.signer_key_id@)]@,
        encode_utf8(records[i].record_hash@),
        records[i].signature@,
    ) is Ok
}

proof fn lemma_record_fault_none(
    records: Seq<AuditRecord>,
    bodies: Seq<Seq<u8>>,
    identities: Seq<PublicIdentity>,
    i: int,
)
    ensures
        record_fault(records[i], bodies[i], i, expected_previous(records, i), identities) is None
            <==> record_passes(records, bodies, identities, i),
{
    reveal(record_fault);
    reveal(record_passes);
}

proof fn lemma_record_passes_prefix(
    records: Seq<AuditRecord>,
    bodies: Seq<Seq<u8>>,
    identities: Seq<PublicIdentity>,
    i: int,
)
    requires
        0 <= i < records.len() - 1,
        records.len() == bodies.len(),
    ensures
        record_passes(records, bodies, identities, i) == record_passes(
            records.drop_last(),
            bodies.drop_last(),
            identities,
            i,
        ),
{
    reveal(record_passes);
    assert(records[i] == records.drop_last()[i]);
    assert(bodies[i] == bodies.drop_last()[i]);
    if i > 0 {
        assert(records[i - 1] == records.drop_last()[i - 1]);
    }
}

/// A chain verifies exactly when every record passes its checks.
pub proof fn lemma_chain_verifies_iff(
    records: Seq<AuditRecord>,
    bodies: Seq<Seq<u8>>,
    identities: Seq<PublicIdentity>,
)
    requires
        records.len() == bodies.len(),
    ensures
        chain_verifies(records, bodies, identities) <==> forall|i: int|
            0 <= i < records.len() ==> #[trigger] record_passes(records, bodies, identities, i),
    decreases records.len(),
{
    reveal(chain_fault);
    if records.len() > 0 {
        let n = records.len() - 1;
        let rs = records.drop_last();
        let bs = bodies.drop_last();
        lemma_chain_verifies_iff(rs, bs, identities);
        lemma_record_fault_none(records, bodies, identities, n);
        assert forall|i: int| 0 <= i < n implies #[trigger] record_passes(records, bodies, identities, i)
            == record_passes(rs, bs, identities, i) by {
            lemma_record_passes_prefix(records, bodies, identities, i);
        }
        if chain_verifies(records, bodies, identities) {
            assert forall|i: int| 0 <= i < records.len() implies #[trigger] record_passes(
                records,
                bodies,
                identities,
                i,
            ) by {
                if i < n {
                    assert(record_passes(rs, bs, identities, i));
                }
            }
        }
        if forall|i: int| 0 <= i < records.len() ==> #[trigger] record_passes(records, bodies, identities, i) {
            assert forall|i: int| 0 <= i < rs.len() implies #[trigger] record_passes(rs, bs, identities, i) by {
                assert(record_passes(records, bodies, identities, i));
            }
            assert(record_passes(records, bodies, identities, n));
        }
    }
}

/// Audit chains cover each record body and the previous record's hash: in a chain that
/// verifies, each record's hash is the hash of its body bytes, it names the previous record's
/// hash (`GENESIS` first), and a trusted identity with the signer's key ID verifies its signature.
pub proof fn lemma_verified_chain_links(
    records: Seq<AuditRecord>,
    bodies: Seq<Seq<u8>>,
    identities: Seq<PublicIdentity>,
)
    requires
        records.len() == bodies.len(),
        chain_verifies(records, bodies, identities),
    ensures
        forall|i: int|
            0 <= i < records.len() ==> {
                &&& (#[trigger] records[i]).body.index == i
                &&& records[i].record_hash@ == sha256_hex_of(bodies[i])
                &&& records[i].body.previous_hash@ == expected_previous(records, i)
                &&& has_identity(identities, records[i].body.signer_key_id@)
                &&& verification_outcome(
                    identities[identity_position(identities, records[i].body.signer_key_id@)]@,
                    encode_utf8(records[i].record_hash@),
                    records[i].signature@,
                ) is Ok
            },
{
    lemma_chain_verifies_iff(records, bodies, identities);
    assert forall|i: int| 0 <= i < records.len() implies {
        &&& (#[trigger] records[i]).body.index == i
        &&& records[i].record_hash@ == sha256_hex_of(bodies[i])
        &&& records[i].body.previous_hash@ == expected_previous(records, i)
        &&& has_identity(identities, records[i].body.signer_key_id@)
        &&& verification_outcome(
            identities[identity_position(identities, records[i].body.signer_key_id@)]@,
            encode_utf8(records[i].record_hash@),
            records[i].signature@,
        ) is Ok
    } by {
        assert(record_passes(records, bodies, identities, i));
        reveal(record_passes);
    }
}

/// Appending keeps a chain verifiable: after a verifying chain that a log tracks, a record
/// whose body the log built next (its index follows, it names the last hash), whose hash is
/// the hash of its body bytes, and whose signature a trusted identity with the signer's key
/// ID verifies, extends the chain to one that verifies.
pub proof fn lemma_append_keeps_chain_verifiable(
    log: AuditLog,
    records: Seq<AuditRecord>,
    bodies: Seq<Seq<u8>>,
    identities: Seq<PublicIdentity>,
    record: AuditRecord,
    body: Seq<u8>,
)
    requires
        records.len() == bodies.len(),
        chain_verifies(records, bodies, identities),
        log.tracks(records),
        record.body.index == (match log.last_index_view() {
            None => 0,
            Some(i) => i + 1,
        }),
        record.body.previous_hash@ == log.last_hash_view(),
        record.record_hash@ == sha256_hex_of(body),
        has_identity(identities, record.body.signer_key_id@),
        verification_outcome(
            identities[identity_position(identities, record.body.signer_key_id@)]@,
            encode_utf8(record.record_hash@),
            record.signature@,
        ) is Ok,
    ensures
        chain_verifies(records.push(record), bodies.push(body), identities),
        records.len() < u64::MAX ==> record.body.index == records.len(),
{
    lemma_verified_indices(records, bodies, identities);
    let rs = records.push(record);
    let bs = bodies.push(body);
    assert(rs.drop_last() =~= records);
    assert(bs.drop_last() =~= bodies);
    if records.len() > 0 {
        assert(records.last().body.index == records.len() - 1);
    }
    assert(expected_previous(rs, records.len() as int) == log.last_hash_view());
    reveal(chain_fault);
    reveal(record_fault);
}

/// Appending keeps a verified chain verified: after a chain that verifies and that the log
/// tracks, the record that `append` adds (with the bytes that a deterministic body encoder gives)
/// extends it to a chain that verifies, which the log then tracks, provided the signer's secrets
/// derive its public half, its subject is not blank, and that public half is the trusted
/// identity for its key ID.
pub proof fn lemma_append_extends_chain<F: Fn(&AuditBody) -> Vec<u8>>(
    before: AuditLog,
    after: AuditLog,
    records: Seq<AuditRecord>,
    bodies: Seq<Seq<u8>>,
    identities: Seq<PublicIdentity>,
    event: AuditEvent,
    signer: HybridIdentity,
    timestamp_unix_ms: i64,
    encode_body: F,
    record: AuditRecord,
    bytes: Vec<u8>,
)
    requires
        records.len() == bodies.len(),
        chain_verifies(records, bodies, identities),
        before.tracks(records),
        appended(before, after, event, &signer, timestamp_unix_ms, encode_body, record),
        call_ensures(encode_body, (&record.body,), bytes),
        forall|b: Vec<u8>| #[trigger] call_ensures(encode_body, (&record.body,), b) ==> b@ == bytes@,
        signer.keys_match(),
        !is_blank(signer.public.subject@),
        has_identity(identities, signer.public.key_id@),
        identities[identity_position(identities, signer.public.key_id@)]@ == signer.public@,
    ensures
        chain_verifies(records.push(record), bodies.push(bytes@), identities),
        after.tracks(records.push(record)),
{
    lemma_append_keeps_chain_verifiable(before, records, bodies, identities, record, bytes@);
}

/// A log opened after a chain that verifies continues it: the next record gets the number of
/// records as its index and names the last record's hash (`GENESIS` for an empty chain).
pub proof fn lemma_reopened_log_continues(
    log: AuditLog,
    records: Seq<AuditRecord>,
    bodies: Seq<Seq<u8>>,
    identities: Seq<PublicIdentity>,
)
    requires
        records.len() == bodies.len(),
        chain_verifies(records, bodies, identities),
        log.tracks(records),
    ensures
        (match log.last_index_view() {
            None => 0,
            Some(i) => i + 1,
        }) == records.len(),
        log.last_hash_view() == if records.len() == 0 {
            genesis()
        } else {
            records.last().record_hash@
        },
{
    lemma_verified_indices(records, bodies, identities);
    if records.len() > 0 {
        assert(records.last() == records[records.len() - 1]);
    }
}

/// An event taken by its parts: kind, actor, subject, detail.
pub open spec fn event_parts(e: AuditEvent) -> (Seq<char>, Seq<char>, Seq<char>, serde_json::Value) {
    (e.kind@, e.actor@, e.subject@, e.detail)
}

/// An event with these parts.
pub fn new_event(kind: &str, actor: &String, subject: &String, detail: serde_json::Value) -> (e: AuditEvent)
    ensures
        event_parts(e) == (kind@, actor@, subject@, detail),
{
    AuditEvent { kind: owned(kind), actor: actor.clone(), subject: subject.clone(), detail }
}

/// A named field of an event detail.
pub fn detail_field(name: &str, value: serde_json::Value) -> (f: (String, serde_json::Value))
    ensures
        f.0@ == name@,
        f.1 == value,
{
    (owned(name), value)
}

} // verus!
