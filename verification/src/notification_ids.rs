//! Deterministic identifiers of the notification store: the occurrence of a
//! notification of a source version, and the owner's feedback on a candidate.
//! Each is the UUID text of the first 16 bytes of a SHA-256 digest over a
//! framed byte string.
use vstd::prelude::*;

use crate::identity::SourceAccountRef;
use crate::json_text::hex_lower_digit;
use vstd::utf8::encode_utf8;

verus! {

/// The SHA-256 digest of a byte string.
pub uninterp spec fn sha256_digest(data: Seq<u8>) -> Seq<u8>;

/// `sha2::Sha256::digest`: the digest of the bytes, which is 32 bytes long
/// (the output size of SHA-256). It depends on the bytes alone; hashing a
/// sequence of `update` calls digests their concatenation.
#[verifier::external_body]
fn sha256(data: &[u8]) -> (r: Vec<u8>)
    ensures
        r@ == sha256_digest(data@),
        r@.len() == 32,
{
    <sha2::Sha256 as sha2::Digest>::digest(data).to_vec()
}

/// Two lower-case hexadecimal digits per byte, high nibble first.
pub open spec fn hex_of_bytes(bytes: Seq<u8>) -> Seq<char>
    decreases bytes.len(),
{
    if bytes.len() == 0 {
        Seq::empty()
    } else {
        hex_of_bytes(bytes.drop_last()) + seq![
            hex_lower_digit((bytes.last() / 16) as int),
            hex_lower_digit((bytes.last() % 16) as int),
        ]
    }
}

/// The hyphenated text of a UUID of 16 bytes: its 32 hexadecimal digits
/// grouped 8-4-4-4-12.
pub open spec fn uuid_text_of(bytes: Seq<u8>) -> Seq<char> {
    let h = hex_of_bytes(bytes);
    h.subrange(0, 8) + seq!['-'] + h.subrange(8, 12) + seq!['-'] + h.subrange(12, 16) + seq!['-']
        + h.subrange(16, 20) + seq!['-'] + h.subrange(20, 32)
}

/// `uuid::Uuid::from_bytes` rendered with `to_string`: the crate's `Display`
/// writes the hyphenated lower-case form of the 16 bytes, in order.
#[verifier::external_body]
fn uuid_text_from_bytes(bytes: [u8; 16]) -> (r: String)
    ensures
        r@ == uuid_text_of(bytes@),
{
    uuid::Uuid::from_bytes(bytes).to_string()
}

/// The UUID text of the first 16 bytes of the digest of `data`.
pub open spec fn digest_uuid_text(data: Seq<u8>) -> Seq<char> {
    uuid_text_of(sha256_digest(data).take(16))
}

fn digest_uuid(data: &Vec<u8>) -> (r: String)
    ensures
        r@ == digest_uuid_text(data@),
{
    let digest = sha256(data.as_slice());
    let mut bytes: [u8; 16] = [0u8; 16];
    let mut i: usize = 0;
    while i < 16
        invariant
            i <= 16,
            digest@.len() == 32,
            forall|k: int| 0 <= k < i ==> bytes@[k] == digest@[k],
        decreases 16 - i,
    {
        bytes[i] = digest[i];
        i = i + 1;
    }
    assert(bytes@ =~= sha256_digest(data@).take(16));
    uuid_text_from_bytes(bytes)
}

fn push_utf8(out: &mut Vec<u8>, s: &str)
    ensures
        final(out)@ == old(out)@ + encode_utf8(s@),
{
    let bytes = s.as_bytes();
    let ghost start = out@;
    let mut i: usize = 0;
    while i < bytes.len()
        invariant
            bytes@ == encode_utf8(s@),
            i <= bytes@.len(),
            out@ == start + bytes@.take(i as int),
        decreases bytes@.len() - i,
    {
        out.push(bytes[i]);
        i = i + 1;
        assert(out@ =~= start + bytes@.take(i as int));
    }
    assert(bytes@.take(i as int) =~= bytes@);
}

/// The `count` low bytes of a number, most significant first.
pub open spec fn be_bytes(n: nat, count: nat) -> Seq<u8>
    decreases count,
{
    if count == 0 {
        Seq::empty()
    } else {
        be_bytes(n / 256, (count - 1) as nat).push((n % 256) as u8)
    }
}

fn push_be_bytes(out: &mut Vec<u8>, n: u64, count: u64)
    ensures
        final(out)@ == old(out)@ + be_bytes(n as nat, count as nat),
    decreases count,
{
    let ghost start = out@;
    if count > 0 {
        push_be_bytes(out, n / 256, count - 1);
        out.push((n % 256) as u8);
        assert(out@ =~= start + be_bytes(n as nat, count as nat));
    } else {
        assert(out@ =~= start + be_bytes(n as nat, count as nat));
    }
}

/// The bytes that identify a notification occurrence: a versioned tag, then
/// the source kind, source identifier, big-endian source version and
/// notification kind, separated by zero bytes.
pub open spec fn occurrence_id_input(
    source_kind: Seq<char>,
    source_id: Seq<char>,
    source_version: u64,
    notification_kind: Seq<char>,
) -> Seq<u8> {
    encode_utf8("notification-policy-occurrence-v2"@) + seq![0u8] + encode_utf8(source_kind)
        + seq![0u8] + encode_utf8(source_id) + seq![0u8] + be_bytes(source_version as nat, 8)
        + seq![0u8] + encode_utf8(notification_kind)
}

/// The identifier of the notification that a source version produces, the
/// same for every attempt, so that a replayed decision finds its outbox row.
pub fn notification_occurrence_id(
    source_kind: &str,
    source_id: &str,
    source_version: u64,
    notification_kind: &str,
) -> (r: String)
    ensures
        r@ == digest_uuid_text(
            occurrence_id_input(source_kind@, source_id@, source_version, notification_kind@),
        ),
{
    let mut data: Vec<u8> = Vec::new();
    push_utf8(&mut data, "notification-policy-occurrence-v2");
    data.push(0u8);
    push_utf8(&mut data, source_kind);
    data.push(0u8);
    push_utf8(&mut data, source_id);
    data.push(0u8);
    push_be_bytes(&mut data, source_version, 8);
    data.push(0u8);
    push_utf8(&mut data, notification_kind);
    assert(data@ =~= occurrence_id_input(
        source_kind@,
        source_id@,
        source_version,
        notification_kind@,
    ));
    digest_uuid(&data)
}

/// The bytes that identify an owner's feedback: the candidate's channel and
/// account, the command event and whether the notification was important.
pub open spec fn feedback_id_input(
    account: SourceAccountRef,
    command_source_event_id: Seq<char>,
    important: bool,
) -> Seq<u8> {
    encode_utf8(account.channel.name()) + seq![0u8] + encode_utf8(account.account_id@) + seq![0u8]
        + encode_utf8(command_source_event_id) + seq![if important { 1u8 } else { 0u8 }]
}

/// The identifier of an owner's feedback on a candidate of `account`, the
/// same when the same command is recorded again.
pub fn feedback_id(account: &SourceAccountRef, command_source_event_id: &str, important: bool) -> (r:
    String)
    ensures
        r@ == digest_uuid_text(feedback_id_input(*account, command_source_event_id@, important)),
{
    let mut data: Vec<u8> = Vec::new();
    push_utf8(&mut data, account.channel.as_str());
    data.push(0u8);
    push_utf8(&mut data, account.account_id.as_str());
    data.push(0u8);
    push_utf8(&mut data, command_source_event_id);
    data.push(if important {
        1u8
    } else {
        0u8
    });
    assert(data@ =~= feedback_id_input(*account, command_source_event_id@, important));
    digest_uuid(&data)
}

} // verus!
