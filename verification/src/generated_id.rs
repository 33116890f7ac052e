//! Identifiers from the `uuid` crate: random ones, and name-based ones that
//! the same name always gives.
use vstd::prelude::*;

use crate::text::{is_blank, utf8_len};
use crate::json_text::{push_text, string_from_chars};
use vstd::utf8::encode_utf8;

verus! {

/// Lower-case hexadecimal digit.
pub open spec fn is_hex_lower(c: char) -> bool {
    ('0' <= c && c <= '9') || ('a' <= c && c <= 'f')
}

/// The hyphenated text form of a UUID: 36 characters, hyphens at
/// positions 8, 13, 18 and 23, lower-case hexadecimal digits elsewhere.
pub open spec fn is_hyphenated_uuid(s: Seq<char>) -> bool {
    &&& s.len() == 36
    &&& forall|i: int|
        0 <= i < 36 ==> if i == 8 || i == 13 || i == 18 || i == 23 {
            #[trigger] s[i] == '-'
        } else {
            is_hex_lower(s[i])
        }
}

/// `uuid::Uuid::new_v4`, rendered with `to_string` (the hyphenated form that
/// the crate's `Display` impl writes). The value is random; only its shape is
/// stated.
#[verifier::external_body]
pub(crate) fn random_uuid_text() -> (r: String)
    ensures
        is_hyphenated_uuid(r@),
{
    uuid::Uuid::new_v4().to_string()
}

/// The name-based UUID (version 5, OID namespace) of a byte string, in its
/// hyphenated text form.
pub uninterp spec fn uuid_v5_oid(name: Seq<u8>) -> Seq<char>;

/// `uuid::Uuid::new_v5` in `Uuid::NAMESPACE_OID`, rendered with `to_string`.
/// The result is a function of the bytes alone; its text is the hyphenated
/// form that the crate's `Display` impl writes.
#[verifier::external_body]
pub(crate) fn uuid_v5_oid_text(name: &[u8]) -> (r: String)
    ensures
        r@ == uuid_v5_oid(name@),
        is_hyphenated_uuid(r@),
{
    uuid::Uuid::new_v5(&uuid::Uuid::NAMESPACE_OID, name).to_string()
}

/// The name-based identifier of an effect within a namespace: the version 5
/// UUID of `<namespace>:<effect id>`.
pub fn stable_id(namespace: &str, effect_id: &str) -> (r: String)
    ensures
        r@ == uuid_v5_oid(encode_utf8(namespace@ + ":"@ + effect_id@)),
        is_hyphenated_uuid(r@),
{
    let mut chars: Vec<char> = Vec::new();
    push_text(&mut chars, namespace);
    push_text(&mut chars, ":");
    push_text(&mut chars, effect_id);
    let text = string_from_chars(&chars);
    uuid_v5_oid_text(text.as_str().as_bytes())
}

/// A text of ASCII characters takes one byte per character.
pub proof fn lemma_ascii_utf8_len(s: Seq<char>)
    requires
        forall|i: int| 0 <= i < s.len() ==> (#[trigger] s[i] as u32) < 0x80,
    ensures
        utf8_len(s) == s.len(),
    decreases s.len(),
{
    if s.len() > 0 {
        let t = s.drop_last();
        assert forall|i: int| 0 <= i < t.len() implies (#[trigger] t[i] as u32) < 0x80 by {
            assert(t[i] == s[i]);
        }
        lemma_ascii_utf8_len(t);
        assert((s.last() as u32) < 0x80);
    }
}

/// A hyphenated UUID is not blank and takes 36 bytes.
pub proof fn lemma_uuid_text_shape(s: Seq<char>)
    requires
        is_hyphenated_uuid(s),
    ensures
        !is_blank(s),
        utf8_len(s) == 36,
{
    assert(s[8] == '-');
    assert forall|i: int| 0 <= i < s.len() implies (#[trigger] s[i] as u32) < 0x80 by {
        if i == 8 || i == 13 || i == 18 || i == 23 {
            assert(s[i] == '-');
        } else {
            assert(is_hex_lower(s[i]));
        }
    }
    lemma_ascii_utf8_len(s);
}

} // verus!
