//! The operation identifier drawn once per run, and the object key and body
//! that are derived from it.
use vstd::prelude::*;
use vstd::utf8::{decode_utf8, encode_utf8, encode_utf8_decode_utf8};

verus! {

/// Which request the upload sends: as the client built it, or with its
/// `x-id` query parameter stripped.
#[derive(Clone, Copy, Debug, PartialEq, Eq)]
pub enum Mode {
    Standard,
    Modified,
}

/// The lowercase hexadecimal digits, by value.
pub open spec fn hex_digits() -> Seq<char> {
    seq!['0', '1', '2', '3', '4', '5', '6', '7', '8', '9', 'a', 'b', 'c', 'd', 'e', 'f']
}

/// The `k`-th of the 32 four-bit digits of `value`, most significant first.
pub open spec fn nibble(value: u128, k: int) -> u128 {
    (value >> ((124 - 4 * k) as u128)) & 15u128
}

/// Whether position `i` of the canonical text holds a hyphen.
pub open spec fn is_hyphen_position(i: int) -> bool {
    i == 8 || i == 13 || i == 18 || i == 23
}

/// Which digit stands at position `i` of the canonical text, for a position
/// that is not a hyphen.
pub open spec fn digit_at(i: int) -> int {
    if i < 8 {
        i
    } else if i < 13 {
        i - 1
    } else if i < 18 {
        i - 2
    } else if i < 23 {
        i - 3
    } else {
        i - 4
    }
}

/// The canonical text of an identifier: its 32 hex digits in lowercase, most
/// significant first, in groups of 8, 4, 4, 4 and 12 joined by hyphens.
pub open spec fn id_text(value: u128) -> Seq<char> {
    Seq::new(
        36,
        |i: int|
            if is_hyphen_position(i) {
                '-'
            } else {
                hex_digits()[nibble(value, digit_at(i)) as int]
            },
    )
}

/// What follows the identifier in the object key of each mode.
pub open spec fn key_suffix(mode: Mode) -> Seq<char> {
    match mode {
        Mode::Standard => seq!['/', 's', 't', 'a', 'n', 'd', 'a', 'r', 'd'],
        Mode::Modified => seq!['/', 'm', 'o', 'd', 'i', 'f', 'i', 'e', 'd'],
    }
}

/// The object key of an upload: `<id>/standard` or `<id>/modified`.
pub open spec fn object_key_text(value: u128, mode: Mode) -> Seq<char> {
    id_text(value) + key_suffix(mode)
}

/// The object body of an upload: the UTF-8 bytes of the identifier's text.
pub open spec fn body_bytes(value: u128) -> Seq<u8> {
    encode_utf8(id_text(value))
}

/// Whether `value` carries the version (random, 4) and variant (RFC 4122)
/// bits of a randomly generated identifier.
pub open spec fn is_random_version(value: u128) -> bool {
    (value >> 76u128) & 15u128 == 4 && (value >> 62u128) & 3u128 == 2
}

/// Draws a random identifier.
/// Relies on `uuid::Uuid::new_v4`, which masks a random 128-bit value so that
/// it carries the version 4 and RFC 4122 variant bits.
#[verifier::external_body]
fn random_id() -> (r: u128)
    ensures
        is_random_version(r),
{
    uuid::Uuid::new_v4().as_u128()
}

/// The canonical text of an identifier.
/// Relies on `uuid::Uuid`'s `Display`, which writes the hyphenated lowercase
/// form.
#[verifier::external_body]
fn format_id(value: u128) -> (r: String)
    ensures
        r@ == id_text(value),
{
    uuid::Uuid::from_u128(value).to_string()
}

/// The identifier of one upload, held as its 128-bit value.
#[derive(Clone, Copy, Debug, PartialEq, Eq)]
pub struct OperationId {
    pub value: u128,
}

impl OperationId {
    /// Draws a fresh random identifier.
    pub fn generate() -> (r: OperationId)
        ensures
            is_random_version(r.value),
    {
        OperationId { value: random_id() }
    }

    /// The identifier's canonical hyphenated text.
    pub fn text(&self) -> (r: String)
        ensures
            r@ == id_text(self.value),
    {
        format_id(self.value)
    }
}

/// The key and body of one upload.
pub struct UploadPlan {
    pub key: String,
    pub body: Vec<u8>,
}

/// The object key for `id` in `mode`.
pub fn object_key(id: OperationId, mode: Mode) -> (r: String)
    ensures
        r@ == object_key_text(id.value, mode),
{
    let mut key = id.text();
    match mode {
        Mode::Standard => {
            proof {
                reveal_strlit("/standard");
            }
            key.append("/standard");
        },
        Mode::Modified => {
            proof {
                reveal_strlit("/modified");
            }
            key.append("/modified");
        },
    }
    assert(key@ =~= object_key_text(id.value, mode));
    key
}

/// The object body for `id`: the UTF-8 bytes of its text.
pub fn object_body(id: OperationId) -> (r: Vec<u8>)
    ensures
        r@ == body_bytes(id.value),
{
    let text = id.text();
    vstd::slice::slice_to_vec(text.as_str().as_bytes())
}

/// The key and body of the upload for `id` in `mode`, both derived from the
/// one identifier.
pub fn plan_upload(id: OperationId, mode: Mode) -> (r: UploadPlan)
    ensures
        r.key@ == object_key_text(id.value, mode),
        r.body@ == body_bytes(id.value),
{
    UploadPlan { key: object_key(id, mode), body: object_body(id) }
}

/// Both the key and the body of an upload name the same identifier: the key
/// is that identifier's text followed by the mode's suffix, and the body
/// decodes, as UTF-8, to exactly that text.
pub proof fn lemma_key_and_body_share_id(value: u128, mode: Mode)
    ensures
        object_key_text(value, mode).take(36) == id_text(value),
        object_key_text(value, mode).skip(36) == key_suffix(mode),
        decode_utf8(body_bytes(value)) == id_text(value),
{
    encode_utf8_decode_utf8(id_text(value));
    assert(object_key_text(value, mode).take(36) =~= id_text(value));
    assert(object_key_text(value, mode).skip(36) =~= key_suffix(mode));
}

/// The process exit status after the send: `0` on success, `-1` on failure.
pub fn exit_status(sent: bool) -> (r: i32)
    ensures
        sent ==> r == 0,
        !sent ==> r == -1,
{
    if sent {
        0
    } else {
        -1
    }
}

} // verus!
