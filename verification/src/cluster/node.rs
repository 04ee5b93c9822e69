//! The identity a node keeps across restarts.
//!
//! At start-up a node reads the id it stored earlier. If there is one, it is
//! read as a UUID and written back in hyphenated form; if reading failed, a
//! fresh random (version 4) UUID is made and written. The file I/O stands
//! outside the library; this module decides what is written.

use vstd::prelude::*;

use crate::cluster::ClusterError;

verus! {

/// The lower-case hexadecimal digit of a value below sixteen.
pub open spec fn hex_digit(n: int) -> char {
    if n < 10 {
        (n + 48) as char
    } else {
        (n + 87) as char
    }
}

/// The `i`-th hexadecimal digit of `u`, counted from the most significant.
pub open spec fn nibble(u: u128, i: int) -> int {
    ((u >> ((124 - 4 * i) as u128)) & 15u128) as int
}

/// The 32 lower-case hexadecimal digits of `u`, most significant first.
pub open spec fn hex_digits(u: u128) -> Seq<char> {
    Seq::new(32, |i: int| hex_digit(nibble(u, i)))
}

/// The hyphenated text of a UUID: its hexadecimal digits in groups of 8, 4,
/// 4, 4 and 12, separated by hyphens.
pub open spec fn hyphenated_text(u: u128) -> Seq<char> {
    let h = hex_digits(u);
    let dash = seq!['-'];
    h.subrange(0, 8) + dash + h.subrange(8, 12) + dash + h.subrange(12, 16) + dash + h.subrange(
        16,
        20,
    ) + dash + h.subrange(20, 32)
}

/// A random UUID: version 4 in its version field, the RFC 4122 variant in its
/// variant field.
pub open spec fn is_random_uuid(u: u128) -> bool {
    &&& (u >> 76u128) & 15u128 == 4
    &&& (u >> 62u128) & 3u128 == 2
}

/// The UUID that `uuid::Uuid::parse_str` reads from a text, if it reads one.
pub uninterp spec fn uuid_text_value(text: Seq<char>) -> Option<u128>;

/// Reads a UUID from text with `uuid::Uuid::parse_str` (simple, hyphenated or
/// URN form, digits in either case), the UUID taken as its 128-bit big-endian
/// value. What it accepts is named, not stated; stated is only what its
/// source shows of the hyphenated lower-case form that `uuid_hyphenated`
/// writes: that it reads back as the UUID it was written from.
#[verifier::external_body]
fn parse_uuid(text: &str) -> (r: Option<u128>)
    ensures
        r == uuid_text_value(text@),
        forall|u: u128| #[trigger] hyphenated_text(u) == text@ ==> r == Some(u),
{
    uuid::Uuid::parse_str(text).ok().map(|id| id.as_u128())
}

/// Writes a UUID, given by its 128-bit big-endian value, in hyphenated
/// lower-case form with `uuid::Uuid::to_hyphenated` and `to_string`.
#[verifier::external_body]
fn uuid_hyphenated(value: u128) -> (r: String)
    ensures
        r@ == hyphenated_text(value),
{
    uuid::Uuid::from_u128(value).to_hyphenated().to_string()
}

/// Makes a fresh random UUID with `uuid::Uuid::new_v4`, which fills it from
/// the operating system's random source and then sets its version and
/// variant fields. Only those fields are stated; the rest is chance.
#[verifier::external_body]
fn new_random_uuid() -> (r: u128)
    ensures
        is_random_uuid(r),
{
    uuid::Uuid::new_v4().as_u128()
}

/// What reading the stored id gave: its text, or the error that reading met.
pub open spec fn stored_text(stored: &Result<String, ClusterError>) -> Option<Seq<char>> {
    match stored {
        Ok(t) => Some(t@),
        Err(_) => None,
    }
}

/// The id that start-up writes, given what reading the stored id gave: the
/// stored UUID re-written in hyphenated form, or, when reading failed, a fresh
/// random UUID. A stored text that is not a UUID is left out: start-up stops
/// there (see `try_node_id_from_stored`).
pub fn node_id_from_stored(stored: &Result<String, ClusterError>) -> (r: String)
    requires
        stored_text(stored) matches Some(t) ==> uuid_text_value(t) is Some,
    ensures
        stored_text(stored) matches Some(t) ==> r@ == hyphenated_text(uuid_text_value(t)->0),
        stored_text(stored) is None ==> exists|u: u128|
            is_random_uuid(u) && r@ == #[trigger] hyphenated_text(u),
        forall|u: u128|
            stored_text(stored) == Some(#[trigger] hyphenated_text(u)) ==> r@ == hyphenated_text(
                u,
            ),
{
    match stored {
        Ok(text) => match parse_uuid(text.as_str()) {
            Some(u) => uuid_hyphenated(u),
            None => {
                proof {
                    assert(false);
                }
                String::new()
            },
        },
        Err(_) => {
            let u = new_random_uuid();
            let r = uuid_hyphenated(u);
            assert(is_random_uuid(u) && r@ == hyphenated_text(u));
            r
        },
    }
}

/// The id that start-up writes, or none where start-up stops because the
/// stored text is not a UUID.
pub fn try_node_id_from_stored(stored: &Result<String, ClusterError>) -> (r: Option<String>)
    ensures
        stored_text(stored) matches Some(t) ==> (uuid_text_value(t) is None <==> r is None),
        stored_text(stored) matches Some(t) ==> (r matches Some(s) ==> s@ == hyphenated_text(
            uuid_text_value(t)->0,
        )),
        stored_text(stored) is None ==> (r matches Some(s) && exists|u: u128|
            is_random_uuid(u) && s@ == #[trigger] hyphenated_text(u)),
        forall|u: u128|
            stored_text(stored) == Some(#[trigger] hyphenated_text(u)) ==> (r matches Some(s)
                && s@ == hyphenated_text(u)),
{
    match stored {
        Ok(text) => {
            if parse_uuid(text.as_str()).is_none() {
                return None;
            }
        },
        Err(_) => {},
    }
    Some(node_id_from_stored(stored))
}

} // verus!
