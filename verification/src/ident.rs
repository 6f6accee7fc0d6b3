//! Identities: the private identifier a player keeps, the public one derived
//! from it, and fresh identifiers for loot.

use crate::hex::{hex_text, to_hex};
use vstd::prelude::*;

verus! {

/// `uuid`'s identifier, carried from the call that draws it to the call
/// that formats it.
#[verifier::external_type_specification]
#[verifier::external_body]
pub struct ExUuid(uuid::Uuid);

/// Length of an identifier in its simple form: 32 hexadecimal digits.
pub const SIMPLE_LEN: usize = 32;

/// Whether a character is a decimal digit or a letter from `a` to `f`.
pub open spec fn is_lower_hex(c: char) -> bool {
    ('0' <= c && c <= '9') || ('a' <= c && c <= 'f')
}

/// The 64-bit XXH3 hash of the UTF-8 bytes of a text.
pub uninterp spec fn xxh3_of(text: Seq<char>) -> u64;

/// The public identifier that belongs to a private one: its hash in
/// lower-case hexadecimal.
pub open spec fn public_id_text(private_id: Seq<char>) -> Seq<char> {
    hex_text(xxh3_of(private_id) as nat)
}

/// Calls `xxhash_rust::xxh3::xxh3_64` on the bytes of `text`.
#[verifier::external_body]
fn xxh3(text: &String) -> (hash: u64)
    ensures
        hash == xxh3_of(text@),
{
    xxhash_rust::xxh3::xxh3_64(text.as_bytes())
}

/// Calls `Uuid::new_v4`: a random identifier, of which nothing is known.
#[verifier::external_body]
fn new_uuid() -> (id: uuid::Uuid) {
    uuid::Uuid::new_v4()
}

/// Formats an identifier through `Uuid::as_simple`: 32 lower-case
/// hexadecimal digits, no hyphens.
#[verifier::external_body]
fn simple_text(id: &uuid::Uuid) -> (text: String)
    ensures
        text@.len() == SIMPLE_LEN,
        forall|i: int| 0 <= i < text@.len() ==> is_lower_hex(#[trigger] text@[i]),
{
    id.as_simple().to_string()
}

/// A fresh random identifier in its simple form.
pub fn fresh_id() -> (text: String)
    ensures
        text@.len() == SIMPLE_LEN,
        forall|i: int| 0 <= i < text@.len() ==> is_lower_hex(#[trigger] text@[i]),
{
    let id = new_uuid();
    simple_text(&id)
}

/// Derives the public identifier from a private one.
pub fn public_id_of(private_id: &String) -> (public_id: String)
    ensures
        public_id@ == public_id_text(private_id@),
{
    to_hex(xxh3(private_id))
}

} // verus!
