//! Salted password hashing with bcrypt.

use vstd::prelude::*;

verus! {

#[verifier::external_type_specification]
#[verifier::external_body]
pub struct ExPwhashError(pwhash::error::Error);

/// Whether bcrypt accepts `password` for the stored `hash`: the hash is
/// recomputed under the cost and salt that the hash text names and compared.
pub uninterp spec fn bcrypt_matches(password: Seq<char>, hash: Seq<char>) -> bool;

/// Every character is printable ASCII (U+0020 to U+007E), as in every hash
/// text that bcrypt writes.
pub open spec fn printable_ascii(s: Seq<char>) -> bool {
    forall|i: int| 0 <= i < s.len() ==> ' ' <= #[trigger] s[i] <= '~'
}

/// Relies on pwhash::bcrypt::hash: it hashes the password under a fresh
/// random salt at the default cost, and writes `$2b$`, two cost digits, `$`
/// and bcrypt's base-64 characters, which bcrypt::verify accepts for the same
/// password. Every path of `hash` returns `Ok`: a random source that cannot
/// be read makes it panic rather than fail.
#[verifier::external_body]
fn bcrypt_hash(password: &str) -> (r: Result<String, pwhash::error::Error>)
    ensures
        r is Ok,
        r matches Ok(h) ==> bcrypt_matches(password@, h@) && printable_ascii(h@),
{
    pwhash::bcrypt::hash(password)
}

/// Relies on pwhash::bcrypt::verify: whether the password hashes to the given
/// hash text. Its salt decoder subtracts 0x20 from each character and indexes
/// a table of 96 entries, which fails on characters below U+0020 and on
/// U+0080; printable ASCII keeps clear of both.
#[verifier::external_body]
fn bcrypt_verify(password: &str, hash: &str) -> (r: bool)
    requires
        printable_ascii(hash@),
    ensures
        r == bcrypt_matches(password@, hash@),
{
    pwhash::bcrypt::verify(password, hash)
}

/// Whether every character of `s` is printable ASCII.
pub fn is_printable_ascii(s: &str) -> (r: bool)
    ensures
        r == printable_ascii(s@),
{
    broadcast use vstd::string::axiom_spec_iter;
    let mut ok = true;
    for c in it: s.chars()
        invariant
            it.seq() == s@,
            ok <==> forall|i: int| 0 <= i < it.index() ==> ' ' <= #[trigger] s@[i] <= '~',
    {
        if c < ' ' || c > '~' {
            ok = false;
        }
    }
    ok
}

/// Hashes a password under a fresh random salt; the hash is accepted for this
/// password.
pub fn hash_password(password: &str) -> (r: Option<String>)
    ensures
        r is Some,
        r matches Some(h) ==> bcrypt_matches(password@, h@) && printable_ascii(h@),
{
    match bcrypt_hash(password) {
        Ok(h) => Some(h),
        Err(_) => None,
    }
}

/// Whether the password matches the stored hash. A stored hash that is not
/// printable ASCII is never written by bcrypt and matches no password.
pub fn verify_password(password: &str, hash: &str) -> (r: bool)
    ensures
        r == (printable_ascii(hash@) && bcrypt_matches(password@, hash@)),
{
    if is_printable_ascii(hash) {
        bcrypt_verify(password, hash)
    } else {
        false
    }
}

} // verus!
