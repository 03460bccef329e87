//! Salted password hashing and the comparison of hashes.

use vstd::prelude::*;

verus! {

/// Shortest salt, in characters.
pub const SALT_MIN_LENGTH: usize = 4;

/// Longest salt, in characters.
pub const SALT_MAX_LENGTH: usize = 64;

/// The characters a salt may hold: letters, digits, `/`, `+`, `.` and `-`.
pub open spec fn is_salt_char(c: char) -> bool {
    ||| 'a' <= c <= 'z'
    ||| 'A' <= c <= 'Z'
    ||| '0' <= c <= '9'
    ||| c == '/'
    ||| c == '+'
    ||| c == '.'
    ||| c == '-'
}

/// A salt is well formed when its length is within bounds and every
/// character is a salt character.
pub open spec fn is_valid_salt(salt: Seq<char>) -> bool {
    &&& SALT_MIN_LENGTH <= salt.len() <= SALT_MAX_LENGTH
    &&& forall|i: int| 0 <= i < salt.len() ==> is_salt_char(#[trigger] salt[i])
}

/// The Argon2 hash of a password under a salt, as a PHC string; `None` where
/// the hasher reports an error.
pub uninterp spec fn argon2_phc(password: Seq<char>, salt: Seq<char>) -> Option<Seq<char>>;

/// Whether a character may stand in a salt.
fn is_salt_character(c: char) -> (allowed: bool)
    ensures
        allowed == is_salt_char(c),
{
    ('a' <= c && c <= 'z') || ('A' <= c && c <= 'Z') || ('0' <= c && c <= '9') || c == '/'
        || c == '+' || c == '.' || c == '-'
}

/// Whether the text is well formed as a salt: of 4 to 64 characters, each a
/// letter, a digit, or one of `/`, `+`, `.` and `-`.
pub fn salt_accepted(salt: &str) -> (accepted: bool)
    ensures
        accepted == is_valid_salt(salt@),
{
    let length = salt.unicode_len();
    if length < SALT_MIN_LENGTH || length > SALT_MAX_LENGTH {
        return false;
    }
    let mut i: usize = 0;
    while i < length
        invariant
            i <= length == salt@.len(),
            SALT_MIN_LENGTH <= length <= SALT_MAX_LENGTH,
            forall|j: int| 0 <= j < i ==> is_salt_char(#[trigger] salt@[j]),
        decreases length - i,
    {
        if !is_salt_character(salt.get_char(i)) {
            return false;
        }
        i = i + 1;
    }
    true
}

/// Hashes a password with Argon2 in its default configuration.
///
/// Converts the salt with `argon2::password_hash::SaltString::from_b64`,
/// which takes every well-formed salt, calls
/// `argon2::PasswordHasher::hash_password` on `argon2::Argon2::default()`
/// with the password's bytes, and formats the hash as a PHC string; an error
/// of the hasher becomes `None`. The hasher is deterministic, so the contract
/// names its result and claims nothing else.
#[verifier::external_body]
pub(crate) fn hash_password(password: &str, salt: &str) -> (hash: Option<String>)
    requires
        is_valid_salt(salt@),
    ensures
        hash.deep_view() == argon2_phc(password@, salt@),
{
    let salt = argon2::password_hash::SaltString::from_b64(salt).ok()?;
    let hasher = argon2::Argon2::default();
    let hash = argon2::PasswordHasher::hash_password(&hasher, password.as_bytes(), &salt).ok()?;
    Some(hash.to_string())
}

/// Compares two texts without stopping at the first difference.
///
/// Texts of different byte length are unequal at once; for equal lengths
/// every byte pair is visited, so the time taken does not tell where two
/// hashes part.
pub fn constant_time_eq(left: &str, right: &str) -> (same: bool)
    ensures
        same == (left@ == right@),
{
    let a = left.as_bytes();
    let b = right.as_bytes();
    proof {
        vstd::utf8::encode_utf8_decode_utf8(left@);
        vstd::utf8::encode_utf8_decode_utf8(right@);
    }
    if a.len() != b.len() {
        return false;
    }
    let mut difference: u8 = 0;
    let mut i: usize = 0;
    while i < a.len()
        invariant
            i <= a.len(),
            a.len() == b.len(),
            (difference == 0) == (a@.subrange(0, i as int) =~= b@.subrange(0, i as int)),
        decreases a.len() - i,
    {
        let x: u8 = a[i];
        let y: u8 = b[i];
        assert(((difference | (x ^ y)) == 0) == (difference == 0 && x == y)) by (bit_vector);
        proof {
            let next = i + 1;
            let (a0, a1) = (a@.subrange(0, i as int), a@.subrange(0, next));
            let (b0, b1) = (b@.subrange(0, i as int), b@.subrange(0, next));
            assert(a1 =~= a0.push(x));
            assert(b1 =~= b0.push(y));
            if a1 =~= b1 {
                assert(a0 =~= a1.drop_last());
                assert(b0 =~= b1.drop_last());
                assert(x == a1.last() && y == b1.last());
            }
        }
        difference = difference | (x ^ y);
        i = i + 1;
    }
    assert(a@.subrange(0, a.len() as int) =~= a@);
    assert(b@.subrange(0, b.len() as int) =~= b@);
    difference == 0
}

} // verus!
