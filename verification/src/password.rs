//! Trusted access to the `argon2` password hashing crate.

use vstd::prelude::*;
use argon2::password_hash::rand_core::OsRng;
use argon2::password_hash::SaltString;
use argon2::{Argon2, PasswordHash, PasswordHasher, PasswordVerifier};

verus! {

/// Name for whether `PasswordHash::new` accepts a string as a PHC hash string.
pub uninterp spec fn password_hash_parses(hash: Seq<char>) -> bool;

/// Name for whether `Argon2::default().verify_password` accepts `password`
/// against the parsed PHC string `hash`.
pub uninterp spec fn argon2_accepts(hash: Seq<char>, password: Seq<char>) -> bool;

/// Name for the PHC string that `Argon2::default().hash_password` writes
/// for `password` with the salt text `salt`; it depends on the two alone.
pub uninterp spec fn argon2id_default_hash(password: Seq<char>, salt: Seq<char>) -> Seq<char>;

/// Whether `h` has the form of a PHC string: not empty, and starting with
/// the `$` separator (the field before the first `$` must be empty).
pub open spec fn starts_as_phc(h: Seq<char>) -> bool {
    h.len() > 0 && h[0] == '$'
}

/// The start of the PHC strings that `Argon2::default()` writes: algorithm
/// Argon2id, version 19, and the default costs `m=19456,t=2,p=1`.
pub open spec fn argon2id_phc_prefix() -> Seq<char> {
    "$argon2id$v=19$m=19456,t=2,p=1$"@
}

/// Whether `h` has the form of a PHC string written by `Argon2::default()`:
/// the prefix above, a salt of at least 4 characters, a `$`, and the 32 byte
/// digest in unpadded Base64 (43 characters).
pub open spec fn is_default_argon2_phc(h: Seq<char>) -> bool {
    let p = argon2id_phc_prefix();
    &&& h.len() >= p.len() + 4 + 1 + 43
    &&& h.subrange(0, p.len() as int) == p
    &&& h[h.len() - 44] == '$'
}

/// `PasswordHash::new(hash)`, then, when it parses,
/// `Argon2::default().verify_password(password, &parsed)`.
///
/// `None` when the hash string does not parse; otherwise whether the
/// password matches it. Both outcomes depend on the two strings alone. As
/// the parser's source shows, an empty string, or one that does not start
/// with `$`, does not parse. As `verify_password` shows, a hash that
/// `Argon2::default()` wrote for some password and a 16-byte salt is
/// checked by hashing the given password again with the same salt and
/// parameters and comparing: the password matches exactly when its hash
/// with that salt is the same string.
#[verifier::external_body]
pub fn argon2_verify(hash: &str, password: &str) -> (res: Option<bool>)
    ensures
        res is Some == password_hash_parses(hash@),
        !starts_as_phc(hash@) ==> res is None,
        forall|p: Seq<char>, s: Seq<char>|
            #![trigger argon2id_default_hash(p, s)]
            argon2id_default_hash(p, s) == hash@ && is_b64_salt16(s) && p.len() <= 0x3fff_ffff
                && password@.len() <= 0x3fff_ffff ==> res == Some(argon2id_default_hash(password@, s) == hash@),
        res matches Some(ok) ==> ok == argon2_accepts(hash@, password@),
{
    match PasswordHash::new(hash) {
        Ok(parsed) => Some(Argon2::default().verify_password(password.as_bytes(), &parsed).is_ok()),
        Err(_) => None,
    }
}

/// Whether `c` belongs to the standard Base64 alphabet (`A` to `Z`, `a` to
/// `z`, `0` to `9`, `+` and `/`).
pub open spec fn is_b64_char(c: char) -> bool {
    ||| 'A' <= c <= 'Z'
    ||| 'a' <= c <= 'z'
    ||| '0' <= c <= '9'
    ||| c == '+'
    ||| c == '/'
}

/// Whether `s` is the unpadded Base64 text of 16 bytes: 22 characters of
/// the alphabet, the last of which carries the final 2 bits followed by four
/// zero bits (so it is `A`, `Q`, `g` or `w`).
pub open spec fn is_b64_salt16(s: Seq<char>) -> bool {
    &&& s.len() == 22
    &&& forall|i: int| 0 <= i < 22 ==> is_b64_char(#[trigger] s[i])
    &&& (s[21] == 'A' || s[21] == 'Q' || s[21] == 'g' || s[21] == 'w')
}

/// Whether `h` is the PHC string that `Argon2::default()` writes with the
/// salt text `salt`: the prefix above, the salt as given, a `$`, and the
/// 43-character digest.
pub open spec fn is_argon2_phc_with_salt(h: Seq<char>, salt: Seq<char>) -> bool {
    let p = argon2id_phc_prefix();
    &&& h.len() == p.len() + salt.len() + 1 + 43
    &&& h.subrange(0, p.len() as int) == p
    &&& h.subrange(p.len() as int, (p.len() + salt.len()) as int) == salt
    &&& h[(p.len() + salt.len()) as int] == '$'
}

/// `SaltString::generate(&mut OsRng)`, as its text: 16 random bytes from the
/// operating system's generator, in unpadded Base64. Which bytes came is
/// not stated; the form of the text is.
#[verifier::external_body]
pub fn fresh_salt() -> (salt: String)
    ensures
        is_b64_salt16(salt@),
{
    SaltString::generate(&mut OsRng).as_str().to_string()
}

/// `Salt::from_b64(salt)`, then `Argon2::default().hash_password(password,
/// salt)`, as a PHC string.
///
/// The digest itself is not stated. What the crates' documentation and
/// source show of the outcome is stated: a hash is the Argon2id PHC string
/// with the default parameters and the given salt text, it parses again,
/// and the same password verifies against it; and for the Base64 text of a
/// 16-byte salt (what [`fresh_salt`] gives) and a password short enough for
/// the length limit of 2^32 - 1 bytes, hashing succeeds.
#[verifier::external_body]
pub fn argon2_hash(password: &str, salt: &str) -> (res: Option<String>)
    ensures
        res matches Some(h) ==> password_hash_parses(h@) && argon2_accepts(h@, password@),
        res matches Some(h) ==> is_argon2_phc_with_salt(h@, salt@),
        res matches Some(h) ==> h@ == argon2id_default_hash(password@, salt@),
        is_b64_salt16(salt@) && password@.len() <= 0x3fff_ffff ==> res is Some,
{
    match argon2::password_hash::Salt::from_b64(salt) {
        Ok(salt) => match Argon2::default().hash_password(password.as_bytes(), salt) {
            Ok(hash) => Some(hash.to_string()),
            Err(_) => None,
        },
        Err(_) => None,
    }
}

} // verus!
