//! Password hashing with Argon2 (default parameters), in the PHC string format.
use vstd::prelude::*;
use vstd::string::*;

verus! {

/// The PHC string that `Argon2::default().hash_password` gives for a password and a salt
/// (the salt in B64), where it gives one.
pub uninterp spec fn argon2_phc(password: Seq<char>, salt: Seq<char>) -> Option<Seq<char>>;

/// What `PasswordHash::new` says of a text: `None` where it reads it as a PHC string,
/// else the text of its error.
pub uninterp spec fn phc_parse_error(phc: Seq<char>) -> Option<Seq<char>>;

/// Whether the text parses as a PHC string (`PasswordHash::new`) and the password
/// verifies against it (`Argon2::default().verify_password`).
pub uninterp spec fn argon2_verifies(password: Seq<char>, phc: Seq<char>) -> bool;

/// A character of the B64 alphabet (standard Base64: letters, digits, `+` and `/`).
pub open spec fn b64_char(c: char) -> bool {
    ('A' <= c && c <= 'Z') || ('a' <= c && c <= 'z') || ('0' <= c && c <= '9') || c == '+'
        || c == '/'
}

/// The unpadded B64 text of 16 bytes: 22 characters of the alphabet, the last of which
/// carries two data bits and four zero bits (so it is `A`, `Q`, `g` or `w`).
pub open spec fn b64_of_16_bytes(s: Seq<char>) -> bool {
    &&& s.len() == 22
    &&& forall|i: int| 0 <= i < 21 ==> b64_char(#[trigger] s[i])
    &&& (s[21] == 'A' || s[21] == 'Q' || s[21] == 'g' || s[21] == 'w')
}

/// A fresh random salt in B64, from `SaltString::generate` over the operating system's
/// generator: it encodes `Salt::RECOMMENDED_LENGTH` (16) random bytes. Which bytes is not
/// stated: they are random.
#[verifier::external_body]
fn generate_salt() -> (r: String)
    ensures
        b64_of_16_bytes(r@),
{
    argon2::password_hash::SaltString::generate(&mut argon2::password_hash::rand_core::OsRng)
        .as_str()
        .to_string()
}

/// `Argon2::default().hash_password(password, salt)` written as a PHC string, the salt
/// read with `SaltString::from_b64`; errors as their text. The hash is the named
/// `argon2_phc`, and the password verifies against it, as the hash's own parameters and
/// salt reproduce it. It succeeds for the B64 text of 16 bytes (which `from_b64` accepts
/// and decodes to a salt within 8..`MAX_SALT_LEN`) and a password of at most
/// `MAX_PWD_LEN` (`0xFFFF_FFFF`) bytes, which four bytes a character bound.
#[verifier::external_body]
fn argon2_hash(password: &str, salt: &str) -> (r: Result<String, String>)
    ensures
        r matches Ok(h) ==> argon2_phc(password@, salt@) == Some(h@),
        r matches Ok(h) ==> argon2_verifies(password@, h@),
        r is Ok || !(b64_of_16_bytes(salt@) && password@.len() * 4 <= 0xFFFF_FFFF),
{
    let salt = argon2::password_hash::SaltString::from_b64(salt).map_err(|e| e.to_string())?;
    argon2::PasswordHasher::hash_password(&argon2::Argon2::default(), password.as_bytes(), &salt)
        .map(|h| h.to_string())
        .map_err(|e| e.to_string())
}

/// Checks a password against a PHC string with `Argon2::default().verify_password`, the
/// string read with `PasswordHash::new`; an unreadable string is an error (its text).
/// `Ok(true)` exactly where the named `argon2_verifies` holds.
#[verifier::external_body]
fn argon2_verify(password: &str, phc: &str) -> (r: Result<bool, String>)
    ensures
        r matches Ok(ok) ==> ok == argon2_verifies(password@, phc@),
        r matches Ok(ok) || !argon2_verifies(password@, phc@),
        r is Ok <==> phc_parse_error(phc@) is None,
        r matches Err(m) ==> phc_parse_error(phc@) == Some(m@),
{
    let hash = argon2::password_hash::PasswordHash::new(phc).map_err(|e| e.to_string())?;
    Ok(argon2::PasswordVerifier::verify_password(&argon2::Argon2::default(), password.as_bytes(), &hash).is_ok())
}

/// Hashes a password with a fresh salt: the hash is Argon2's for the password and that
/// salt, and it verifies the password. It succeeds for every password of at most
/// `0xFFFF_FFFF` bytes (bounded here as four bytes a character).
pub fn password_hash(ref_str: &str) -> (r: Result<String, String>)
    ensures
        r matches Ok(h) ==> argon2_verifies(ref_str@, h@),
        r matches Ok(h) ==> exists|salt: Seq<char>|
            b64_of_16_bytes(salt) && argon2_phc(ref_str@, salt) == Some(h@),
        ref_str@.len() * 4 <= 0xFFFF_FFFF ==> r is Ok,
{
    let salt = generate_salt();
    argon2_hash(ref_str, salt.as_str())
}

/// Whether the password matches the stored hash; an error (the reader's) where the hash
/// cannot be read.
pub fn password_verify(ref_pass: &str, ref_hash: &str) -> (r: Result<bool, String>)
    ensures
        r matches Ok(b) ==> b == argon2_verifies(ref_pass@, ref_hash@),
        argon2_verifies(ref_pass@, ref_hash@) ==> r == Ok::<bool, String>(true),
        r is Ok <==> phc_parse_error(ref_hash@) is None,
        r matches Err(m) ==> phc_parse_error(ref_hash@) == Some(m@),
{
    argon2_verify(ref_pass, ref_hash)
}

} // verus!
