//! Key derivation: a master password and a stored salt give the 256-bit
//! vault key through Argon2id.
//!
//! The derivation is deterministic, so that a successful decryption of the
//! vault is itself the proof that the password was right.

use rand::rngs::OsRng;
use argon2::password_hash::{PasswordHasher, SaltString};
use argon2::{Algorithm, Argon2, Params, Version};
use vstd::prelude::*;
use vstd::utf8::encode_utf8;

verus! {

#[verifier::external_type_specification]
#[verifier::external_body]
pub struct ExPasswordHashError(argon2::password_hash::Error);

#[verifier::external_type_specification]
#[verifier::external_body]
pub struct ExSaltString(SaltString);

/// Memory cost in KiB (64 MiB).
pub const MEMORY_COST: u32 = 65536;

/// Number of passes over the memory.
pub const TIME_COST: u32 = 3;

/// Number of lanes.
pub const PARALLELISM: u32 = 4;

/// Length of the derived key in bytes.
pub const OUTPUT_LEN: usize = 32;

/// Why no key could be derived.
#[derive(Debug)]
pub enum KdfError {
    /// Argon2 refused the parameters or the decoded salt.
    DerivationError(String),
    /// The salt is not a PHC salt string.
    InvalidSalt,
}

/// A character that a PHC salt string may hold: `[a-zA-Z0-9/+.-]`.
pub open spec fn phc_salt_char(c: char) -> bool {
    ||| 'a' <= c <= 'z'
    ||| 'A' <= c <= 'Z'
    ||| '0' <= c <= '9'
    ||| c == '/'
    ||| c == '+'
    ||| c == '.'
    ||| c == '-'
}

/// A PHC salt string: 4 to 64 characters, each of them allowed.
pub open spec fn phc_salt_ok(s: Seq<char>) -> bool {
    &&& 4 <= s.len() <= 64
    &&& forall|i: int| 0 <= i < s.len() ==> #[trigger] phc_salt_char(s[i])
}

/// Argon2 parameters that `argon2::Params::new` accepts, with an output
/// length that `argon2::password_hash::Output` accepts (10 to 64 bytes).
pub open spec fn argon2_params_ok(m_cost: u32, t_cost: u32, p_cost: u32, out_len: usize) -> bool {
    &&& 1 <= p_cost <= 0xFF_FFFF
    &&& m_cost >= 8 * p_cost
    &&& m_cost >= 8
    &&& t_cost >= 1
    &&& 10 <= out_len <= 64
}

/// Longest password, in UTF-8 bytes, that argon2 accepts.
pub const MAX_PASSWORD_BYTES: u64 = 0xFFFF_FFFF;

/// A character of the standard base64 alphabet `[A-Za-z0-9+/]`.
pub open spec fn b64_alphabet_char(c: char) -> bool {
    ||| 'a' <= c <= 'z'
    ||| 'A' <= c <= 'Z'
    ||| '0' <= c <= '9'
    ||| c == '/'
    ||| c == '+'
}

/// The unpadded base64 text of 16 bytes: 22 characters of the standard
/// alphabet, the last of which carries two data bits and four zero bits
/// (`A`, `Q`, `g` or `w`).
pub open spec fn generated_salt_shape(s: Seq<char>) -> bool {
    &&& s.len() == 22
    &&& forall|i: int| 0 <= i < s.len() ==> #[trigger] b64_alphabet_char(s[i])
    &&& (s[21] == 'A' || s[21] == 'Q' || s[21] == 'g' || s[21] == 'w')
}

/// A salt of the generated shape is a PHC salt string.
pub proof fn lemma_generated_salt_is_phc(s: Seq<char>)
    requires
        generated_salt_shape(s),
    ensures
        phc_salt_ok(s),
{
    assert forall|i: int| 0 <= i < s.len() implies #[trigger] phc_salt_char(s[i]) by {
        assert(b64_alphabet_char(s[i]));
    }
}

/// The Argon2id (version 0x13) hash of a password under a salt string and
/// parameters, if argon2 accepts the decoded salt.
pub uninterp spec fn argon2id_output(
    password: Seq<char>,
    salt: Seq<char>,
    m_cost: u32,
    t_cost: u32,
    p_cost: u32,
    out_len: usize,
) -> Option<Seq<u8>>;

/// Relies on `SaltString::from_b64`: it accepts exactly the PHC salt strings.
#[verifier::external_body]
fn parse_salt(salt: &str) -> (r: Result<SaltString, argon2::password_hash::Error>)
    ensures
        r is Ok <==> phc_salt_ok(salt@),
{
    SaltString::from_b64(salt)
}

/// Relies on `PasswordHasher::hash_password` of an `argon2::Argon2` made by
/// `Argon2::new(Algorithm::Argon2id, Version::V0x13, params)`: on success its
/// hash is present and `out_len` bytes long. It succeeds for a salt that
/// decodes to 16 bytes (at least the 8 that argon2 asks for) and a password
/// of at most `MAX_PASSWORD_BYTES` bytes, and fails for a longer password. The arguments are converted by
/// `SaltString::from_b64` and `Params::new`, which cannot fail under the
/// preconditions (the same checks as `phc_salt_ok` and `argon2_params_ok`).
#[verifier::external_body]
fn argon2id_hash(
    password: &str,
    salt: &str,
    m_cost: u32,
    t_cost: u32,
    p_cost: u32,
    out_len: usize,
) -> (r: Result<Option<Vec<u8>>, argon2::password_hash::Error>)
    requires
        phc_salt_ok(salt@),
        argon2_params_ok(m_cost, t_cost, p_cost, out_len),
    ensures
        match r {
            Ok(Some(v)) => argon2id_output(password@, salt@, m_cost, t_cost, p_cost, out_len)
                == Some(v@) && v@.len() == out_len,
            Ok(None) => false,
            Err(_) => argon2id_output(password@, salt@, m_cost, t_cost, p_cost, out_len) is None,
        },
        generated_salt_shape(salt@) && encode_utf8(password@).len() <= MAX_PASSWORD_BYTES ==> r
            matches Ok(Some(_)),
        encode_utf8(password@).len() > MAX_PASSWORD_BYTES ==> r is Err,
{
    let salt = SaltString::from_b64(salt)?;
    let params = Params::new(m_cost, t_cost, p_cost, Some(out_len))?;
    let hasher = Argon2::new(Algorithm::Argon2id, Version::V0x13, params);
    let hash = hasher.hash_password(password.as_bytes(), &salt)?;
    Ok(hash.hash.map(|out| out.as_bytes().to_vec()))
}

/// Relies on the `Display` text of `argon2::password_hash::Error`.
#[verifier::external_body]
fn error_text(e: &argon2::password_hash::Error) -> (r: String) {
    e.to_string()
}

/// Relies on `SaltString::generate` with the operating system's generator:
/// 16 random bytes in unpadded base64, 22 characters of `[A-Za-z0-9+/]`.
#[verifier::external_body]
fn random_salt() -> (r: String)
    ensures
        generated_salt_shape(r@),
{
    SaltString::generate(&mut OsRng).to_string()
}

/// The key that `derive_key` returns, if any.
pub open spec fn derived_key(password: Seq<char>, salt: Seq<char>) -> Option<Seq<u8>> {
    if phc_salt_ok(salt) {
        argon2id_output(password, salt, MEMORY_COST, TIME_COST, PARALLELISM, OUTPUT_LEN)
    } else {
        None
    }
}

/// Derives the 256-bit vault key from a password and a salt string.
///
/// The result depends on the password and the salt alone.
pub fn derive_key(password: &str, salt: &str) -> (r: Result<[u8; 32], KdfError>)
    ensures
        match r {
            Ok(k) => derived_key(password@, salt@) == Some(k@),
            Err(KdfError::InvalidSalt) => !phc_salt_ok(salt@),
            Err(KdfError::DerivationError(_)) => phc_salt_ok(salt@) && derived_key(
                password@,
                salt@,
            ) is None,
        },
        generated_salt_shape(salt@) && encode_utf8(password@).len() <= MAX_PASSWORD_BYTES ==> r is Ok,
        r is Ok ==> encode_utf8(password@).len() <= MAX_PASSWORD_BYTES,
{
    proof {
        if generated_salt_shape(salt@) {
            lemma_generated_salt_is_phc(salt@);
        }
    }
    if parse_salt(salt).is_err() {
        return Err(KdfError::InvalidSalt);
    }
    let hashed = argon2id_hash(password, salt, MEMORY_COST, TIME_COST, PARALLELISM, OUTPUT_LEN);
    let bytes = match hashed {
        Ok(Some(v)) => v,
        Ok(None) => return Err(KdfError::DerivationError(String::from_str("No hash output"))),
        Err(e) => return Err(KdfError::DerivationError(error_text(&e))),
    };
    let mut key = [0u8; 32];
    let mut i: usize = 0;
    while i < 32
        invariant
            0 <= i <= 32,
            bytes@.len() == 32,
            forall|j: int| 0 <= j < i ==> key@[j] == bytes@[j],
        decreases 32 - i,
    {
        key[i] = bytes[i];
        i = i + 1;
    }
    assert(key@ =~= bytes@);
    Ok(key)
}

/// A fresh random salt string for a new vault.
pub fn generate_salt() -> (r: String)
    ensures
        generated_salt_shape(r@),
        phc_salt_ok(r@),
{
    let r = random_salt();
    proof {
        lemma_generated_salt_is_phc(r@);
    }
    r
}

} // verus!
