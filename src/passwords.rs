use crate::errors::ApiError;
use crate::paths::{chars_of, decimal, nat_decimal};
use vstd::prelude::*;
use vstd::string::{StrSliceExecFns, StringExecFns, StringSliceAdditionalSpecFns};

verus! {

/// The iteration count of every newly computed hash.
pub const ITERATIONS: u32 = 100_000;

/// The length of a newly drawn salt, in bytes.
pub const SALT_LEN: usize = 16;

/// The length of a derived credential: one SHA-512 output, in bytes.
pub const CREDENTIAL_LEN: usize = 64;

/// The first `len` bytes of PBKDF2 with HMAC-SHA512 over `secret` and
/// `salt`, with `iterations` rounds.
pub uninterp spec fn pbkdf2_hmac_sha512(iterations: u32, salt: Seq<u8>, secret: Seq<u8>, len: nat) -> Seq<u8>;

/// The standard base64 encoding, with padding, of `bytes`.
pub uninterp spec fn base64_encoded(bytes: Seq<u8>) -> Seq<char>;

/// The bytes that the standard base64 text `text` encodes, if it is valid.
pub uninterp spec fn base64_decoded(text: Seq<char>) -> Option<Seq<u8>>;

/// Relies on `ring::pbkdf2::derive` with `PBKDF2_HMAC_SHA512`: it fills the
/// output with the derived key, a function of its inputs alone. It panics
/// when more than `u32::MAX` digests of output are asked for, or on a salt
/// or secret too long for SHA-512, which no slice in memory can be.
#[verifier::external_body]
fn derive_credential(iterations: u32, salt: &[u8], secret: &str, len: usize) -> (r: Vec<u8>)
    requires
        iterations > 0,
        len <= 64 * u32::MAX,
    ensures
        r@ == pbkdf2_hmac_sha512(iterations, salt@, secret.spec_bytes(), len as nat),
        r@.len() == len,
{
    let mut out = vec![0u8; len];
    let rounds = std::num::NonZeroU32::new(iterations).unwrap();
    ring::pbkdf2::derive(ring::pbkdf2::PBKDF2_HMAC_SHA512, rounds, salt, secret.as_bytes(), &mut out);
    out
}

/// Relies on `ring::pbkdf2::verify` with `PBKDF2_HMAC_SHA512`: it succeeds
/// exactly when the expected key is not empty and equals the key derived,
/// at its length, from the other inputs. Its other refusals are for a salt
/// or secret too long for SHA-512, which no slice in memory can be.
#[verifier::external_body]
fn verify_credential(iterations: u32, salt: &[u8], secret: &str, expected: &[u8]) -> (r: bool)
    requires
        iterations > 0,
    ensures
        r == (expected@.len() > 0 && pbkdf2_hmac_sha512(
            iterations,
            salt@,
            secret.spec_bytes(),
            expected@.len(),
        ) == expected@),
{
    let rounds = std::num::NonZeroU32::new(iterations).unwrap();
    ring::pbkdf2::verify(ring::pbkdf2::PBKDF2_HMAC_SHA512, rounds, salt, secret.as_bytes(), expected).is_ok()
}

/// Relies on `ring::rand::SystemRandom::fill` for `len` random bytes; it
/// may fail, and nothing is known of the bytes.
#[verifier::external_body]
fn random_bytes(len: usize) -> (r: Option<Vec<u8>>)
    ensures
        r matches Some(bytes) ==> bytes@.len() == len,
{
    let mut bytes = vec![0u8; len];
    match ring::rand::SecureRandom::fill(&ring::rand::SystemRandom::new(), &mut bytes) {
        Ok(()) => Some(bytes),
        Err(_) => None,
    }
}

/// Relies on `base64::encode` (standard alphabet, padded).
#[verifier::external_body]
fn encode_base64(bytes: &[u8]) -> (r: String)
    ensures
        r@ == base64_encoded(bytes@),
{
    base64::encode(bytes)
}

/// Relies on `base64::decode` (standard alphabet, padded): the outcome
/// depends on the text alone.
#[verifier::external_body]
fn decode_base64(text: &str) -> (r: Option<Vec<u8>>)
    ensures
        match r {
            Some(bytes) => base64_decoded(text@) == Some(bytes@),
            None => base64_decoded(text@) is None,
        },
{
    match base64::decode(text) {
        Ok(bytes) => Some(bytes),
        Err(_) => None,
    }
}

/// The pieces of `s` between occurrences of `sep`; there is always at
/// least one.
pub open spec fn split_on(s: Seq<char>, sep: char) -> Seq<Seq<char>>
    decreases s.len(),
{
    if s.len() == 0 {
        seq![Seq::empty()]
    } else {
        let init = split_on(s.drop_last(), sep);
        if s.last() == sep {
            init.push(Seq::empty())
        } else {
            init.update(init.len() - 1, init.last().push(s.last()))
        }
    }
}

proof fn lemma_split_nonempty(s: Seq<char>, sep: char)
    ensures
        split_on(s, sep).len() >= 1,
    decreases s.len(),
{
    if s.len() > 0 {
        lemma_split_nonempty(s.drop_last(), sep);
    }
}

/// The pieces of `s` between occurrences of `sep`.
pub fn split_fields(s: &str, sep: char) -> (r: Vec<String>)
    ensures
        r@.len() == split_on(s@, sep).len(),
        forall|i: int| 0 <= i < r@.len() ==> #[trigger] r@[i]@ == split_on(s@, sep)[i],
{
    let chars = chars_of(s);
    let n = chars.len();
    let mut parts: Vec<String> = Vec::new();
    let mut start: usize = 0;
    let mut i: usize = 0;
    while i < n
        invariant
            n == s@.len(),
            chars@ == s@,
            start <= i <= n,
            split_on(s@.take(i as int), sep).len() == parts@.len() + 1,
            forall|j: int|
                0 <= j < parts@.len() ==> #[trigger] parts@[j]@ == split_on(
                    s@.take(i as int),
                    sep,
                )[j],
            split_on(s@.take(i as int), sep).last() == s@.subrange(start as int, i as int),
        decreases n - i,
    {
        assert(s@.take(i + 1).drop_last() =~= s@.take(i as int));
        proof {
            lemma_split_nonempty(s@.take(i as int), sep);
        }
        if chars[i] == sep {
            let piece = s.substring_char(start, i).to_string();
            parts.push(piece);
            start = i + 1;
        }
        i = i + 1;
        assert(s@.subrange(start as int, i as int) =~= s@.take(i as int).subrange(
            start as int,
            i as int,
        ));
    }
    let last = s.substring_char(start, n).to_string();
    parts.push(last);
    assert(s@.take(n as int) =~= s@);
    parts
}

/// Whether every character of `s` is an ASCII digit.
pub open spec fn all_digits(s: Seq<char>) -> bool {
    forall|i: int| 0 <= i < s.len() ==> '0' <= #[trigger] s[i] <= '9'
}

/// The number that the ASCII digits `s` denote.
pub open spec fn digits_value(s: Seq<char>) -> nat
    decreases s.len(),
{
    if s.len() == 0 {
        0
    } else {
        (digits_value(s.drop_last()) * 10 + (s.last() as nat - '0' as nat)) as nat
    }
}

/// What reading `s` as a `u32` gives: an optional `+`, then at least one
/// decimal digit and nothing else, for a value that fits.
pub open spec fn parsed_u32(s: Seq<char>) -> Option<u32> {
    let digits = if s.len() > 0 && s[0] == '+' {
        s.drop_first()
    } else {
        s
    };
    if digits.len() > 0 && all_digits(digits) && digits_value(digits) <= u32::MAX {
        Some(digits_value(digits) as u32)
    } else {
        None
    }
}

proof fn lemma_digits_value_grows(s: Seq<char>, k: int)
    requires
        all_digits(s),
        0 <= k <= s.len(),
    ensures
        digits_value(s.take(k)) <= digits_value(s),
    decreases s.len() - k,
{
    if k < s.len() {
        lemma_digits_value_grows(s, k + 1);
        assert(s.take(k + 1).drop_last() =~= s.take(k));
    } else {
        assert(s.take(k) =~= s);
    }
}

/// Reads `s` as a decimal `u32`.
pub fn parse_u32(s: &str) -> (r: Option<u32>)
    ensures
        r == parsed_u32(s@),
{
    let chars = chars_of(s);
    let n = chars.len();
    let first: usize = if n > 0 && chars[0] == '+' {
        1
    } else {
        0
    };
    let ghost digits = s@.subrange(first as int, n as int);
    assert(digits =~= if s@.len() > 0 && s@[0] == '+' {
        s@.drop_first()
    } else {
        s@
    });
    if first == n {
        return None;
    }
    let mut value: u64 = 0;
    let mut i: usize = first;
    while i < n
        invariant
            chars@ == s@,
            n == s@.len(),
            first <= i <= n,
            digits == s@.subrange(first as int, n as int),
            digits == (if s@.len() > 0 && s@[0] == '+' {
                s@.drop_first()
            } else {
                s@
            }),
            all_digits(digits.take(i - first)),
            value == digits_value(digits.take(i - first)),
            value <= u32::MAX,
        decreases n - i,
    {
        let c = chars[i];
        assert(digits.take(i + 1 - first).drop_last() =~= digits.take(i - first));
        if c < '0' || c > '9' {
            assert(digits[i - first] == c);
            assert(!all_digits(digits));
            return None;
        }
        let d = (c as u32 - '0' as u32) as u64;
        value = value * 10 + d;

        if value > 4294967295u64 {
            proof {
                if all_digits(digits) {
                    lemma_digits_value_grows(digits, i + 1 - first);
                }
            }
            return None;
        }
        i = i + 1;
    }
    assert(digits.take(n - first) =~= digits);
    Some(value as u32)
}

/// Why a password could not be hashed, read or verified.
#[derive(Debug)]
pub struct PasswordError {
    details: String,
}

impl PasswordError {
    /// An error with the given explanation.
    pub fn new(msg: &str) -> (r: PasswordError)
        ensures
            r@ == msg@,
    {
        PasswordError { details: msg.to_string() }
    }

    /// The explanation.
    pub fn details(&self) -> (r: &str)
        ensures
            r@ == self@,
    {
        self.details.as_str()
    }

    /// The error that goes out to the client: a failure on the server's
    /// side.
    pub fn to_api_error(self) -> (r: ApiError)
        ensures
            r is InternalServerError,
    {
        ApiError::InternalServerError
    }
}

impl View for PasswordError {
    type V = Seq<char>;

    closed spec fn view(&self) -> Seq<char> {
        self.details@
    }
}

/// A salted PBKDF2 password hash: the derived key, the iteration count and
/// the salt.
pub struct PasswordHash {
    hash: Vec<u8>,
    iterations: u32,
    salt: Vec<u8>,
}

/// The contents of a password hash: derived key, iteration count, salt.
pub struct PasswordHashView {
    pub hash: Seq<u8>,
    pub iterations: u32,
    pub salt: Seq<u8>,
}

impl View for PasswordHash {
    type V = PasswordHashView;

    closed spec fn view(&self) -> PasswordHashView {
        PasswordHashView { hash: self.hash@, iterations: self.iterations, salt: self.salt@ }
    }
}

/// The text form of a hash: base64 salt, iteration count and base64 key,
/// separated by `$`.
pub open spec fn hash_text(h: PasswordHashView) -> Seq<char> {
    base64_encoded(h.salt) + seq!['$'] + nat_decimal(h.iterations as nat) + seq!['$']
        + base64_encoded(h.hash)
}

/// What reading the text form `s` gives, or the explanation of why it
/// fails.
pub open spec fn parse_hash_spec(s: Seq<char>) -> Result<PasswordHashView, Seq<char>> {
    let parts = split_on(s, '$');
    match base64_decoded(parts[0]) {
        None => Err("The salt contains invalid characters"@),
        Some(salt) => if parts.len() < 2 {
            Err("The hash does not contain the iteration count"@)
        } else {
            match parsed_u32(parts[1]) {
                None => Err("The iteration count was not a valid u32"@),
                Some(iterations) => if parts.len() < 3 {
                    Err("The hash does not contain the hashed password"@)
                } else {
                    match base64_decoded(parts[2]) {
                        None => Err("The hashed password contains invalid characters"@),
                        Some(hash) => Ok(PasswordHashView { hash, iterations, salt }),
                    }
                },
            }
        },
    }
}

impl PasswordHash {
    /// A hash with the given key, iteration count and salt.
    pub fn new(hash: Vec<u8>, iterations: u32, salt: Vec<u8>) -> (r: PasswordHash)
        ensures
            r@ == (PasswordHashView { hash: hash@, iterations, salt: salt@ }),
    {
        PasswordHash { hash, iterations, salt }
    }

    /// Reads the text form that `to_string` writes.
    pub fn from(string: &str) -> (r: Result<PasswordHash, PasswordError>)
        ensures
            match (r, parse_hash_spec(string@)) {
                (Ok(h), Ok(expected)) => h@ == expected,
                (Err(e), Err(expected)) => e@ == expected,
                _ => false,
            },
    {
        let parts = split_fields(string, '$');
        proof {
            lemma_split_nonempty(string@, '$');
        }
        let salt = match decode_base64(parts[0].as_str()) {
            Some(b) => b,
            None => return Err(PasswordError::new("The salt contains invalid characters")),
        };
        if parts.len() < 2 {
            return Err(PasswordError::new("The hash does not contain the iteration count"));
        }
        let iterations = match parse_u32(parts[1].as_str()) {
            Some(n) => n,
            None => return Err(PasswordError::new("The iteration count was not a valid u32")),
        };
        if parts.len() < 3 {
            return Err(PasswordError::new("The hash does not contain the hashed password"));
        }
        let hash = match decode_base64(parts[2].as_str()) {
            Some(b) => b,
            None => return Err(PasswordError::new("The hashed password contains invalid characters")),
        };
        Ok(PasswordHash { hash, iterations, salt })
    }

    /// The text form of the hash.
    pub fn to_string(&self) -> (r: String)
        ensures
            r@ == hash_text(self@),
    {
        let sep = "$";
        proof {
            reveal_strlit("$");
        }
        let mut r = encode_base64(self.salt.as_slice());
        r.append(sep);
        r.append(decimal(self.iterations as u64).as_str());
        r.append(sep);
        r.append(encode_base64(self.hash.as_slice()).as_str());
        r
    }
}

/// Hashes `password` with a fresh random salt and `ITERATIONS` rounds.
pub fn hash_password(password: &str) -> (r: Result<PasswordHash, PasswordError>)
    ensures
        match r {
            Ok(h) => {
                &&& h@.iterations == ITERATIONS
                &&& h@.salt.len() == SALT_LEN
                &&& h@.hash == pbkdf2_hmac_sha512(
                    ITERATIONS,
                    h@.salt,
                    password.spec_bytes(),
                    CREDENTIAL_LEN as nat,
                )
            },
            Err(e) => e@ == "Could not get random bytes to generate a salt"@,
        },
{
    let salt = match random_bytes(SALT_LEN) {
        Some(s) => s,
        None => return Err(PasswordError::new("Could not get random bytes to generate a salt")),
    };
    let hash = derive_credential(ITERATIONS, salt.as_slice(), password, CREDENTIAL_LEN);
    Ok(PasswordHash::new(hash, ITERATIONS, salt))
}

/// Whether `password` matches `hash`: the key derived from it, with the
/// hash's salt and iteration count, must equal the stored key.
pub open spec fn password_matches(password: Seq<u8>, hash: PasswordHashView) -> bool {
    &&& hash.iterations > 0
    &&& hash.hash.len() > 0
    &&& pbkdf2_hmac_sha512(hash.iterations, hash.salt, password, hash.hash.len()) == hash.hash
}

/// Succeeds when `password` matches `hash`.
pub fn verify_password(password: &str, hash: &PasswordHash) -> (r: Result<(), PasswordError>)
    ensures
        match r {
            Ok(()) => password_matches(password.spec_bytes(), hash@),
            Err(e) => !password_matches(password.spec_bytes(), hash@) && e@ == "Password is incorrect"@,
        },
{
    if hash.iterations == 0 {
        return Err(PasswordError::new("Password is incorrect"));
    }
    if verify_credential(hash.iterations, hash.salt.as_slice(), password, hash.hash.as_slice()) {
        Ok(())
    } else {
        Err(PasswordError::new("Password is incorrect"))
    }
}

} // verus!
