//! Secrets: passwords and their salted hashes.

use vstd::prelude::*;
use subtle::ConstantTimeEq;

verus! {

/// Length in bytes of the hash output, which is also the key of the state files.
pub const HASH_OUTPUT_LEN: usize = 32;

/// Length in bytes of a freshly drawn salt.
pub const SALT_LEN: usize = 16;

/// Largest password, in bytes, that the hash function accepts.
pub const MAX_PASSWORD_LEN: usize = 0xFFFF_FFFF;

/// The Argon2id output (default parameters, 32 bytes) for `password` under `salt`.
pub uninterp spec fn argon2_output(password: Seq<u8>, salt: Seq<u8>) -> Seq<u8>;

/// Relies on `argon2::Argon2::hash_password_into` with the default parameters:
/// it fails exactly when the password is longer than `u32::MAX` bytes or the
/// salt is shorter than 8 or longer than `u32::MAX` bytes, and otherwise fills
/// the output with the hash of the password under the salt.
#[verifier::external_body]
fn argon2_hash(password: &[u8], salt: &[u8]) -> (r: Option<Vec<u8>>)
    ensures
        r is Some <==> (password@.len() <= MAX_PASSWORD_LEN && 8 <= salt@.len() <= 0xFFFF_FFFF),
        r is Some ==> r->0@ == argon2_output(password@, salt@),
        r is Some ==> r->0@.len() == HASH_OUTPUT_LEN,
{
    let mut out = vec![0u8; HASH_OUTPUT_LEN];
    match argon2::Argon2::default().hash_password_into(password, salt, &mut out) {
        Ok(()) => Some(out),
        Err(_) => None,
    }
}

/// Relies on `subtle::ConstantTimeEq::ct_eq` on byte slices: true exactly when
/// both slices hold the same bytes. Slices of different lengths are rejected at
/// once; slices of equal length are compared in time independent of their content.
#[verifier::external_body]
fn ct_equal(a: &[u8], b: &[u8]) -> (r: bool)
    ensures
        r == (a@ == b@),
{
    bool::from(a.ct_eq(b))
}

/// Relies on `rand::RngCore::try_fill_bytes` of the operating system's
/// generator (`rand::rngs::OsRng`): it fails, without panicking, when the
/// generator fails; otherwise the result has the requested length. Nothing is
/// known of its bytes.
#[verifier::external_body]
pub(crate) fn os_random(len: usize) -> (r: Option<Vec<u8>>)
    ensures
        r is Some ==> r->0@.len() == len,
{
    let mut bytes = vec![0u8; len];
    match rand::RngCore::try_fill_bytes(&mut rand::rngs::OsRng, &mut bytes) {
        Ok(()) => Some(bytes),
        Err(_) => None,
    }
}

/// Relies on `zeroize::Zeroize` for `Vec<u8>` (re-exported by `secrecy`): it
/// overwrites every byte, spare capacity included, and leaves the vector empty.
#[verifier::external_body]
fn wipe(bytes: &mut Vec<u8>)
    ensures
        final(bytes)@.len() == 0,
    opens_invariants none
    no_unwind
{
    secrecy::zeroize::Zeroize::zeroize(bytes)
}

/// A password typed by the user, or the sentinel for a declined prompt.
///
/// The bytes are overwritten when the value is dropped.
pub struct Password {
    known: bool,
    secret: Vec<u8>,
}

impl Password {
    /// The password as seen by the library: `Some(bytes)` when known, `None` when declined.
    pub closed spec fn view(&self) -> Option<Seq<u8>> {
        if self.known {
            Some(self.secret@)
        } else {
            None
        }
    }

    /// Builds a password from `password` if `is_known`, else the unknown sentinel.
    pub fn new(password: Vec<u8>, is_known: bool) -> (r: Self)
        ensures
            r.view() == (if is_known { Some(password@) } else { None::<Seq<u8>> }),
    {
        let mut secret = password;
        if !is_known {
            wipe(&mut secret);
        }
        Password { known: is_known, secret }
    }

    /// Builds a known password.
    pub fn from_known(password: Vec<u8>) -> (r: Self)
        ensures
            r.view() == Some(password@),
    {
        Self::new(password, true)
    }

    /// Builds the sentinel for a prompt that the user declined or cancelled.
    pub fn from_unknown() -> (r: Self)
        ensures
            r.view() == None::<Seq<u8>>,
    {
        Self::new(Vec::new(), false)
    }

    /// Returns `true` if `self` holds a known password.
    pub fn is_known(&self) -> (r: bool)
        ensures
            r == (self.view() is Some),
    {
        self.known
    }

    /// The bytes of a known password.
    pub fn known(&self) -> (r: Option<&[u8]>)
        ensures
            r is Some <==> self.view() is Some,
            r is Some ==> r->0@ == self.view()->0,
    {
        if self.known {
            Some(self.secret.as_slice())
        } else {
            None
        }
    }
}

impl Default for Password {
    fn default() -> (r: Self)
        ensures
            r.view() == None::<Seq<u8>>,
    {
        Self::from_unknown()
    }
}

impl Drop for Password {
    fn drop(&mut self)
        opens_invariants none
        no_unwind
    {
        wipe(&mut self.secret);
    }
}

/// A salted Argon2id hash of a password.
#[derive(Debug)]
pub struct PasswordHash {
    salt: Vec<u8>,
    hash: Vec<u8>,
}

/// The error returned when a password does not match a hash.
#[derive(Clone, Copy, Debug, PartialEq, Eq, Structural)]
pub struct PasswordMismatch;

impl PasswordHash {
    /// Every hash holds a salt the hash function accepts and a full-length output.
    #[verifier::type_invariant]
    spec fn inv(&self) -> bool {
        &&& 8 <= self.salt@.len() <= 0xFFFF_FFFF
        &&& self.hash@.len() == HASH_OUTPUT_LEN
    }

    /// The salt under which the hash was computed.
    pub closed spec fn salt(&self) -> Seq<u8> {
        self.salt@
    }

    /// The hash output.
    pub closed spec fn output(&self) -> Seq<u8> {
        self.hash@
    }

    /// Whether `verify` accepts `password`: it is within the hash function's
    /// limits and matches.
    pub open spec fn verifies(&self, password: Seq<u8>) -> bool {
        &&& password.len() <= MAX_PASSWORD_LEN
        &&& self.matches(password)
    }

    /// Whether `password` hashes, under the stored salt, to the stored output.
    pub open spec fn matches(&self, password: Seq<u8>) -> bool {
        argon2_output(password, self.salt()) == self.output()
    }

    /// Hashes `password` under `salt`; `None` if the salt is shorter than 8 bytes
    /// or either input exceeds the hash function's limits.
    pub fn new(password: &[u8], salt: Vec<u8>) -> (r: Option<Self>)
        ensures
            r is Some <==> (password@.len() <= MAX_PASSWORD_LEN && 8 <= salt@.len() <= 0xFFFF_FFFF),
            r is Some ==> r->0.salt() == salt@ && r->0.output() == argon2_output(password@, salt@),
            r is Some ==> r->0.verifies(password@),
    {
        match argon2_hash(password, salt.as_slice()) {
            Some(hash) => Some(PasswordHash { salt, hash }),
            None => None,
        }
    }

    /// Hashes `password` under a salt freshly drawn from the operating system's
    /// generator; `None` only when the generator fails. Accepts every password
    /// the hash function accepts, the empty one included.
    pub fn from_default(password: &[u8]) -> (r: Option<Self>)
        requires
            password@.len() <= MAX_PASSWORD_LEN,
        ensures
            r is Some ==> r->0.salt().len() == SALT_LEN,
            r is Some ==> r->0.output() == argon2_output(password@, r->0.salt()),
            r is Some ==> r->0.verifies(password@),
    {
        match os_random(SALT_LEN) {
            Some(salt) => Self::new(password, salt),
            None => None,
        }
    }

    /// Checks `password` against the stored hash, comparing in constant time.
    pub fn verify(&self, password: &[u8]) -> (r: Result<(), PasswordMismatch>)
        ensures
            r is Ok <==> self.verifies(password@),
    {
        proof {
            use_type_invariant(self);
        }
        match argon2_hash(password, self.salt.as_slice()) {
            Some(candidate) => {
                if ct_equal(candidate.as_slice(), self.hash.as_slice()) {
                    Ok(())
                } else {
                    Err(PasswordMismatch)
                }
            },
            None => Err(PasswordMismatch),
        }
    }

    /// The hash output, used as the key of the encrypted state files.
    pub fn as_bytes(&self) -> (r: Vec<u8>)
        ensures
            r@ == self.output(),
            r@.len() == HASH_OUTPUT_LEN,
    {
        proof {
            use_type_invariant(self);
        }
        self.hash.clone()
    }

    /// A copy of `self`.
    pub fn duplicate(&self) -> (r: Self)
        ensures
            r.salt() == self.salt(),
            r.output() == self.output(),
    {
        proof {
            use_type_invariant(self);
        }
        PasswordHash { salt: self.salt.clone(), hash: self.hash.clone() }
    }
}

/// A hash verifies the password it was computed from.
pub proof fn lemma_hash_verifies_its_password(hash: PasswordHash, password: Seq<u8>)
    requires
        password.len() <= MAX_PASSWORD_LEN,
        hash.output() == argon2_output(password, hash.salt()),
    ensures
        hash.verifies(password),
{
}

} // verus!
