//! A running hash backed by OpenSSL's SHA-256 and SHA-384.

use crate::crypto::Hasher;
use crate::profile::DpeProfile;
use crate::response::DpeErrorCode;
use openssl::error::ErrorStack;
use openssl::hash::MessageDigest;
use vstd::prelude::*;

verus! {

/// OpenSSL's running digest context, held opaque.
#[verifier::external_body]
pub struct Digester {
    ctx: openssl::hash::Hasher,
}

#[verifier::external_type_specification]
#[verifier::external_body]
pub struct ExErrorStack(openssl::error::ErrorStack);

/// The bytes fed to an OpenSSL hasher since it was created or last finished.
pub uninterp spec fn ossl_fed(h: Digester) -> Seq<u8>;

/// The profile whose hash algorithm an OpenSSL hasher was created for.
pub uninterp spec fn ossl_profile(h: Digester) -> DpeProfile;

/// The digest that OpenSSL computes of `data` with the profile's hash algorithm.
pub uninterp spec fn ossl_digest(profile: DpeProfile, data: Seq<u8>) -> Seq<u8>;

/// Relies on `openssl::hash::Hasher::new` with `MessageDigest::sha256`: a
/// SHA-256 hasher that has been fed nothing.
#[verifier::external_body]
fn ossl_new_sha256() -> (r: Result<Digester, ErrorStack>)
    ensures
        r matches Ok(h) ==> ossl_fed(h) == Seq::<u8>::empty() && ossl_profile(h)
            == DpeProfile::P256Sha256,
{
    openssl::hash::Hasher::new(MessageDigest::sha256()).map(|ctx| Digester { ctx })
}

/// Relies on `openssl::hash::Hasher::new` with `MessageDigest::sha384`: a
/// SHA-384 hasher that has been fed nothing.
#[verifier::external_body]
fn ossl_new_sha384() -> (r: Result<Digester, ErrorStack>)
    ensures
        r matches Ok(h) ==> ossl_fed(h) == Seq::<u8>::empty() && ossl_profile(h)
            == DpeProfile::P384Sha384,
{
    openssl::hash::Hasher::new(MessageDigest::sha384()).map(|ctx| Digester { ctx })
}

/// Relies on `openssl::hash::Hasher::update`: on success `data` has been fed
/// to the hasher; the algorithm never changes.
#[verifier::external_body]
fn ossl_update(h: &mut Digester, data: &[u8]) -> (r: Result<(), ErrorStack>)
    ensures
        ossl_profile(*final(h)) == ossl_profile(*old(h)),
        r is Ok ==> ossl_fed(*final(h)) == ossl_fed(*old(h)) + data@,
{
    h.ctx.update(data)
}

/// Relies on `openssl::hash::Hasher::finish`: on success the digest of what
/// was fed, 32 bytes for SHA-256 and 48 for SHA-384.
#[verifier::external_body]
fn ossl_finish(h: &mut Digester) -> (r: Result<Vec<u8>, ErrorStack>)
    ensures
        r matches Ok(d) ==> {
            &&& d@ == ossl_digest(ossl_profile(*old(h)), ossl_fed(*old(h)))
            &&& d@.len() == ossl_profile(*old(h)).hash_size()
        },
{
    match h.ctx.finish() {
        Ok(d) => Ok(d.to_vec()),
        Err(e) => Err(e),
    }
}

/// A running SHA-256 or SHA-384 hash.
///
/// After OpenSSL rejects a chunk the state is marked failed: the chunk may
/// have been taken in part, so every later call fails and the bytes
/// absorbed stay as they were before that chunk.
pub struct OpensslHasher {
    inner: Digester,
    failed: bool,
    kept: Ghost<Seq<u8>>,
}

/// Writes `d` at the start of `digest`, leaving the rest as it was. Fails,
/// writing nothing, when `digest` is shorter than `d`.
pub fn write_digest(d: &Vec<u8>, digest: &mut [u8]) -> (r: Result<(), DpeErrorCode>)
    ensures
        final(digest)@.len() == old(digest)@.len(),
        r is Ok <==> d@.len() <= old(digest)@.len(),
        r is Ok ==> final(digest)@.subrange(0, d@.len() as int) == d@
            && final(digest)@.subrange(d@.len() as int, old(digest)@.len() as int)
            == old(digest)@.subrange(d@.len() as int, old(digest)@.len() as int),
        r is Err ==> final(digest)@ == old(digest)@,
{
    let n = d.len();
    if digest.len() < n {
        return Err(DpeErrorCode::InternalError);
    }
    let mut i: usize = 0;
    while i < n
        invariant
            i <= n,
            n == d@.len(),
            n <= digest@.len(),
            digest@.len() == old(digest)@.len(),
            forall|k: int| 0 <= k < i ==> digest@[k] == d@[k],
            forall|k: int| i <= k < digest@.len() ==> digest@[k] == old(digest)@[k],
        decreases n - i,
    {
        digest[i] = d[i];
        i += 1;
    }
    assert(digest@.subrange(0, n as int) =~= d@);
    assert(digest@.subrange(n as int, digest@.len() as int)
        =~= old(digest)@.subrange(n as int, old(digest)@.len() as int));
    Ok(())
}

impl OpensslHasher {
    /// A chunk was rejected earlier: every call on this state fails.
    pub closed spec fn is_failed(&self) -> bool {
        self.failed
    }

    /// Opens a running hash for `profile`.
    pub fn new(profile: DpeProfile) -> (r: Result<OpensslHasher, DpeErrorCode>)
        ensures
            r matches Ok(h) ==> h.profile() == profile && h.absorbed() == Seq::<u8>::empty()
                && !h.is_failed(),
    {
        let opened = match profile {
            DpeProfile::P256Sha256 => ossl_new_sha256(),
            DpeProfile::P384Sha384 => ossl_new_sha384(),
        };
        match opened {
            Ok(inner) => Ok(OpensslHasher { inner, failed: false, kept: Ghost(Seq::empty()) }),
            Err(_) => Err(DpeErrorCode::InternalError),
        }
    }
}

impl Hasher for OpensslHasher {
    closed spec fn profile(&self) -> DpeProfile {
        ossl_profile(self.inner)
    }

    closed spec fn absorbed(&self) -> Seq<u8> {
        if self.failed {
            self.kept@
        } else {
            ossl_fed(self.inner)
        }
    }

    open spec fn digest_of(profile: DpeProfile, data: Seq<u8>) -> Seq<u8> {
        ossl_digest(profile, data)
    }

    fn update(&mut self, bytes: &[u8]) -> (r: Result<(), DpeErrorCode>)
        ensures
            old(self).is_failed() ==> r is Err && final(self).is_failed(),
            r is Err ==> final(self).is_failed(),
            r is Ok ==> !final(self).is_failed(),
    {
        if self.failed {
            return Err(DpeErrorCode::InternalError);
        }
        let ghost before = ossl_fed(self.inner);
        match ossl_update(&mut self.inner, bytes) {
            Ok(()) => Ok(()),
            Err(_) => {
                self.failed = true;
                self.kept = Ghost(before);
                Err(DpeErrorCode::InternalError)
            },
        }
    }

    fn finish(self, digest: &mut [u8]) -> (r: Result<(), DpeErrorCode>)
        ensures
            self.is_failed() ==> r is Err && final(digest)@ == old(digest)@,
    {
        let mut this = self;
        if this.failed {
            return Err(DpeErrorCode::InternalError);
        }
        let d = match ossl_finish(&mut this.inner) {
            Ok(d) => d,
            Err(_) => return Err(DpeErrorCode::InternalError),
        };
        write_digest(&d, digest)
    }
}

} // verus!
