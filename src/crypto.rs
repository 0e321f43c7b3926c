//! Public-key and signature values, and the capability traits that a
//! cryptographic backend implements.

use crate::profile::{DpeProfile, DPE_PROFILE};
use crate::response::DpeErrorCode;
use vstd::prelude::*;

verus! {

/// An ECDSA signature: the integers `r` and `s`, big-endian.
pub struct EcdsaSignature {
    pub r: Vec<u8>,
    pub s: Vec<u8>,
}

/// An ECDSA public key: the affine coordinates `x` and `y`, big-endian.
pub struct EcdsaPub {
    pub x: Vec<u8>,
    pub y: Vec<u8>,
}

/// A sequence of `n` zero bytes.
pub open spec fn zeros(n: nat) -> Seq<u8> {
    Seq::new(n, |i: int| 0u8)
}

fn zero_bytes(n: usize) -> (r: Vec<u8>)
    ensures
        r@ == zeros(n as nat),
{
    let mut v: Vec<u8> = Vec::with_capacity(n);
    let mut i: usize = 0;
    while i < n
        invariant
            i <= n,
            v@ == zeros(i as nat),
        decreases n - i,
    {
        v.push(0u8);
        i += 1;
        assert(v@ =~= zeros(i as nat));
    }
    v
}

impl EcdsaSignature {
    /// Both components are exactly the profile's elliptic-curve integer size.
    pub open spec fn sized_for(&self, profile: DpeProfile) -> bool {
        &&& self.r@.len() == profile.ecc_int_size()
        &&& self.s@.len() == profile.ecc_int_size()
    }

    /// An all-zero signature sized for `profile`, to be filled by a backend.
    pub fn new(profile: DpeProfile) -> (r: EcdsaSignature)
        ensures
            r.sized_for(profile),
            r.r@ == zeros(profile.ecc_int_size()),
            r.s@ == zeros(profile.ecc_int_size()),
    {
        let n = profile.get_ecc_int_size();
        EcdsaSignature { r: zero_bytes(n), s: zero_bytes(n) }
    }
}

impl Default for EcdsaSignature {
    fn default() -> (r: EcdsaSignature)
        ensures
            r.sized_for(DPE_PROFILE),
            r.r@ == zeros(DPE_PROFILE.ecc_int_size()),
            r.s@ == zeros(DPE_PROFILE.ecc_int_size()),
    {
        EcdsaSignature::new(DPE_PROFILE)
    }
}

impl EcdsaPub {
    /// Both coordinates are exactly the profile's elliptic-curve integer size.
    pub open spec fn sized_for(&self, profile: DpeProfile) -> bool {
        &&& self.x@.len() == profile.ecc_int_size()
        &&& self.y@.len() == profile.ecc_int_size()
    }

    /// Sized for one of the profiles.
    pub open spec fn well_sized(&self) -> bool {
        self.sized_for(DpeProfile::P256Sha256) || self.sized_for(DpeProfile::P384Sha384)
    }

    /// The flat encoding `x || y`.
    pub open spec fn encoding(&self) -> Seq<u8> {
        self.x@ + self.y@
    }

    /// An all-zero key sized for `profile`, to be filled by a backend.
    pub fn new(profile: DpeProfile) -> (r: EcdsaPub)
        ensures
            r.sized_for(profile),
            r.x@ == zeros(profile.ecc_int_size()),
            r.y@ == zeros(profile.ecc_int_size()),
    {
        let n = profile.get_ecc_int_size();
        EcdsaPub { x: zero_bytes(n), y: zero_bytes(n) }
    }

    /// Writes `x || y` at the start of `dst` and returns the number of bytes
    /// written. Fails, leaving `dst` untouched, when the key is not sized for a
    /// profile or `dst` is too short.
    pub fn serialize(&self, dst: &mut [u8]) -> (r: Result<usize, DpeErrorCode>)
        ensures
            r is Ok <==> self.well_sized() && self.encoding().len() <= old(dst)@.len(),
            final(dst)@.len() == old(dst)@.len(),
            match r {
                Ok(n) => {
                    &&& n == self.encoding().len()
                    &&& final(dst)@.subrange(0, n as int) == self.encoding()
                    &&& final(dst)@.subrange(n as int, final(dst)@.len() as int)
                        == old(dst)@.subrange(n as int, old(dst)@.len() as int)
                },
                Err(e) => {
                    &&& e == DpeErrorCode::InternalError
                    &&& final(dst)@ == old(dst)@
                },
            },
    {
        let xl = self.x.len();
        let yl = self.y.len();
        let dl = dst.len();
        let sized = xl == yl && (xl == DpeProfile::P256Sha256.get_ecc_int_size()
            || xl == DpeProfile::P384Sha384.get_ecc_int_size());
        if !sized || dl < xl || dl - xl < yl {
            return Err(DpeErrorCode::InternalError);
        }
        let mut offset: usize = 0;
        while offset < xl
            invariant
                offset <= xl,
                xl == self.x@.len(),
                xl + yl <= dl,
                dl == dst@.len(),
                dst@.len() == old(dst)@.len(),
                forall|k: int| 0 <= k < offset ==> dst@[k] == self.x@[k],
                forall|k: int| offset <= k < dst@.len() ==> dst@[k] == old(dst)@[k],
            decreases xl - offset,
        {
            dst[offset] = self.x[offset];
            offset += 1;
        }
        let mut j: usize = 0;
        while j < yl
            invariant
                j <= yl,
                offset == xl,
                xl == self.x@.len(),
                yl == self.y@.len(),
                xl + yl <= dl,
                dl == dst@.len(),
                dst@.len() == old(dst)@.len(),
                forall|k: int| 0 <= k < xl ==> dst@[k] == self.x@[k],
                forall|k: int| 0 <= k < j ==> dst@[xl + k] == self.y@[k],
                forall|k: int| xl + j <= k < dst@.len() ==> dst@[k] == old(dst)@[k],
            decreases yl - j,
        {
            dst[offset + j] = self.y[j];
            j += 1;
        }
        let n = xl + yl;
        assert(dst@.subrange(0, n as int) =~= self.encoding());
        assert(dst@.subrange(n as int, dst@.len() as int)
            =~= old(dst)@.subrange(n as int, old(dst)@.len() as int));
        Ok(n)
    }
}

impl Default for EcdsaPub {
    fn default() -> (r: EcdsaPub)
        ensures
            r.sized_for(DPE_PROFILE),
            r.x@ == zeros(DPE_PROFILE.ecc_int_size()),
            r.y@ == zeros(DPE_PROFILE.ecc_int_size()),
    {
        EcdsaPub::new(DPE_PROFILE)
    }
}

/// Fills `dst` with the bytes 1, 2, 3, ... (wrapping after 255): the
/// deterministic stand-in for `rand_bytes` in a test backend.
pub fn fill_incrementing(dst: &mut [u8])
    ensures
        final(dst)@.len() == old(dst)@.len(),
        forall|i: int| 0 <= i < final(dst)@.len() ==> final(dst)@[i] == ((i + 1) % 256) as u8,
{
    let n = dst.len();
    let mut i: usize = 0;
    while i < n
        invariant
            i <= n,
            n == dst@.len(),
            dst@.len() == old(dst)@.len(),
            forall|k: int| 0 <= k < i ==> dst@[k] == ((k + 1) % 256) as u8,
        decreases n - i,
    {
        dst[i] = ((i % 256 + 1) % 256) as u8;
        i += 1;
    }
}

/// A running hash: opened for one profile, fed any number of chunks, and
/// consumed by `finish`, so that a finished state cannot be used again.
pub trait Hasher: Sized {
    /// The profile whose hash algorithm this state runs.
    spec fn profile(&self) -> DpeProfile;

    /// The bytes fed to this state so far, in order.
    spec fn absorbed(&self) -> Seq<u8>;

    /// The digest of `data` under the hash algorithm of `profile`.
    spec fn digest_of(profile: DpeProfile, data: Seq<u8>) -> Seq<u8>;

    /// Adds a chunk to the running hash. A chunk is applied whole or not at all.
    fn update(&mut self, bytes: &[u8]) -> (r: Result<(), DpeErrorCode>)
        ensures
            final(self).profile() == old(self).profile(),
            final(self).absorbed() == (if r is Ok {
                old(self).absorbed() + bytes@
            } else {
                old(self).absorbed()
            }),
    ;

    /// Finishes the running hash and writes the digest at the start of
    /// `digest`. Fails when `digest` is shorter than the profile's digest size.
    fn finish(self, digest: &mut [u8]) -> (r: Result<(), DpeErrorCode>)
        ensures
            final(digest)@.len() == old(digest)@.len(),
            old(digest)@.len() < self.profile().hash_size() ==> r is Err,
            r is Ok ==> final(digest)@.subrange(0, self.profile().hash_size() as int)
                == Self::digest_of(self.profile(), self.absorbed()),
            r is Ok ==> final(digest)@.subrange(
                self.profile().hash_size() as int,
                old(digest)@.len() as int,
            ) == old(digest)@.subrange(
                self.profile().hash_size() as int,
                old(digest)@.len() as int,
            ),
    ;
}

/// The capabilities that a cryptographic backend provides to the attestation
/// engine: random bytes, hashing, secret and key derivation, and signing with
/// the platform alias key.
///
/// The library implements no backend. Its building blocks for a deterministic
/// test backend are `fill_incrementing` and `OpensslHasher`; derivation and
/// signing would come from the `ossl_crypto` crate of the backend's own
/// workspace, which this library does not depend on.
pub trait Crypto {
    /// A derived secret, held only by the backend.
    type Cdi;

    /// The running-hash state of this backend.
    type Hasher: Hasher;

    /// The secret derived from the backend's base secret, a measurement digest
    /// and an info string.
    spec fn cdi_of(profile: DpeProfile, measurement: Seq<u8>, info: Seq<u8>) -> Self::Cdi;

    /// The coordinates `(x, y)` of the public key derived from a secret, a
    /// label and an info string.
    spec fn pub_of(profile: DpeProfile, cdi: Self::Cdi, label: Seq<u8>, info: Seq<u8>) -> (
        Seq<u8>,
        Seq<u8>,
    );

    /// `(r, s)` is a signature of `digest` by the platform alias key.
    spec fn alias_signed(profile: DpeProfile, digest: Seq<u8>, r: Seq<u8>, s: Seq<u8>) -> bool;

    /// Fills the whole of `dst` with random bytes.
    fn rand_bytes(dst: &mut [u8]) -> (r: Result<(), DpeErrorCode>)
        ensures
            final(dst)@.len() == old(dst)@.len(),
    ;

    /// Hashes `bytes` in one call: a fresh running hash fed `bytes` once and
    /// finished into `digest`.
    fn hash(profile: DpeProfile, bytes: &[u8], digest: &mut [u8]) -> (r: Result<(), DpeErrorCode>)
        ensures
            final(digest)@.len() == old(digest)@.len(),
            old(digest)@.len() < profile.hash_size() ==> r is Err,
            r is Ok ==> final(digest)@.subrange(0, profile.hash_size() as int)
                == <Self::Hasher as Hasher>::digest_of(profile, bytes@),
            r is Ok ==> final(digest)@.subrange(profile.hash_size() as int, old(digest)@.len() as int)
                == old(digest)@.subrange(profile.hash_size() as int, old(digest)@.len() as int),
    {
        let mut hasher = Self::hash_initialize(profile)?;
        hasher.update(bytes)?;
        assert(hasher.absorbed() =~= bytes@);
        hasher.finish(digest)
    }

    /// Opens a running hash for `profile`, for data held in several buffers.
    fn hash_initialize(profile: DpeProfile) -> (r: Result<Self::Hasher, DpeErrorCode>)
        ensures
            r matches Ok(h) ==> h.profile() == profile && h.absorbed() == Seq::<u8>::empty(),
    ;

    /// Derives a secret from the base secret, `measurement_digest` and `info`.
    fn derive_cdi(profile: DpeProfile, measurement_digest: &[u8], info: &[u8]) -> (r: Result<
        Self::Cdi,
        DpeErrorCode,
    >)
        ensures
            r matches Ok(c) ==> c == Self::cdi_of(profile, measurement_digest@, info@),
    ;

    /// Derives a key pair from `cdi`, `label` and `info`, and returns its
    /// public half.
    fn derive_ecdsa_pub(profile: DpeProfile, cdi: &Self::Cdi, label: &[u8], info: &[u8]) -> (r:
        Result<EcdsaPub, DpeErrorCode>)
        ensures
            r matches Ok(k) ==> {
                &&& k.sized_for(profile)
                &&& (k.x@, k.y@) == Self::pub_of(profile, *cdi, label@, info@)
            },
    ;

    /// Signs `digest` with the platform alias key.
    fn ecdsa_sign_with_alias(profile: DpeProfile, digest: &[u8]) -> (r: Result<
        EcdsaSignature,
        DpeErrorCode,
    >)
        ensures
            r matches Ok(sig) ==> {
                &&& sig.sized_for(profile)
                &&& Self::alias_signed(profile, digest@, sig.r@, sig.s@)
            },
    ;
}

} // verus!
