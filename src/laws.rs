//! Properties that hold of every backend that meets the capability contracts.

use crate::crypto::{Crypto, EcdsaPub, EcdsaSignature, Hasher};
use crate::profile::DpeProfile;
use crate::response::DpeErrorCode;
use vstd::prelude::*;

verus! {

/// Two successful derivations of a secret from the same profile, measurement
/// digest and info string give the same secret.
pub proof fn lemma_derive_cdi_deterministic<C: Crypto>(
    profile: DpeProfile,
    measurement1: &[u8],
    info1: &[u8],
    first: Result<C::Cdi, DpeErrorCode>,
    measurement2: &[u8],
    info2: &[u8],
    second: Result<C::Cdi, DpeErrorCode>,
)
    requires
        measurement1@ == measurement2@,
        info1@ == info2@,
        call_ensures(C::derive_cdi, (profile, measurement1, info1), first),
        call_ensures(C::derive_cdi, (profile, measurement2, info2), second),
        first is Ok,
        second is Ok,
    ensures
        first == second,
{
}

/// Two successful derivations of a public key from the same profile, secret,
/// label and info string give the same key.
pub proof fn lemma_derive_ecdsa_pub_deterministic<C: Crypto>(
    profile: DpeProfile,
    cdi: &C::Cdi,
    label1: &[u8],
    info1: &[u8],
    first: Result<EcdsaPub, DpeErrorCode>,
    label2: &[u8],
    info2: &[u8],
    second: Result<EcdsaPub, DpeErrorCode>,
)
    requires
        label1@ == label2@,
        info1@ == info2@,
        call_ensures(C::derive_ecdsa_pub, (profile, cdi, label1, info1), first),
        call_ensures(C::derive_ecdsa_pub, (profile, cdi, label2, info2), second),
        first is Ok,
        second is Ok,
    ensures
        first->Ok_0.x@ == second->Ok_0.x@,
        first->Ok_0.y@ == second->Ok_0.y@,
{
}

/// Feeding `a` and then `b` to a fresh running hash and finishing it gives the
/// digest that the one-shot `hash` gives for `a || b`.
pub proof fn lemma_streaming_equivalence<C: Crypto>(
    profile: DpeProfile,
    a: Seq<u8>,
    b: Seq<u8>,
    fresh: C::Hasher,
    after_a: C::Hasher,
    after_b: C::Hasher,
)
    requires
        call_ensures(C::hash_initialize, (profile,), Ok::<C::Hasher, DpeErrorCode>(fresh)),
        after_a.profile() == fresh.profile(),
        after_a.absorbed() == fresh.absorbed() + a,
        after_b.profile() == after_a.profile(),
        after_b.absorbed() == after_a.absorbed() + b,
    ensures
        <C::Hasher as Hasher>::digest_of(after_b.profile(), after_b.absorbed())
            == <C::Hasher as Hasher>::digest_of(profile, a + b),
{
    assert(after_b.absorbed() =~= a + b);
}

/// A public key sized for a profile serializes to twice the profile's
/// elliptic-curve integer size.
pub proof fn lemma_encoding_size(key: EcdsaPub, profile: DpeProfile)
    requires
        key.sized_for(profile),
    ensures
        key.encoding().len() == 2 * profile.ecc_int_size(),
{
}

/// Every value a backend hands out has the sizes its profile prescribes: a
/// derived public key serializes to twice the elliptic-curve integer size, a
/// signature's `r` and `s` are each that size.
pub proof fn lemma_size_invariants<C: Crypto>(
    profile: DpeProfile,
    cdi: &C::Cdi,
    label: &[u8],
    info: &[u8],
    key: EcdsaPub,
    digest: &[u8],
    sig: EcdsaSignature,
)
    requires
        call_ensures(
            C::derive_ecdsa_pub,
            (profile, cdi, label, info),
            Ok::<EcdsaPub, DpeErrorCode>(key),
        ),
        call_ensures(
            C::ecdsa_sign_with_alias,
            (profile, digest),
            Ok::<EcdsaSignature, DpeErrorCode>(sig),
        ),
    ensures
        key.encoding().len() == 2 * profile.ecc_int_size(),
        sig.r@.len() == profile.ecc_int_size(),
        sig.s@.len() == profile.ecc_int_size(),
{
    lemma_encoding_size(key, profile);
}

/// A digest that a running hash writes is exactly the profile's digest size.
pub proof fn lemma_digest_size<H: Hasher>(state: H, digest: &mut [u8], r: Result<(), DpeErrorCode>)
    requires
        call_ensures(H::finish, (state, digest), r),
        r is Ok,
    ensures
        H::digest_of(state.profile(), state.absorbed()).len() == state.profile().hash_size(),
{
}

/// Serializing a key sized for a profile into a destination of at least twice
/// the profile's elliptic-curve integer size writes exactly that many bytes.
pub proof fn lemma_serialize_size(
    key: &EcdsaPub,
    profile: DpeProfile,
    dst: &mut [u8],
    r: Result<usize, DpeErrorCode>,
)
    requires
        key.sized_for(profile),
        old(dst)@.len() >= 2 * profile.ecc_int_size(),
        call_ensures(EcdsaPub::serialize, (key, dst), r),
    ensures
        r matches Ok(n) && n == 2 * profile.ecc_int_size(),
        final(dst)@.subrange(0, 2 * profile.ecc_int_size() as int) == key.encoding(),
{
}

/// Serializing a key sized for a profile into a destination one byte shorter
/// than twice the profile's elliptic-curve integer size fails and leaves the
/// destination as it was.
pub proof fn lemma_serialize_rejects_short(
    key: &EcdsaPub,
    profile: DpeProfile,
    dst: &mut [u8],
    r: Result<usize, DpeErrorCode>,
)
    requires
        key.sized_for(profile),
        old(dst)@.len() == 2 * profile.ecc_int_size() - 1,
        call_ensures(EcdsaPub::serialize, (key, dst), r),
    ensures
        r == Err::<usize, DpeErrorCode>(DpeErrorCode::InternalError),
        final(dst)@ == old(dst)@,
{
}

} // verus!
