use vstd::prelude::*;

verus! {

/// A cryptographic profile: the hash algorithm, digest size, elliptic-curve
/// integer size and base-secret size chosen for an attestation session.
#[derive(Debug, Clone, Copy, PartialEq, Eq, Structural)]
pub enum DpeProfile {
    /// NIST P-256 with SHA-256.
    P256Sha256,
    /// NIST P-384 with SHA-384.
    P384Sha384,
}

/// Profile used where a value is built without an explicit profile.
pub const DPE_PROFILE: DpeProfile = DpeProfile::P256Sha256;

impl DpeProfile {
    /// Digest length in bytes.
    pub open spec fn hash_size(self) -> nat {
        match self {
            DpeProfile::P256Sha256 => 32,
            DpeProfile::P384Sha384 => 48,
        }
    }

    /// Length in bytes of one elliptic-curve field element.
    pub open spec fn ecc_int_size(self) -> nat {
        match self {
            DpeProfile::P256Sha256 => 32,
            DpeProfile::P384Sha384 => 48,
        }
    }

    /// Length in bytes of a base secret.
    pub open spec fn cdi_size(self) -> nat {
        self.hash_size()
    }

    pub fn get_hash_size(&self) -> (r: usize)
        ensures
            r == self.hash_size(),
    {
        match self {
            DpeProfile::P256Sha256 => 32,
            DpeProfile::P384Sha384 => 48,
        }
    }

    pub fn get_ecc_int_size(&self) -> (r: usize)
        ensures
            r == self.ecc_int_size(),
    {
        match self {
            DpeProfile::P256Sha256 => 32,
            DpeProfile::P384Sha384 => 48,
        }
    }

    pub fn get_cdi_size(&self) -> (r: usize)
        ensures
            r == self.cdi_size(),
    {
        self.get_hash_size()
    }
}

} // verus!
