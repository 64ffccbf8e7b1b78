use vstd::prelude::*;

verus! {

/// Bit of CPUID leaf 1, register ECX, that reports the AES instructions.
pub const CPUID1_ECX_AES: u32 = 0x0200_0000;

/// Bit of CPUID leaf 7 (sub-leaf 0), register EBX, that reports AVX2.
pub const CPUID7_EBX_AVX2: u32 = 0x0000_0020;

/// Bit of CPUID leaf 7 (sub-leaf 0), register EBX, that reports the SHA extensions.
pub const CPUID7_EBX_SHA: u32 = 0x2000_0000;

/// Bit of the AArch64 `AT_HWCAP` auxiliary vector entry for the AES instructions.
pub const HWCAP_AES: u64 = 8;

/// Bit of the AArch64 `AT_HWCAP` auxiliary vector entry for the SHA-1 instructions.
pub const HWCAP_SHA1: u64 = 32;

/// Bit of the AArch64 `AT_HWCAP` auxiliary vector entry for the SHA-256 instructions.
pub const HWCAP_SHA2: u64 = 64;

/// A hardware feature that a kernel may need.
#[derive(Clone, Copy, Debug, PartialEq, Eq, Structural)]
pub enum Feature {
    /// x86 256-bit integer vector extension.
    Avx2,
    /// x86 dedicated SHA instructions.
    ShaNi,
    /// x86 AES instructions.
    Aes,
    /// AArch64 SHA-1 instructions.
    ArmSha1,
    /// AArch64 SHA-256 instructions.
    ArmSha2,
    /// AArch64 AES instructions.
    ArmAes,
}

/// The set of features a processor offers, or a kernel needs.
#[derive(Clone, Copy, Debug, PartialEq, Eq, Structural)]
pub struct Capabilities {
    pub avx2: bool,
    pub sha_ni: bool,
    pub aes: bool,
    pub arm_sha1: bool,
    pub arm_sha2: bool,
    pub arm_aes: bool,
}

impl Capabilities {
    /// Whether feature `f` is in the set.
    pub open spec fn contains(self, f: Feature) -> bool {
        match f {
            Feature::Avx2 => self.avx2,
            Feature::ShaNi => self.sha_ni,
            Feature::Aes => self.aes,
            Feature::ArmSha1 => self.arm_sha1,
            Feature::ArmSha2 => self.arm_sha2,
            Feature::ArmAes => self.arm_aes,
        }
    }

    /// Every feature of `self` is a feature of `other`.
    pub open spec fn subset_of(self, other: Capabilities) -> bool {
        forall|f: Feature| #[trigger] self.contains(f) ==> other.contains(f)
    }

    /// No feature at all.
    pub open spec fn is_empty(self) -> bool {
        forall|f: Feature| !#[trigger] self.contains(f)
    }

    /// The descriptor that claims no feature.
    pub fn none() -> (r: Capabilities)
        ensures
            r.is_empty(),
    {
        Capabilities {
            avx2: false,
            sha_ni: false,
            aes: false,
            arm_sha1: false,
            arm_sha2: false,
            arm_aes: false,
        }
    }

    /// The descriptor that claims exactly the features `f` holds.
    pub fn only(f: Feature) -> (r: Capabilities)
        ensures
            forall|g: Feature| #[trigger] r.contains(g) <==> g == f,
    {
        with_feature(Capabilities::none(), f)
    }

    /// This set with feature `f` added.
    pub fn with(&self, f: Feature) -> (r: Capabilities)
        ensures
            forall|g: Feature| #[trigger] r.contains(g) <==> (self.contains(g) || g == f),
    {
        with_feature(*self, f)
    }

    /// Whether feature `f` is in the set.
    pub fn has(&self, f: Feature) -> (r: bool)
        ensures
            r == self.contains(f),
    {
        match f {
            Feature::Avx2 => self.avx2,
            Feature::ShaNi => self.sha_ni,
            Feature::Aes => self.aes,
            Feature::ArmSha1 => self.arm_sha1,
            Feature::ArmSha2 => self.arm_sha2,
            Feature::ArmAes => self.arm_aes,
        }
    }

    /// Whether every feature of `self` is a feature of `other`.
    pub fn is_subset_of(&self, other: &Capabilities) -> (r: bool)
        ensures
            r == self.subset_of(*other),
    {
        let r = (!self.avx2 || other.avx2) && (!self.sha_ni || other.sha_ni) && (!self.aes
            || other.aes) && (!self.arm_sha1 || other.arm_sha1) && (!self.arm_sha2
            || other.arm_sha2) && (!self.arm_aes || other.arm_aes);
        proof {
            if !r {
                if self.avx2 && !other.avx2 {
                    assert(self.contains(Feature::Avx2));
                } else if self.sha_ni && !other.sha_ni {
                    assert(self.contains(Feature::ShaNi));
                } else if self.aes && !other.aes {
                    assert(self.contains(Feature::Aes));
                } else if self.arm_sha1 && !other.arm_sha1 {
                    assert(self.contains(Feature::ArmSha1));
                } else if self.arm_sha2 && !other.arm_sha2 {
                    assert(self.contains(Feature::ArmSha2));
                } else {
                    assert(self.contains(Feature::ArmAes));
                }
            }
        }
        r
    }

    /// Whether the set is empty.
    pub fn is_none(&self) -> (r: bool)
        ensures
            r == self.is_empty(),
    {
        let r = !self.avx2 && !self.sha_ni && !self.aes && !self.arm_sha1 && !self.arm_sha2
            && !self.arm_aes;
        proof {
            if !r {
                if self.avx2 {
                    assert(self.contains(Feature::Avx2));
                } else if self.sha_ni {
                    assert(self.contains(Feature::ShaNi));
                } else if self.aes {
                    assert(self.contains(Feature::Aes));
                } else if self.arm_sha1 {
                    assert(self.contains(Feature::ArmSha1));
                } else if self.arm_sha2 {
                    assert(self.contains(Feature::ArmSha2));
                } else {
                    assert(self.contains(Feature::ArmAes));
                }
            }
        }
        r
    }

    /// Decodes the x86 processor identification registers: ECX of leaf 1 and
    /// EBX of leaf 7, sub-leaf 0. Features of the other architecture are absent.
    pub fn from_cpuid(leaf1_ecx: u32, leaf7_ebx: u32) -> (r: Capabilities)
        ensures
            r.contains(Feature::Aes) == (leaf1_ecx & CPUID1_ECX_AES != 0),
            r.contains(Feature::Avx2) == (leaf7_ebx & CPUID7_EBX_AVX2 != 0),
            r.contains(Feature::ShaNi) == (leaf7_ebx & CPUID7_EBX_SHA != 0),
            !r.contains(Feature::ArmSha1),
            !r.contains(Feature::ArmSha2),
            !r.contains(Feature::ArmAes),
    {
        Capabilities {
            avx2: leaf7_ebx & CPUID7_EBX_AVX2 != 0,
            sha_ni: leaf7_ebx & CPUID7_EBX_SHA != 0,
            aes: leaf1_ecx & CPUID1_ECX_AES != 0,
            arm_sha1: false,
            arm_sha2: false,
            arm_aes: false,
        }
    }

    /// Decodes the AArch64 `AT_HWCAP` bit mask. Features of the other
    /// architecture are absent.
    pub fn from_hwcap(hwcap: u64) -> (r: Capabilities)
        ensures
            r.contains(Feature::ArmAes) == (hwcap & HWCAP_AES != 0),
            r.contains(Feature::ArmSha1) == (hwcap & HWCAP_SHA1 != 0),
            r.contains(Feature::ArmSha2) == (hwcap & HWCAP_SHA2 != 0),
            !r.contains(Feature::Avx2),
            !r.contains(Feature::ShaNi),
            !r.contains(Feature::Aes),
    {
        Capabilities {
            avx2: false,
            sha_ni: false,
            aes: false,
            arm_sha1: hwcap & HWCAP_SHA1 != 0,
            arm_sha2: hwcap & HWCAP_SHA2 != 0,
            arm_aes: hwcap & HWCAP_AES != 0,
        }
    }
}

fn with_feature(c: Capabilities, f: Feature) -> (r: Capabilities)
    ensures
        forall|g: Feature| #[trigger] r.contains(g) <==> (c.contains(g) || g == f),
{
    let mut r = c;
    match f {
        Feature::Avx2 => r.avx2 = true,
        Feature::ShaNi => r.sha_ni = true,
        Feature::Aes => r.aes = true,
        Feature::ArmSha1 => r.arm_sha1 = true,
        Feature::ArmSha2 => r.arm_sha2 = true,
        Feature::ArmAes => r.arm_aes = true,
    }
    r
}

} // verus!
