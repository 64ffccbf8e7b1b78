use vstd::prelude::*;
use crate::caps::{Capabilities, Feature};

verus! {

/// The hash algorithms whose compression step is dispatched.
#[derive(Clone, Copy, Debug, PartialEq, Eq, Structural)]
pub enum Algorithm {
    Md5,
    Sha1,
    Sha256,
    Sha512,
    Whirlpool,
}

/// An implementation technique for a compression kernel.
#[derive(Clone, Copy, Debug, PartialEq, Eq, Structural)]
pub enum KernelId {
    /// Plain integer instructions, one block at a time.
    Generic,
    /// x86 AVX2 with BMI2 rotations, several blocks per call.
    Avx2,
    /// x86 dedicated SHA instructions.
    ShaNi,
    /// AArch64 cryptographic extension.
    ArmCrypto,
}

/// One entry of a kernel table: what the kernel needs and how it ranks.
#[derive(Clone, Copy, Debug, PartialEq, Eq, Structural)]
pub struct KernelDescriptor {
    pub kernel: KernelId,
    pub required: Capabilities,
    pub rank: u8,
}

/// Processor architecture of a build target.
#[derive(Clone, Copy, Debug, PartialEq, Eq, Structural)]
pub enum Arch {
    X86,
    X86_64,
    Aarch64,
    LoongArch64,
    Other,
}

/// Operating system family of a build target.
#[derive(Clone, Copy, Debug, PartialEq, Eq, Structural)]
pub enum Family {
    Unix,
    Windows,
    Other,
}

/// What a build knows of the machine it is for.
#[derive(Clone, Copy, Debug, PartialEq, Eq, Structural)]
pub struct Target {
    pub arch: Arch,
    pub family: Family,
    /// Apple targets take the same kernels as other targets of their
    /// architecture, in another assembly dialect.
    pub apple: bool,
}

/// A build target for which an algorithm has no kernels.
#[derive(Clone, Copy, Debug, PartialEq, Eq, Structural)]
pub enum BuildError {
    UnsupportedTarget,
}

/// The two x86 architectures, 32- and 64-bit.
pub open spec fn is_x86(a: Arch) -> bool {
    a == Arch::X86 || a == Arch::X86_64
}

/// Whether a build of `alg` for target `t` has kernels at all.
pub open spec fn supported(alg: Algorithm, t: Target) -> bool {
    match alg {
        Algorithm::Md5 => is_x86(t.arch) && t.family != Family::Windows,
        Algorithm::Sha1 => is_x86(t.arch) || t.arch == Arch::Aarch64 || t.arch
            == Arch::LoongArch64,
        Algorithm::Sha256 => is_x86(t.arch) || t.arch == Arch::Aarch64,
        Algorithm::Sha512 => is_x86(t.arch),
        Algorithm::Whirlpool => is_x86(t.arch),
    }
}

/// A table entry for kernel `k` that needs no feature.
pub open spec fn needs_nothing(k: KernelId, rank: u8) -> KernelDescriptor {
    KernelDescriptor { kernel: k, required: caps_none(), rank }
}

/// A table entry for kernel `k` that needs feature `f` alone.
pub open spec fn needs(k: KernelId, f: Feature, rank: u8) -> KernelDescriptor {
    KernelDescriptor { kernel: k, required: caps_only(f), rank }
}

/// The empty feature set, field by field.
pub open spec fn caps_none() -> Capabilities {
    Capabilities {
        avx2: false,
        sha_ni: false,
        aes: false,
        arm_sha1: false,
        arm_sha2: false,
        arm_aes: false,
    }
}

/// The feature set holding `f` alone, field by field.
pub open spec fn caps_only(f: Feature) -> Capabilities {
    Capabilities {
        avx2: f == Feature::Avx2,
        sha_ni: f == Feature::ShaNi,
        aes: f == Feature::Aes,
        arm_sha1: f == Feature::ArmSha1,
        arm_sha2: f == Feature::ArmSha2,
        arm_aes: f == Feature::ArmAes,
    }
}

/// The kernels of `alg` that a build for `t` holds, fastest first. Dedicated
/// hash instructions rank above wide vectors, which rank above the generic
/// kernel; the generic kernel needs nothing and comes last.
pub open spec fn table_of(alg: Algorithm, t: Target) -> Seq<KernelDescriptor> {
    match alg {
        Algorithm::Sha1 => if t.arch == Arch::Aarch64 {
            seq![needs(KernelId::ArmCrypto, Feature::ArmSha1, 2), needs_nothing(KernelId::Generic, 0)]
        } else {
            seq![needs_nothing(KernelId::Generic, 0)]
        },
        Algorithm::Sha256 => if t.arch == Arch::Aarch64 {
            seq![needs(KernelId::ArmCrypto, Feature::ArmSha2, 2), needs_nothing(KernelId::Generic, 0)]
        } else {
            seq![
                needs(KernelId::ShaNi, Feature::ShaNi, 2),
                needs(KernelId::Avx2, Feature::Avx2, 1),
                needs_nothing(KernelId::Generic, 0),
            ]
        },
        Algorithm::Sha512 => seq![
            needs(KernelId::Avx2, Feature::Avx2, 1),
            needs_nothing(KernelId::Generic, 0),
        ],
        _ => seq![needs_nothing(KernelId::Generic, 0)],
    }
}

/// A kernel table fit for selection: not empty, ranks strictly falling along
/// the list, every entry but the last needing some feature, and the last
/// needing none.
pub open spec fn well_formed(t: Seq<KernelDescriptor>) -> bool {
    &&& t.len() > 0
    &&& t[t.len() - 1].required.is_empty()
    &&& forall|i: int| 0 <= i < t.len() - 1 ==> !(#[trigger] t[i]).required.is_empty()
    &&& forall|i: int, j: int| 0 <= i < j < t.len() ==> (#[trigger] t[i]).rank > (#[trigger] t[j]).rank
}

/// Whether the processor described by `caps` can run the kernel of `d`.
pub open spec fn eligible(d: KernelDescriptor, caps: Capabilities) -> bool {
    d.required.subset_of(caps)
}

/// Index of the first entry at or after `i` that `caps` makes eligible, or
/// the table's length where there is none.
pub open spec fn first_eligible_from(t: Seq<KernelDescriptor>, caps: Capabilities, i: int) -> int
    decreases t.len() - i,
{
    if i < 0 || i >= t.len() {
        t.len() as int
    } else if eligible(t[i], caps) {
        i
    } else {
        first_eligible_from(t, caps, i + 1)
    }
}

/// Index of the entry that selection picks: the first eligible one.
pub open spec fn selected(t: Seq<KernelDescriptor>, caps: Capabilities) -> int {
    first_eligible_from(t, caps, 0)
}

fn descriptor(kernel: KernelId, required: Capabilities, rank: u8) -> (r: KernelDescriptor)
    ensures
        r == (KernelDescriptor { kernel, required, rank }),
{
    KernelDescriptor { kernel, required, rank }
}

fn generic_only() -> (r: Vec<KernelDescriptor>)
    ensures
        r@ == seq![needs_nothing(KernelId::Generic, 0)],
{
    let mut v: Vec<KernelDescriptor> = Vec::new();
    let none = Capabilities::none();
    proof {
        lemma_none_is_caps_none(none);
    }
    v.push(descriptor(KernelId::Generic, none, 0));
    assert(v@ =~= seq![needs_nothing(KernelId::Generic, 0)]);
    v
}

fn accelerated_then_generic(k: KernelId, f: Feature, rank: u8) -> (r: Vec<KernelDescriptor>)
    ensures
        r@ == seq![needs(k, f, rank), needs_nothing(KernelId::Generic, 0)],
{
    let mut v: Vec<KernelDescriptor> = Vec::new();
    let c = Capabilities::only(f);
    assert(c == caps_only(f)) by {
        assert(c.contains(f));
        assert(c.avx2 == c.contains(Feature::Avx2));
        assert(c.sha_ni == c.contains(Feature::ShaNi));
        assert(c.aes == c.contains(Feature::Aes));
        assert(c.arm_sha1 == c.contains(Feature::ArmSha1));
        assert(c.arm_sha2 == c.contains(Feature::ArmSha2));
        assert(c.arm_aes == c.contains(Feature::ArmAes));
    }
    let none = Capabilities::none();
    proof {
        lemma_none_is_caps_none(none);
    }
    v.push(descriptor(k, c, rank));
    v.push(descriptor(KernelId::Generic, none, 0));
    assert(v@ =~= seq![needs(k, f, rank), needs_nothing(KernelId::Generic, 0)]);
    v
}

proof fn lemma_none_is_caps_none(c: Capabilities)
    requires
        c.is_empty(),
    ensures
        c == caps_none(),
{
    assert(!c.contains(Feature::Avx2));
    assert(!c.contains(Feature::ShaNi));
    assert(!c.contains(Feature::Aes));
    assert(!c.contains(Feature::ArmSha1));
    assert(!c.contains(Feature::ArmSha2));
    assert(!c.contains(Feature::ArmAes));
}

/// The kernel table of `alg` for a build for target `t`, fastest first; an
/// error where the target has no kernel for `alg`.
pub fn kernel_table(alg: Algorithm, t: Target) -> (r: Result<Vec<KernelDescriptor>, BuildError>)
    ensures
        r is Ok <==> supported(alg, t),
        r matches Ok(v) ==> v@ == table_of(alg, t),
        r matches Err(e) ==> e == BuildError::UnsupportedTarget,
{
    let x86 = match t.arch {
        Arch::X86 | Arch::X86_64 => true,
        _ => false,
    };
    let aarch64 = match t.arch {
        Arch::Aarch64 => true,
        _ => false,
    };
    match alg {
        Algorithm::Md5 => {
            let windows = match t.family {
                Family::Windows => true,
                _ => false,
            };
            if x86 && !windows {
                Ok(generic_only())
            } else {
                Err(BuildError::UnsupportedTarget)
            }
        },
        Algorithm::Sha1 => {
            if aarch64 {
                Ok(accelerated_then_generic(KernelId::ArmCrypto, Feature::ArmSha1, 2))
            } else if x86 || t.arch == Arch::LoongArch64 {
                Ok(generic_only())
            } else {
                Err(BuildError::UnsupportedTarget)
            }
        },
        Algorithm::Sha256 => {
            if aarch64 {
                Ok(accelerated_then_generic(KernelId::ArmCrypto, Feature::ArmSha2, 2))
            } else if x86 {
                let mut v = accelerated_then_generic(KernelId::Avx2, Feature::Avx2, 1);
                let sha = Capabilities::only(Feature::ShaNi);
                assert(sha == caps_only(Feature::ShaNi)) by {
                    assert(sha.contains(Feature::ShaNi));
                    assert(!sha.contains(Feature::Avx2));
                    assert(!sha.contains(Feature::Aes));
                    assert(!sha.contains(Feature::ArmSha1));
                    assert(!sha.contains(Feature::ArmSha2));
                    assert(!sha.contains(Feature::ArmAes));
                }
                v.insert(0, descriptor(KernelId::ShaNi, sha, 2));
                assert(v@ =~= table_of(alg, t));
                Ok(v)
            } else {
                Err(BuildError::UnsupportedTarget)
            }
        },
        Algorithm::Sha512 => {
            if x86 {
                Ok(accelerated_then_generic(KernelId::Avx2, Feature::Avx2, 1))
            } else {
                Err(BuildError::UnsupportedTarget)
            }
        },
        Algorithm::Whirlpool => {
            if x86 {
                Ok(generic_only())
            } else {
                Err(BuildError::UnsupportedTarget)
            }
        },
    }
}

/// Selection: the first entry of `table` whose needs `caps` covers.
pub fn select(table: &Vec<KernelDescriptor>, caps: &Capabilities) -> (r: KernelDescriptor)
    requires
        well_formed(table@),
    ensures
        0 <= selected(table@, *caps) < table@.len(),
        r == table@[selected(table@, *caps)],
        eligible(r, *caps),
{
    proof {
        lemma_selected_is_first_eligible(table@, *caps);
    }
    let mut i: usize = 0;
    while i < table.len()
        invariant
            well_formed(table@),
            0 <= i <= table@.len(),
            first_eligible_from(table@, *caps, i as int) == selected(table@, *caps),
            selected(table@, *caps) < table@.len(),
        decreases table@.len() - i,
    {
        if table[i].required.is_subset_of(caps) {
            return table[i];
        }
        i = i + 1;
    }
    table[table.len() - 1]
}

/// The kernel that a build of `alg` for target `t` runs on a processor with
/// features `caps`: the first eligible entry of the target's table; an error
/// where the target has no kernel for `alg`.
pub fn resolve(alg: Algorithm, t: Target, caps: &Capabilities) -> (r: Result<KernelDescriptor, BuildError>)
    ensures
        r is Ok <==> supported(alg, t),
        r matches Ok(d) ==> d == table_of(alg, t)[selected(table_of(alg, t), *caps)],
        r matches Err(e) ==> e == BuildError::UnsupportedTarget,
{
    match kernel_table(alg, t) {
        Ok(table) => {
            proof {
                lemma_table_well_formed(alg, t);
            }
            Ok(select(&table, caps))
        },
        Err(e) => Err(e),
    }
}

proof fn lemma_first_eligible_from(t: Seq<KernelDescriptor>, caps: Capabilities, i: int)
    requires
        0 <= i <= t.len(),
    ensures
        i <= first_eligible_from(t, caps, i) <= t.len(),
        first_eligible_from(t, caps, i) < t.len() ==> eligible(
            t[first_eligible_from(t, caps, i)],
            caps,
        ),
        forall|j: int| i <= j < first_eligible_from(t, caps, i) ==> !eligible(#[trigger] t[j], caps),
    decreases t.len() - i,
{
    if i < t.len() && !eligible(t[i], caps) {
        lemma_first_eligible_from(t, caps, i + 1);
    }
}

/// Selection on a well-formed table always finds an entry: the one it picks
/// is eligible, and no entry before it is.
pub proof fn lemma_selected_is_first_eligible(t: Seq<KernelDescriptor>, caps: Capabilities)
    requires
        well_formed(t),
    ensures
        0 <= selected(t, caps) < t.len(),
        eligible(t[selected(t, caps)], caps),
        forall|j: int| 0 <= j < selected(t, caps) ==> !eligible(#[trigger] t[j], caps),
{
    lemma_first_eligible_from(t, caps, 0);
    if selected(t, caps) == t.len() {
        assert(!eligible(t[t.len() - 1], caps));
    }
}

/// Every table a build can have is fit for selection.
pub proof fn lemma_table_well_formed(alg: Algorithm, t: Target)
    ensures
        well_formed(table_of(alg, t)),
{
    let tb = table_of(alg, t);
    assert(caps_none().is_empty());
    assert(caps_only(Feature::ShaNi).contains(Feature::ShaNi));
    assert(caps_only(Feature::Avx2).contains(Feature::Avx2));
    assert(caps_only(Feature::ArmSha1).contains(Feature::ArmSha1));
    assert(caps_only(Feature::ArmSha2).contains(Feature::ArmSha2));
}

/// Selection is a function of the table and the features: two selections
/// with the same descriptor pick the same entry.
pub proof fn lemma_selection_deterministic(t: Seq<KernelDescriptor>, a: Capabilities, b: Capabilities)
    requires
        a == b,
    ensures
        selected(t, a) == selected(t, b),
        t[selected(t, a)] == t[selected(t, b)],
{
}

proof fn lemma_monotone_from(t: Seq<KernelDescriptor>, small: Capabilities, big: Capabilities, i: int)
    requires
        small.subset_of(big),
        0 <= i <= t.len(),
    ensures
        first_eligible_from(t, big, i) <= first_eligible_from(t, small, i),
    decreases t.len() - i,
{
    lemma_first_eligible_from(t, small, i);
    if i < t.len() {
        if eligible(t[i], small) {
            assert(eligible(t[i], big)) by {
                assert forall|f: Feature| #[trigger] t[i].required.contains(f) implies big.contains(f) by {
                    assert(small.contains(f));
                }
            }
        } else if !eligible(t[i], big) {
            lemma_monotone_from(t, small, big, i + 1);
        }
    }
}

/// A processor with more features never gets a lower-ranked kernel: with
/// `small` a subset of `big`, the entry picked for `big` comes no later and
/// ranks no lower than the one picked for `small`.
pub proof fn lemma_selection_monotone(t: Seq<KernelDescriptor>, small: Capabilities, big: Capabilities)
    requires
        well_formed(t),
        small.subset_of(big),
    ensures
        selected(t, big) <= selected(t, small),
        t[selected(t, big)].rank >= t[selected(t, small)].rank,
{
    lemma_monotone_from(t, small, big, 0);
    lemma_selected_is_first_eligible(t, small);
    lemma_selected_is_first_eligible(t, big);
    if selected(t, big) < selected(t, small) {
        assert(t[selected(t, big)].rank > t[selected(t, small)].rank);
    }
}

/// With no feature at all, selection succeeds and picks the last entry, the
/// one that needs nothing.
pub proof fn lemma_baseline_without_features(t: Seq<KernelDescriptor>, caps: Capabilities)
    requires
        well_formed(t),
        caps.is_empty(),
    ensures
        selected(t, caps) == t.len() - 1,
        t[selected(t, caps)].required.is_empty(),
{
    lemma_selected_is_first_eligible(t, caps);
    let s = selected(t, caps);
    if s < t.len() - 1 {
        assert(!t[s].required.is_empty());
        let f = choose|f: Feature| #[trigger] t[s].required.contains(f);
        assert(!caps.contains(f));
    }
}

} // verus!
