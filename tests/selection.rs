use hash_kernels::caps::{Capabilities, Feature};
use hash_kernels::registry::{
    kernel_table, resolve, select, Algorithm, Arch, BuildError, Family, KernelId, Target,
};
use hash_kernels::{sha1, sha2};

fn linux(arch: Arch) -> Target {
    Target { arch, family: Family::Unix, apple: false }
}

fn all_x86() -> Capabilities {
    Capabilities::none().with(Feature::Avx2).with(Feature::ShaNi).with(Feature::Aes)
}

#[test]
fn no_features_picks_generic_everywhere() {
    let none = Capabilities::none();
    for alg in [
        Algorithm::Md5,
        Algorithm::Sha1,
        Algorithm::Sha256,
        Algorithm::Sha512,
        Algorithm::Whirlpool,
    ] {
        let d = resolve(alg, linux(Arch::X86_64), &none).unwrap();
        assert_eq!(d.kernel, KernelId::Generic);
        assert!(d.required.is_none());
    }
}

#[test]
fn sha256_prefers_sha_instructions_then_avx2() {
    let t = linux(Arch::X86_64);
    let caps = all_x86();
    assert_eq!(resolve(Algorithm::Sha256, t, &caps).unwrap().kernel, KernelId::ShaNi);
    let avx = Capabilities::only(Feature::Avx2);
    assert_eq!(resolve(Algorithm::Sha256, t, &avx).unwrap().kernel, KernelId::Avx2);
    let aes = Capabilities::only(Feature::Aes);
    assert_eq!(resolve(Algorithm::Sha256, t, &aes).unwrap().kernel, KernelId::Generic);
}

#[test]
fn sha512_uses_avx2_when_present() {
    let t = linux(Arch::X86);
    let avx = Capabilities::only(Feature::Avx2);
    assert_eq!(resolve(Algorithm::Sha512, t, &avx).unwrap().kernel, KernelId::Avx2);
}

#[test]
fn aarch64_crypto_extension_is_gated_per_algorithm() {
    let t = linux(Arch::Aarch64);
    let sha1_only = Capabilities::from_hwcap(32);
    assert_eq!(resolve(Algorithm::Sha1, t, &sha1_only).unwrap().kernel, KernelId::ArmCrypto);
    assert_eq!(resolve(Algorithm::Sha256, t, &sha1_only).unwrap().kernel, KernelId::Generic);
    let both = Capabilities::from_hwcap(32 | 64);
    assert_eq!(resolve(Algorithm::Sha256, t, &both).unwrap().kernel, KernelId::ArmCrypto);
}

#[test]
fn selection_twice_gives_same_kernel() {
    let table = kernel_table(Algorithm::Sha256, linux(Arch::X86_64)).unwrap();
    let caps = Capabilities::only(Feature::Avx2);
    assert_eq!(select(&table, &caps), select(&table, &caps));
}

#[test]
fn more_features_never_rank_lower() {
    let table = kernel_table(Algorithm::Sha256, linux(Arch::X86_64)).unwrap();
    let small = Capabilities::only(Feature::Avx2);
    let big = small.with(Feature::ShaNi);
    assert!(small.is_subset_of(&big));
    assert!(select(&table, &big).rank >= select(&table, &small).rank);
    assert_eq!(select(&table, &big).kernel, KernelId::ShaNi);
}

#[test]
fn tables_end_with_generic_and_fall_in_rank() {
    let table = kernel_table(Algorithm::Sha256, linux(Arch::X86_64)).unwrap();
    assert_eq!(table.len(), 3);
    assert_eq!(table[2].kernel, KernelId::Generic);
    assert!(table[0].rank > table[1].rank && table[1].rank > table[2].rank);
}

#[test]
fn unsupported_targets_are_build_errors() {
    let win = Target { arch: Arch::X86_64, family: Family::Windows, apple: false };
    assert_eq!(kernel_table(Algorithm::Md5, win).unwrap_err(), BuildError::UnsupportedTarget);
    assert!(kernel_table(Algorithm::Sha256, win).is_ok());
    let arm = linux(Arch::Aarch64);
    assert_eq!(resolve(Algorithm::Sha512, arm, &Capabilities::none()), Err(BuildError::UnsupportedTarget));
    assert!(kernel_table(Algorithm::Whirlpool, arm).is_err());
    let loong = linux(Arch::LoongArch64);
    assert!(kernel_table(Algorithm::Sha1, loong).is_ok());
    assert!(kernel_table(Algorithm::Sha256, loong).is_err());
    assert!(kernel_table(Algorithm::Md5, linux(Arch::Other)).is_err());
}

#[test]
fn cpuid_bits_decode_to_named_features() {
    let caps = Capabilities::from_cpuid(1 << 25, (1 << 5) | (1 << 29));
    assert!(caps.has(Feature::Aes));
    assert!(caps.has(Feature::Avx2));
    assert!(caps.has(Feature::ShaNi));
    assert!(!caps.has(Feature::ArmSha1));
    let none = Capabilities::from_cpuid(!(1 << 25), !((1 << 5) | (1 << 29)));
    assert!(none.is_none());
}

#[test]
fn hwcap_bits_decode_to_named_features() {
    let caps = Capabilities::from_hwcap(8 | 32 | 64);
    assert!(caps.has(Feature::ArmAes));
    assert!(caps.has(Feature::ArmSha1));
    assert!(caps.has(Feature::ArmSha2));
    assert!(!caps.has(Feature::Avx2));
    assert!(Capabilities::from_hwcap(0).is_none());
}

#[test]
fn hwcap_sha_checks() {
    assert!(sha1::sha1_supported(32));
    assert!(!sha1::sha1_supported(64));
    assert!(sha2::sha1_supported(64));
    assert!(!sha2::sha1_supported(32));
    assert!(!sha1::sha1_supported(0));
}

#[test]
fn subset_relation() {
    let none = Capabilities::none();
    let avx = Capabilities::only(Feature::Avx2);
    assert!(none.is_subset_of(&avx));
    assert!(!avx.is_subset_of(&none));
    assert!(avx.is_subset_of(&avx));
}
