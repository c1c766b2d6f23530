use firecracker::cpuid::intel::{
    IntelCpuidNotSupported, Leaf10NotSupported, Leaf10Subleaf0NotSupported, Leaf14NotSupported,
    Leaf14Subleaf0NotSupported, Leaf5NotSupported, Leaf6NotSupported, Leaf7NotSupported,
    Leaf7Subleaf0NotSupported, Leaf80000008NotSupported, LeafFNotSupported,
    LeafFSubleaf0NotSupported,
};
use firecracker::cpuid::support::{
    leaf1_supports, Leaf10, Leaf14, Leaf7, LeafF, LEAF1_ECX_TSC_DEADLINE,
};
use firecracker::cpuid::{
    AmdCpuid, CCpuidResult, Cpuid, CpuidEntry, CpuidKey, CpuidNotSupported, IntelCpuid,
    KvmCpuidFlags, Leaf0NotSupported, Leaf1NotSupported,
};

const INTEL: (u32, u32, u32) = (0x756e_6547, 0x4965_6e69, 0x6c65_746e);

fn entry(leaf: u32, subleaf: u32, eax: u32, ebx: u32, ecx: u32, edx: u32) -> (CpuidKey, CpuidEntry) {
    (
        CpuidKey::subleaf(leaf, subleaf),
        CpuidEntry { flags: KvmCpuidFlags::empty(), result: CCpuidResult { eax, ebx, ecx, edx } },
    )
}

fn host() -> IntelCpuid {
    IntelCpuid(vec![
        entry(0x0, 0, 0x1f, INTEL.0, INTEL.2, INTEL.1),
        entry(0x1, 0, 0x000906ea, 0x0010_0800, 0x7ffa_3203, 0xbfeb_fbff),
        entry(0x5, 0, 0x40, 0x40, 0x3, 0x1120),
        entry(0x6, 0, 0x4f7, 0x2, 0x9, 0),
        entry(0x7, 0, 0x1, 0x029c_67af, 0x0000_0018, 0xbc00_0400),
        entry(0x7, 1, 0x10, 0, 0, 0),
        entry(0xA, 0, 0x0760_0001, 0, 0, 0x8603),
        entry(0x10, 0, 0, 0xe, 0, 0),
        entry(0x14, 0, 1, 0x1f, 0x7, 0),
        entry(0x8000_0000, 0, 0x8000_0008, 0, 0, 0),
        entry(0x8000_0001, 0, 0, 0, 0x121, 0x2c10_0800),
        entry(0x8000_0008, 0, 0x3027, 0, 0, 0),
    ])
}

fn with_result(c: &IntelCpuid, leaf: u32, subleaf: u32, r: CCpuidResult) -> IntelCpuid {
    let mut c = c.clone();
    c.get_mut(&CpuidKey::subleaf(leaf, subleaf)).unwrap().result = r;
    c
}

fn result_of(c: &IntelCpuid, leaf: u32, subleaf: u32) -> CCpuidResult {
    c.get(&CpuidKey::subleaf(leaf, subleaf)).unwrap().result
}

fn without(c: &IntelCpuid, leaf: u32, subleaf: u32) -> IntelCpuid {
    let key = CpuidKey::subleaf(leaf, subleaf);
    IntelCpuid(c.0.iter().filter(|(k, _)| *k != key).cloned().collect())
}

#[test]
fn cpuid_supports_itself() {
    let c = host();
    assert_eq!(c.supports(&c), Ok(()));
    let amd = Cpuid::Amd(AmdCpuid(vec![entry(0x0, 0, 0x10, 0, 0, 0)]));
    assert_eq!(amd.supports(&amd), Ok(()));
    assert_eq!(Cpuid::Intel(c.clone()).supports(&Cpuid::Intel(c)), Ok(()));
}

#[test]
fn different_manufacturers_are_incompatible() {
    let intel = Cpuid::Intel(host());
    let amd = Cpuid::Amd(AmdCpuid(vec![entry(0x0, 0, 0x10, 0, 0, 0)]));
    assert_eq!(intel.supports(&amd), Err(CpuidNotSupported::Incompatible));
    assert_eq!(amd.supports(&intel), Err(CpuidNotSupported::Incompatible));
}

#[test]
fn missing_required_leaf() {
    let c = host();
    let no_leaf5 = without(&c, 0x5, 0);
    assert_eq!(no_leaf5.supports(&c), Err(IntelCpuidNotSupported::MissingLeaf5));
    assert_eq!(c.supports(&no_leaf5), Err(IntelCpuidNotSupported::MissingLeaf5));
    assert_eq!(no_leaf5.supports(&no_leaf5), Ok(()));
}

#[test]
fn leaf0_differences() {
    let c = host();
    let mut r = result_of(&c, 0x0, 0);
    r.eax = 0x20;
    let newer = with_result(&c, 0x0, 0, r);
    assert_eq!(newer.supports(&c), Ok(()));
    assert_eq!(
        c.supports(&newer),
        Err(IntelCpuidNotSupported::Leaf0(Leaf0NotSupported::MaximumInputValue(0x1f, 0x20)))
    );
}

#[test]
fn leaf1_sizes_and_flags() {
    let c = host();
    let base = result_of(&c, 0x1, 0);
    let mut smaller_clflush = base;
    smaller_clflush.ebx = 0x0010_0400;
    assert_eq!(
        leaf1_supports(&smaller_clflush, &base),
        Err(Leaf1NotSupported::CLFlush)
    );
    let mut fewer_ids = base;
    fewer_ids.ebx = 0x0008_0800;
    assert_eq!(
        leaf1_supports(&fewer_ids, &base),
        Err(Leaf1NotSupported::MaxAddressableLogicalProcessorIds)
    );
    let mut no_sse3 = base;
    no_sse3.ecx &= !1;
    assert_eq!(leaf1_supports(&no_sse3, &base), Err(Leaf1NotSupported::Ecx));
    assert_eq!(leaf1_supports(&base, &no_sse3), Ok(()));
    // TSC deadline, OSXSAVE and HTT are not compared.
    let mut other = base;
    other.ecx |= LEAF1_ECX_TSC_DEADLINE | 0x0800_0000;
    other.edx |= 0x1000_0000;
    let mut own = base;
    own.ecx &= !(LEAF1_ECX_TSC_DEADLINE | 0x0800_0000);
    own.edx &= !0x1000_0000;
    assert_eq!(leaf1_supports(&own, &other), Ok(()));
    // Reserved bits are not compared.
    let mut reserved = base;
    reserved.edx |= 1 << 10;
    assert_eq!(leaf1_supports(&base, &reserved), Ok(()));
    let mut no_fpu = base;
    no_fpu.edx &= !1;
    assert_eq!(leaf1_supports(&no_fpu, &base), Err(Leaf1NotSupported::Edx));
    assert_eq!(
        with_result(&c, 0x1, 0, no_fpu).supports(&c),
        Err(IntelCpuidNotSupported::Leaf1(Leaf1NotSupported::Edx))
    );
}

#[test]
fn leaf5_and_leaf6() {
    let c = host();
    let mut r5 = result_of(&c, 0x5, 0);
    r5.eax = 0x80;
    assert_eq!(
        with_result(&c, 0x5, 0, r5).supports(&c),
        Err(IntelCpuidNotSupported::Leaf5(Leaf5NotSupported::SmallestMonitorLineSize))
    );
    assert_eq!(c.supports(&with_result(&c, 0x5, 0, r5)), Ok(()));
    let mut r6 = result_of(&c, 0x6, 0);
    r6.ecx = 0x0101;
    assert_eq!(
        c.supports(&with_result(&c, 0x6, 0, r6)),
        Err(IntelCpuidNotSupported::Leaf6(Leaf6NotSupported::IntelThreadDirectorClasses))
    );
    let mut r6 = result_of(&c, 0x6, 0);
    r6.eax = 0;
    assert_eq!(
        with_result(&c, 0x6, 0, r6).supports(&c),
        Err(IntelCpuidNotSupported::Leaf6(Leaf6NotSupported::Eax))
    );
}

#[test]
fn leaf7_subleaves() {
    let c = host();
    let no_subleaf0 = without(&c, 0x7, 0);
    assert_eq!(
        no_subleaf0.supports(&c),
        Err(IntelCpuidNotSupported::Leaf7(Leaf7NotSupported::MissingSubleaf0))
    );
    assert_eq!(c.supports(&no_subleaf0), Ok(()));
    let no_subleaf1 = without(&c, 0x7, 1);
    assert_eq!(
        no_subleaf1.supports(&c),
        Err(IntelCpuidNotSupported::Leaf7(Leaf7NotSupported::MissingSubleaf1))
    );
    let mut r = result_of(&c, 0x7, 0);
    r.ebx = 0;
    assert_eq!(
        with_result(&c, 0x7, 0, r).supports(&c),
        Err(IntelCpuidNotSupported::Leaf7(Leaf7NotSupported::Subleaf0(
            Leaf7Subleaf0NotSupported::Ebx(0, 0x029c_67af)
        )))
    );
    // OSPKE (ECX bit 4) is not compared.
    let mut r = result_of(&c, 0x7, 0);
    r.ecx &= !0x10;
    assert_eq!(with_result(&c, 0x7, 0, r).supports(&c), Ok(()));
    let mut r = result_of(&c, 0x7, 0);
    r.ecx &= !0x8;
    assert_eq!(
        with_result(&c, 0x7, 0, r).supports(&c),
        Err(IntelCpuidNotSupported::Leaf7(Leaf7NotSupported::Subleaf0(
            Leaf7Subleaf0NotSupported::Ecx(0x10, 0x18)
        )))
    );
}

#[test]
fn resource_and_extended_leaves() {
    let c = host();
    let mut r = result_of(&c, 0x10, 0);
    r.ebx = 0x2;
    assert_eq!(
        with_result(&c, 0x10, 0, r).supports(&c),
        Err(IntelCpuidNotSupported::Leaf10(Leaf10NotSupported::Subleaf0(
            Leaf10Subleaf0NotSupported::Ebx
        )))
    );
    let mut r = result_of(&c, 0x14, 0);
    r.ecx = 0x3;
    assert_eq!(
        with_result(&c, 0x14, 0, r).supports(&c),
        Err(IntelCpuidNotSupported::Leaf14(Leaf14NotSupported::Subleaf0(
            Leaf14Subleaf0NotSupported::Ecx
        )))
    );
    let mut r = result_of(&c, 0x8000_0008, 0);
    r.eax = 0x3026;
    assert_eq!(
        with_result(&c, 0x8000_0008, 0, r).supports(&c),
        Err(IntelCpuidNotSupported::Leaf80000008(
            Leaf80000008NotSupported::PhysicalAddressBits
        ))
    );
    let no_ext = without(&c, 0x8000_0001, 0);
    assert_eq!(no_ext.supports(&c), Err(IntelCpuidNotSupported::MissingLeaf80000001));
}

#[test]
fn subleaf_structures() {
    let small = CCpuidResult { eax: 1, ebx: 0x10, ecx: 0, edx: 0 };
    let large = CCpuidResult { eax: 1, ebx: 0x30, ecx: 0, edx: 0 };
    assert_eq!(Leaf7(Some(&large), None).supports(&Leaf7(Some(&small), None)), Ok(()));
    assert_eq!(
        Leaf7(Some(&small), None).supports(&Leaf7(Some(&large), None)),
        Err(Leaf7NotSupported::Subleaf0(Leaf7Subleaf0NotSupported::Ebx(0x10, 0x30)))
    );
    assert_eq!(
        Leaf7(None, None).supports(&Leaf7(None, Some(&small))),
        Err(Leaf7NotSupported::MissingSubleaf1)
    );
    assert_eq!(
        LeafF(Some(&small), None).supports(&LeafF(Some(&large), None)),
        Err(LeafFNotSupported::Subleaf0(LeafFSubleaf0NotSupported::MaxRmidRange))
    );
    // Subleaf 2 of leaf 0x10 and subleaf 1 of leaf 0x14 are not compared.
    assert_eq!(
        Leaf10(None, None, None, None).supports(&Leaf10(None, None, Some(&small), None)),
        Ok(())
    );
    assert_eq!(
        Leaf10(None, None, None, None).supports(&Leaf10(Some(&small), None, None, None)),
        Err(Leaf10NotSupported::MissingSubleaf0)
    );
    assert_eq!(Leaf14(None, None).supports(&Leaf14(None, Some(&small))), Ok(()));
    assert_eq!(
        Leaf14(None, None).supports(&Leaf14(Some(&small), None)),
        Err(Leaf14NotSupported::MissingSubleaf0)
    );
}
