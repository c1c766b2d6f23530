use firecracker::cpuid::amd::{
    FeatureEntryError, HostExtendedTopology, NormalizeCpuidError as AmdNormalizeError,
};
use firecracker::cpuid::intel::{cpo, FeatureRelation, NormalizeCpuid, VmSpec};
use firecracker::cpuid::leaf2::{leaf2_descriptors, leaf2_of, leaf2_registers, UnknownKeyword};
use firecracker::cpuid::{check_host_leaf, is_same_model, vendor_id_of_leaf0, GetCpuidError};
use firecracker::cpuid::{
    get_max_cpus_per_package, get_vendor_id_from_cpuid, intel_msrs_to_save_by_cpuid,
    msrs_to_save_by_cpuid, support_warn, AmdCpuid, CCpuidResult, Cpuid, CpuidEntry, CpuidKey,
    CpuidTrait, CpuidTryFromRawCpuid, FeatureInformationError, GetMaxCpusPerPackageError,
    IntelCpuid,
    KvmCpuidFlags, Leaf, Leaf0NotSupported, MissingBrandStringLeaves, NormalizeCpuidError,
    RawKvmCpuidEntry,
};

const INTEL: (u32, u32, u32) = (0x756e_6547, 0x4965_6e69, 0x6c65_746e);
const AMD: (u32, u32, u32) = (0x6874_7541, 0x6974_6e65, 0x444d_4163);

fn raw(function: u32, index: u32, eax: u32, ebx: u32, ecx: u32, edx: u32) -> RawKvmCpuidEntry {
    RawKvmCpuidEntry { function, index, flags: 0, eax, ebx, ecx, edx }
}

fn entry(leaf: u32, subleaf: u32, eax: u32, ebx: u32, ecx: u32, edx: u32) -> (CpuidKey, CpuidEntry) {
    (
        CpuidKey::subleaf(leaf, subleaf),
        CpuidEntry { flags: KvmCpuidFlags::empty(), result: CCpuidResult { eax, ebx, ecx, edx } },
    )
}

fn intel_cpuid() -> IntelCpuid {
    IntelCpuid(vec![
        entry(0x0, 0, 0x1f, INTEL.0, INTEL.2, INTEL.1),
        entry(0x1, 0, 0x000906ea, 0xff00_0000, 0, 0),
        entry(0x4, 0, 1 << 5, 0, 0, 0),
        entry(0x4, 1, 3 << 5, 0, 0, 0),
        entry(0x6, 0, 0b10, 0, 0b1000, 0),
        entry(0xA, 0, 5, 6, 7, 8),
        entry(0xB, 0, 0xff, 0xff, 0xff, 0xff),
        entry(0xB, 1, 0xff, 0xff, 0xff, 0xff),
        entry(0xB, 2, 0xff, 0xff, 0xff, 0xff),
        entry(0x8000_0002, 0, 0, 0, 0, 0),
        entry(0x8000_0003, 0, 0, 0, 0, 0),
        entry(0x8000_0004, 0, 0, 0, 0, 0),
    ])
}

fn amd_cpuid() -> AmdCpuid {
    AmdCpuid(vec![
        entry(0x0, 0, 0x10, AMD.0, AMD.2, AMD.1),
        entry(0x1, 0, 0, 0, 0, 0),
        entry(0xB, 0, 1, 1, 1, 1),
        entry(0x8000_0000, 0, 0x8000_0008, 0, 0, 0),
        entry(0x8000_0001, 0, 0, 0, 0, 0),
        entry(0x8000_0002, 0, 0, 0, 0, 0),
        entry(0x8000_0003, 0, 0, 0, 0, 0),
        entry(0x8000_0004, 0, 0, 0, 0, 0),
        entry(0x8000_0008, 0, 0, 0, 0, 0),
    ])
}

fn result(c: &Cpuid, leaf: u32, subleaf: u32) -> CCpuidResult {
    c.get(&CpuidKey::subleaf(leaf, subleaf)).unwrap().result
}

#[test]
fn manufacturer_ids() {
    assert_eq!(intel_cpuid().manufacturer_id(), Some(*b"GenuineIntel"));
    assert_eq!(amd_cpuid().manufacturer_id(), Some(*b"AuthenticAMD"));
    assert_eq!(IntelCpuid(vec![]).manufacturer_id(), None);
}

#[test]
fn max_cpus_per_package() {
    assert_eq!(get_max_cpus_per_package(0), Err(GetMaxCpusPerPackageError::Underflow));
    assert_eq!(get_max_cpus_per_package(1), Ok(1));
    assert_eq!(get_max_cpus_per_package(2), Ok(2));
    assert_eq!(get_max_cpus_per_package(3), Ok(4));
    assert_eq!(get_max_cpus_per_package(5), Ok(8));
    assert_eq!(get_max_cpus_per_package(17), Ok(32));
    assert_eq!(get_max_cpus_per_package(128), Ok(128));
    assert_eq!(get_max_cpus_per_package(129), Err(GetMaxCpusPerPackageError::Overflow));
}

#[test]
fn intel_normalize() {
    let mut c = Cpuid::Intel(intel_cpuid());
    let host = HostExtendedTopology { extended_apic_id: CCpuidResult::default(), cache_topology: vec![] };
    assert_eq!(c.normalize(3, 4, 1, &host), Ok(()));

    let l1 = result(&c, 0x1, 0);
    // TSC deadline and hypervisor bits
    assert_eq!(l1.ecx, (1 << 24) | (1 << 31));
    // initial APIC ID 3, 4 addressable IDs, CLFLUSH line size 8
    assert_eq!(l1.ebx, (3 << 24) | (4 << 16) | (8 << 8));
    // HTT
    assert_eq!(l1.edx, 1 << 28);

    // L1 cache shared by the 2 threads of a core, L3 by all 4 CPUs; 2 cores
    assert_eq!(result(&c, 0x4, 0).eax, (1 << 5) | (1 << 14) | (1 << 26));
    assert_eq!(result(&c, 0x4, 1).eax, (3 << 5) | (3 << 14) | (1 << 26));
    // no turbo boost nor energy bias
    assert_eq!(result(&c, 0x6, 0), CCpuidResult { eax: 0, ebx: 0, ecx: 0, edx: 0 });
    // no performance monitoring
    assert_eq!(result(&c, 0xA, 0), CCpuidResult { eax: 0, ebx: 0, ecx: 0, edx: 0 });
    // thread level, core level, then numbered levels; x2APIC ID 3
    assert_eq!(result(&c, 0xB, 0), CCpuidResult { eax: 1, ebx: 2, ecx: 1 << 8, edx: 3 });
    assert_eq!(result(&c, 0xB, 1), CCpuidResult { eax: 7, ebx: 4, ecx: 1 | (2 << 8), edx: 3 });
    assert_eq!(result(&c, 0xB, 2), CCpuidResult { eax: 0, ebx: 0, ecx: 2, edx: 3 });
}

#[test]
fn intel_apply_vm_spec_errors() {
    let mut c = intel_cpuid();
    assert_eq!(
        c.apply_vm_spec(&VmSpec { cpu_index: 0, cpu_count: 0, cpu_bits: 0 }),
        Err(NormalizeCpuid::FeatureInfomation(FeatureInformationError::GetMaxCpusPerPackage(
            GetMaxCpusPerPackageError::Underflow
        )))
    );
    let mut c = IntelCpuid(vec![]);
    assert_eq!(
        c.apply_vm_spec(&VmSpec { cpu_index: 0, cpu_count: 1, cpu_bits: 0 }),
        Err(NormalizeCpuid::FeatureInfomation(FeatureInformationError::MissingLeaf1))
    );
    let mut c = IntelCpuid(vec![entry(0x1, 0, 0, 0, 0, 0)]);
    assert_eq!(
        c.apply_vm_spec(&VmSpec { cpu_index: 0, cpu_count: 1, cpu_bits: 0 }),
        Err(NormalizeCpuid::MissingLeaf6)
    );
    let mut c = IntelCpuid(vec![entry(0x1, 0, 0, 0, 0, 0), entry(0x6, 0, 0, 0, 0, 0)]);
    assert_eq!(
        c.apply_vm_spec(&VmSpec { cpu_index: 0, cpu_count: 1, cpu_bits: 0 }),
        Err(NormalizeCpuid::MissingLeafA)
    );
    // 128 single-thread cores do not fit the 6-bit core ID of leaf 0x4
    let mut c = intel_cpuid();
    assert!(matches!(
        c.apply_vm_spec(&VmSpec { cpu_index: 0, cpu_count: 128, cpu_bits: 0 }),
        Err(NormalizeCpuid::DeterministicCache(_))
    ));
}

#[test]
fn amd_normalize() {
    let mut c = Cpuid::Amd(amd_cpuid());
    let host = HostExtendedTopology {
        extended_apic_id: CCpuidResult { eax: 9, ebx: 9, ecx: 0x7ff, edx: 9 },
        cache_topology: vec![
            CCpuidResult { eax: 1 | (1 << 5), ebx: 0, ecx: 0, edx: 0 },
            CCpuidResult { eax: 3 | (3 << 5), ebx: 0, ecx: 0, edx: 0 },
            CCpuidResult { eax: 0, ebx: 0, ecx: 0, edx: 0 },
            CCpuidResult { eax: 1, ebx: 0, ecx: 0, edx: 0 },
        ],
    };
    assert_eq!(c.normalize(3, 4, 1, &host), Ok(()));
    // leaf 0xB is gone
    assert!(c.get(&CpuidKey::leaf(0xB)).is_none());
    assert_eq!(result(&c, 0x8000_0000, 0).eax, 0x8000_001f);
    assert_eq!(result(&c, 0x8000_0001, 0).ecx, 1 << 22);
    assert_eq!(result(&c, 0x8000_0008, 0).ecx, (7 << 12) | 3);
    // only the host subleaves before the first without a cache
    assert_eq!(result(&c, 0x8000_001d, 0).eax, 1 | (1 << 5) | (1 << 14));
    assert_eq!(result(&c, 0x8000_001d, 1).eax, 3 | (3 << 5) | (3 << 14));
    assert!(c.get(&CpuidKey::subleaf(0x8000_001d, 2)).is_none());
    assert!(c.get(&CpuidKey::subleaf(0x8000_001d, 3)).is_none());
    let e = result(&c, 0x8000_001e, 0);
    assert_eq!(e.eax, 3);
    assert_eq!(e.ebx, 1 | (1 << 8));
    assert_eq!(e.ecx, 0);
    assert_eq!(e.edx, 9);
    // brand string "AMD EPYC"
    let b = result(&c, 0x8000_0002, 0);
    assert_eq!((b.eax, b.ebx, b.ecx, b.edx), (0x2044_4d41, 0x4359_5045, 0, 0));
    assert_eq!(result(&c, 0x8000_0003, 0), CCpuidResult::default());

    let mut c = amd_cpuid();
    assert_eq!(c.normalize(0, 1, 8, &host), Err(AmdNormalizeError::CpuBits(8)));
    let mut c = AmdCpuid(vec![]);
    assert_eq!(c.normalize(0, 1, 0, &host), Err(AmdNormalizeError::MissingLeaf0x80000000));
}

#[test]
fn amd_normalize_zero_cpu_count() {
    let host = HostExtendedTopology {
        extended_apic_id: CCpuidResult { eax: 0, ebx: 0, ecx: 0, edx: 0 },
        cache_topology: vec![],
    };
    let mut c = amd_cpuid();
    assert_eq!(
        c.normalize(0, 0, 0, &host),
        Err(AmdNormalizeError::FeatureEntry(FeatureEntryError::NumberOfPhysicalThreadsOverflow))
    );
    // the APIC ID size is set before the thread count is found to be zero
    assert_eq!(result(&Cpuid::Amd(c), 0x8000_0008, 0).ecx, 7 << 12);
}

#[test]
fn cpuid_normalize_missing_leaf1() {
    let mut c = Cpuid::Amd(AmdCpuid(vec![]));
    let host = HostExtendedTopology { extended_apic_id: CCpuidResult::default(), cache_topology: vec![] };
    assert_eq!(
        c.normalize(0, 1, 0, &host),
        Err(NormalizeCpuidError::FeatureInfomation(FeatureInformationError::MissingLeaf1))
    );
}

#[test]
fn brand_string() {
    let mut c = intel_cpuid();
    let mut brand = [0u8; 48];
    brand[..8].copy_from_slice(b"Intel(R)");
    assert_eq!(c.apply_brand_string(&brand), Ok(()));
    let r = c.get(&CpuidKey::leaf(0x8000_0002)).unwrap().result;
    assert_eq!(r.eax, u32::from_le_bytes(*b"Inte"));
    assert_eq!(r.ebx, u32::from_le_bytes(*b"l(R)"));

    let mut c = IntelCpuid(vec![entry(0x8000_0002, 0, 0, 0, 0, 0)]);
    assert_eq!(c.apply_brand_string(&brand), Err(MissingBrandStringLeaves));
    // the leaves before the missing one are written
    assert_eq!(c.get(&CpuidKey::leaf(0x8000_0002)).unwrap().result.eax, u32::from_le_bytes(*b"Inte"));
}

#[test]
fn raw_conversions() {
    let entries = vec![
        raw(0x1, 0, 1, 1, 1, 1),
        raw(0x0, 0, 0x1f, INTEL.0, INTEL.2, INTEL.1),
        raw(0x1, 0, 2, 2, 2, 2),
        raw(0x4, 1, 4, 4, 4, 4),
        raw(0x4, 0, 3, 3, 3, 3),
    ];
    let c = Cpuid::try_from_raw(&entries).unwrap();
    assert!(c.intel().is_some());
    assert!(c.amd().is_none());
    // the later entry for a key wins, and entries come out in key order
    assert_eq!(result(&c, 0x1, 0).eax, 2);
    let back = c.to_raw();
    let keys: Vec<(u32, u32)> = back.iter().map(|e| (e.function, e.index)).collect();
    assert_eq!(keys, vec![(0, 0), (1, 0), (4, 0), (4, 1)]);
    // and converting back gives the same CPUID
    let again = Cpuid::try_from_raw(&back).unwrap();
    assert_eq!(again, c);
    assert!(again.equal(&c));

    assert_eq!(Cpuid::try_from_raw(&[raw(1, 0, 0, 0, 0, 0)]), Err(CpuidTryFromRawCpuid::MissingLeaf0));
    assert_eq!(
        Cpuid::try_from_raw(&[raw(0, 0, 0, 1, 2, 3)]),
        Err(CpuidTryFromRawCpuid::UnsupportedManufacturer([1, 0, 0, 0, 3, 0, 0, 0, 2, 0, 0, 0]))
    );
    let amd = Cpuid::try_from_raw(&[raw(0, 0, 0, AMD.0, AMD.2, AMD.1)]).unwrap();
    assert!(amd.amd().is_some());
    assert_eq!(get_vendor_id_from_cpuid(&entries), Ok(*b"GenuineIntel"));
}

#[test]
fn msrs_to_save() {
    let none = vec![raw(0x0, 0, 0, INTEL.0, INTEL.2, INTEL.1)];
    assert!(intel_msrs_to_save_by_cpuid(&none).is_empty());

    let all = vec![
        raw(0x0, 0, 0, INTEL.0, INTEL.2, INTEL.1),
        raw(0x1, 0, 0, 0, 0, (1 << 12) | (1 << 7)),
        raw(0x7, 0, 0, 1 << 14, 0, 0),
    ];
    let msrs = intel_msrs_to_save_by_cpuid(&all);
    assert!(msrs.contains(&0xd90));
    assert!(msrs.contains(&0x200) && msrs.contains(&0x20f) && !msrs.contains(&0x210));
    assert!(msrs.contains(&0x26f) && msrs.contains(&0x277) && msrs.contains(&0x2ff));
    assert!(msrs.contains(&0x400) && msrs.contains(&0x47f) && !msrs.contains(&0x480));
    assert_eq!(msrs.len(), 1 + 16 + 3 + 8 + 2 + 128);
    assert_eq!(msrs_to_save_by_cpuid(&all).unwrap(), msrs);

    let amd = vec![raw(0x0, 0, 0, AMD.0, AMD.2, AMD.1), raw(0x1, 0, 0, 0, 0, 1 << 12)];
    assert!(msrs_to_save_by_cpuid(&amd).unwrap().is_empty());
    assert!(msrs_to_save_by_cpuid(&[]).is_err());
}

#[test]
fn warnings_and_leaf0_support() {
    assert_eq!(support_warn(true, true, true, true), None);
    assert_eq!(support_warn(false, true, true, true), Some("EAX"));
    assert_eq!(support_warn(true, false, false, true), Some("EBX and ECX"));
    assert_eq!(support_warn(false, false, false, false), Some("EAX, EBX, ECX and EDX"));

    let a = Leaf { eax: 0x20, ebx: INTEL.0, ecx: INTEL.2, edx: INTEL.1 };
    let b = Leaf { eax: 0x1f, ebx: INTEL.0, ecx: INTEL.2, edx: INTEL.1 };
    assert_eq!(a.supports(&b), Ok(()));
    assert_eq!(b.supports(&a), Err(Leaf0NotSupported::MaximumInputValue(0x1f, 0x20)));
    let c = Leaf { eax: 0x20, ebx: AMD.0, ecx: AMD.2, edx: AMD.1 };
    assert!(matches!(a.supports(&c), Err(Leaf0NotSupported::ManufacturerId(_, _))));
}

#[test]
fn equality_ignores_other_leaves() {
    let a = Cpuid::Intel(intel_cpuid());
    let mut other = intel_cpuid();
    other.0.push(entry(0x4000_0000, 0, 1, 2, 3, 4));
    let b = Cpuid::Intel(other);
    assert!(a.equal(&b));
    let mut changed = intel_cpuid();
    changed.0[1].1.result.eax = 0;
    assert!(!a.equal(&Cpuid::Intel(changed)));
    assert!(!a.equal(&Cpuid::Amd(amd_cpuid())));
}

#[test]
fn leaf2_keywords() {
    // EAX: 01h (ignored), 03h, 02h, 01h; EBX..EDX: valid descriptors; ECX: msb set, ignored
    let r = CCpuidResult { eax: 0x0102_0301, ebx: 0x0000_0006, ecx: 0x8000_0000, edx: 0x0000_0000 };
    let v = leaf2_descriptors(&leaf2_of(&r)).unwrap();
    assert_eq!(v.len(), 3 + 4 + 4);
    assert_eq!(v[0], "Data TLB: 4 KByte pages, 4-way set associative, 64 entries");
    assert_eq!(v[1], "Instruction TLB: 4 MByte pages, fully associative, 2 entries");
    assert_eq!(v[2], "Instruction TLB: 4 KByte pages, 4-way set associative, 32 entries");
    assert_eq!(v[3], "1st-level instruction cache: 8 KBytes, 4-way set associative, 32 byte line size");
    assert_eq!(v[4], "Null descriptor, this byte contains no information");

    let bad = CCpuidResult { eax: 0x0000_0701, ebx: 0, ecx: 0, edx: 0 };
    assert_eq!(leaf2_descriptors(&leaf2_of(&bad)), Err(UnknownKeyword(0x07)));
}

#[test]
fn leaf2_keywords_by_register() {
    let r = CCpuidResult { eax: 0x0102_0301, ebx: 0x0000_0006, ecx: 0x8000_0000, edx: 0x0000_0000 };
    let (a, b, c, d) = leaf2_registers(&leaf2_of(&r)).unwrap();
    let a = a.unwrap();
    assert_eq!(a[0], "Data TLB: 4 KByte pages, 4-way set associative, 64 entries");
    assert_eq!(a[2], "Instruction TLB: 4 KByte pages, 4-way set associative, 32 entries");
    assert_eq!(b.unwrap()[0], "1st-level instruction cache: 8 KBytes, 4-way set associative, 32 byte line size");
    assert_eq!(c, None);
    assert_eq!(d.unwrap()[3], "Null descriptor, this byte contains no information");
    // the flattened list is the registers one after the other
    let flat: Vec<&str> = a.iter().chain(b.unwrap().iter()).chain(d.unwrap().iter()).copied().collect();
    assert_eq!(leaf2_descriptors(&leaf2_of(&r)).unwrap(), flat);

    let bad = CCpuidResult { eax: 0x0000_0001, ebx: 0, ecx: 0x0700_0000, edx: 0 };
    assert_eq!(leaf2_registers(&leaf2_of(&bad)), Err(UnknownKeyword(0x07)));
}

#[test]
fn leaf_access() {
    let mut c = intel_cpuid();
    assert_eq!(c.leaf::<0x6>().unwrap().ecx, 0b1000);
    assert!(c.leaf::<0x7>().is_none());
    c.leaf_mut::<0x6>().unwrap().ecx = 0;
    assert_eq!(c.leaf::<0x6>().unwrap().ecx, 0);
    c.get_mut(&CpuidKey::leaf(0xA)).unwrap().result.eax = 42;
    assert_eq!(c.get(&CpuidKey::leaf(0xA)).unwrap().result.eax, 42);
    let mut a = amd_cpuid();
    assert_eq!(a.leaf::<0x8000_0000>().unwrap().eax, 0x8000_0008);
    assert!(a.leaf_mut::<0x8000_001e>().is_none());
}

#[test]
fn host_checks() {
    let e = CCpuidResult { eax: 1, ebx: 0, ecx: 0, edx: 0 };
    assert_eq!(check_host_leaf(5, 0, 4, e), Err(GetCpuidError::UnsupportedLeaf(5)));
    assert_eq!(check_host_leaf(4, 2, 4, CCpuidResult::default()), Err(GetCpuidError::InvalidSubleaf(2)));
    assert_eq!(check_host_leaf(4, 2, 4, e), Ok(e));

    let host_leaf0 = CCpuidResult { eax: 0x1f, ebx: INTEL.0, ecx: INTEL.2, edx: INTEL.1 };
    let host_id = vendor_id_of_leaf0(Ok(host_leaf0));
    assert_eq!(host_id, Ok(*b"GenuineIntel"));
    let entries = vec![
        raw(0x0, 0, 0x1f, INTEL.0, INTEL.2, INTEL.1),
        raw(0x1, 0, 0x000906ea, 0, 0, 0),
    ];
    let host_leaf1 = CCpuidResult { eax: 0x000906ea, ebx: 1, ecx: 2, edx: 3 };
    assert!(is_same_model(host_id, Ok(host_leaf1), &entries));
    // a different stepping is another model
    let other = CCpuidResult { eax: 0x000906eb, ..host_leaf1 };
    assert!(!is_same_model(host_id, Ok(other), &entries));
    // the processor type is not compared
    let typed = CCpuidResult { eax: 0x000936ea, ..host_leaf1 };
    assert!(is_same_model(host_id, Ok(typed), &entries));
    assert!(!is_same_model(Ok(*b"AuthenticAMD"), Ok(host_leaf1), &entries));
    assert!(!is_same_model(host_id, Err(GetCpuidError::InvalidSubleaf(0)), &entries));
    assert!(!is_same_model(host_id, Ok(host_leaf1), &entries[..1]));
}

#[test]
fn combine_partial_orderings() {
    assert_eq!(cpo(Some(FeatureRelation::Equal), Some(FeatureRelation::Equal)), Some(FeatureRelation::Equal));
    assert_eq!(cpo(Some(FeatureRelation::Equal), Some(FeatureRelation::Superset)), Some(FeatureRelation::Superset));
    assert_eq!(cpo(Some(FeatureRelation::Superset), Some(FeatureRelation::Equal)), Some(FeatureRelation::Superset));
    assert_eq!(cpo(Some(FeatureRelation::Superset), Some(FeatureRelation::Subset)), Some(FeatureRelation::Subset));
    assert_eq!(cpo(None, Some(FeatureRelation::Equal)), None);
}
