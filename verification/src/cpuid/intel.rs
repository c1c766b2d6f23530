//! Intel specific CPUID handling: the changes applied to an Intel CPUID for a guest vCPU.

use super::{
    apply_brand_string, entries_get, entries_get_mut, entries_manufacturer_id, find_from,
    find_key, has_leaf, leaf1_applied, lemma_find_after_set, lemma_find_from, lookup,
    normalize_feature_information, position, set_result_at, CCpuidResult, CpuidEntry, CpuidKey,
    Entries, FeatureInformationError, MissingBrandStringLeaves,
};
use crate::bit_fields::{
    checked_assign, get, get_range, lemma_get_after_set, lemma_range_max_values, lemma_set_frame,
    set_bit, set_flag, set_range, CheckedAssignError,
};
use vstd::prelude::*;

verus! {

/// A CPUID following the Intel specification, its entries in increasing key order.
#[derive(Clone, Debug, PartialEq, Eq)]
pub struct IntelCpuid(pub Entries);

/// The vCPU a CPUID is prepared for.
#[derive(Clone, Copy, Debug, PartialEq, Eq)]
pub struct VmSpec {
    /// The index of the vCPU, in `0 .. cpu_count`.
    pub cpu_index: u8,
    /// The total number of vCPUs.
    pub cpu_count: u8,
    /// The number of bits needed to enumerate the logical CPUs of a core.
    pub cpu_bits: u8,
}

impl VmSpec {
    /// The number of logical CPUs per core, `2^cpu_bits`.
    pub fn cpus_per_core(&self) -> (r: u8)
        requires
            self.cpu_bits < 8,
        ensures
            r == per_core(self.cpu_bits),
    {
        1u8 << self.cpu_bits
    }
}

/// The number of logical CPUs per core for `cpu_bits` bits.
pub open spec fn per_core(cpu_bits: u8) -> u8 {
    1u8 << cpu_bits
}

proof fn lemma_per_core(cpu_bits: u8)
    requires
        cpu_bits < 8,
    ensures
        1 <= per_core(cpu_bits) <= 128,
{
    assert(1u8 <= (1u8 << cpu_bits) && (1u8 << cpu_bits) <= 128u8) by (bit_vector)
        requires
            cpu_bits < 8,
    ;
}

/// Error of setting the deterministic cache leaf (0x4).
#[derive(Clone, Copy, Debug, PartialEq, Eq)]
pub enum DeterministicCacheError {
    /// Failed to set `Maximum number of addressable IDs for logical processors sharing this
    /// cache`.
    MaxCpusPerCore(CheckedAssignError),
    /// Failed to set `Maximum number of addressable IDs for processor cores in the physical
    /// package`.
    MaxCorePerPackage(CheckedAssignError),
}

/// Error of setting the extended topology leaf (0xB).
#[derive(Clone, Copy, Debug, PartialEq, Eq)]
pub enum ExtendedTopologyError {
    /// Failed to set `Number of bits to shift right on x2APIC ID to get a unique topology ID of
    /// the next level type`.
    ApicId(CheckedAssignError),
    /// Failed to set `Number of logical processors at this level type`.
    LogicalProcessors(CheckedAssignError),
    /// Failed to set `Level Type`.
    LevelType(CheckedAssignError),
    /// Failed to set `Level Number`.
    LevelNumber(CheckedAssignError),
}

/// Error of preparing an Intel CPUID for a vCPU.
#[derive(Clone, Copy, Debug, PartialEq, Eq)]
pub enum NormalizeCpuid {
    /// Failed to set feature information leaf.
    FeatureInfomation(FeatureInformationError),
    /// Failed to set deterministic cache leaf.
    DeterministicCache(DeterministicCacheError),
    /// Leaf 0x6 is missing from CPUID.
    MissingLeaf6,
    /// Leaf 0xA is missing from CPUID.
    MissingLeafA,
    /// Failed to set extended topology leaf.
    ExtendedTopology(ExtendedTopologyError),
}

// ---------------------------------------------------------------------------------------------
// Deterministic cache leaf (0x4)
// ---------------------------------------------------------------------------------------------

/// The maximum core ID in the package: all cores in one socket.
pub open spec fn cores_per_package_field(cpu_count: u8, cpus_per_core: u8) -> int {
    cpu_count / cpus_per_core - 1
}

/// A deterministic cache subleaf once the number of logical processors sharing the cache
/// (EAX bits 14..26) is set: at most a core's threads share an L1 or L2 cache, all of them
/// share L3 (cache level in EAX bits 5..8).
pub open spec fn leaf4_sharing(r: CCpuidResult, cpu_count: u8, cpus_per_core: u8) -> CCpuidResult {
    let level = get_range(r.eax, 5, 3);
    if level == 1 || level == 2 {
        CCpuidResult { eax: set_range(r.eax, 14, 12, (cpus_per_core - 1) as u32), ..r }
    } else if level == 3 {
        CCpuidResult { eax: set_range(r.eax, 14, 12, (cpu_count - 1) as u32), ..r }
    } else {
        r
    }
}

/// A deterministic cache subleaf once the maximum core ID of the package (EAX bits 26..32)
/// is set as well.
pub open spec fn leaf4_subleaf(r: CCpuidResult, cpu_count: u8, cpus_per_core: u8) -> CCpuidResult {
    let s = leaf4_sharing(r, cpu_count, cpus_per_core);
    CCpuidResult {
        eax: set_range(s.eax, 26, 6, cores_per_package_field(cpu_count, cpus_per_core) as u32),
        ..s
    }
}

/// The first position at or after `i` whose key belongs to leaf `leaf`.
pub open spec fn find_leaf_from(s: Seq<(CpuidKey, CpuidEntry)>, leaf: u32, i: int) -> Option<int>
    decreases s.len() - i,
{
    if i < 0 || i >= s.len() {
        None
    } else if s[i].0.leaf == leaf {
        Some(i)
    } else {
        find_leaf_from(s, leaf, i + 1)
    }
}

proof fn lemma_find_leaf_from(s: Seq<(CpuidKey, CpuidEntry)>, leaf: u32, i: int)
    requires
        0 <= i,
    ensures
        match find_leaf_from(s, leaf, i) {
            Some(p) => i <= p < s.len() && s[p].0.leaf == leaf && forall|j: int|
                i <= j < p ==> s[j].0.leaf != leaf,
            None => forall|j: int| i <= j < s.len() ==> s[j].0.leaf != leaf,
        },
    decreases s.len() - i,
{
    if i < s.len() && s[i].0.leaf != leaf {
        lemma_find_leaf_from(s, leaf, i + 1);
    }
}

/// The list with every entry of leaf `leaf` given the registers `f` makes of it.
pub open spec fn map_leaf(
    s: Seq<(CpuidKey, CpuidEntry)>,
    leaf: u32,
    f: spec_fn(int, CCpuidResult) -> CCpuidResult,
) -> Seq<(CpuidKey, CpuidEntry)> {
    Seq::new(
        s.len(),
        |i: int|
            if s[i].0.leaf == leaf {
                (s[i].0, CpuidEntry { flags: s[i].1.flags, result: f(i, s[i].1.result) })
            } else {
                s[i]
            },
    )
}

/// The list after the deterministic cache leaf is set, and the outcome. The maximum core
/// ID is the same for every subleaf: when it does not fit, the first subleaf keeps its
/// sharing count and nothing else changes.
pub open spec fn leaf4_applied(s: Seq<(CpuidKey, CpuidEntry)>, cpu_count: u8, cpus_per_core: u8) -> (
    Seq<(CpuidKey, CpuidEntry)>,
    Result<(), DeterministicCacheError>,
) {
    if cores_per_package_field(cpu_count, cpus_per_core) <= 63 {
        (
            map_leaf(s, 4, |i: int, r: CCpuidResult| leaf4_subleaf(r, cpu_count, cpus_per_core)),
            Ok(()),
        )
    } else {
        match find_leaf_from(s, 4, 0) {
            None => (s, Ok(())),
            Some(i) => (
                set_result_at(s, i, leaf4_sharing(s[i].1.result, cpu_count, cpus_per_core)),
                Err(DeterministicCacheError::MaxCorePerPackage(CheckedAssignError)),
            ),
        }
    }
}

fn normalize_deterministic_cache(entries: &mut Entries, cpu_count: u8, cpu_bits: u8) -> (r: Result<(), DeterministicCacheError>)
    requires
        has_leaf(old(entries)@, 4) ==> cpu_bits < 8 && cpu_count >= per_core(cpu_bits),
    ensures
        (final(entries)@, r) == leaf4_applied(old(entries)@, cpu_count, per_core(cpu_bits)),
{
    let ghost s0 = entries@;
    let ghost cpc = per_core(cpu_bits);
    let ghost fits = cores_per_package_field(cpu_count, cpc) <= 63;
    let ghost target = map_leaf(s0, 4, |i: int, r: CCpuidResult| leaf4_subleaf(r, cpu_count, cpc));
    proof {
        lemma_range_max_values();
        lemma_find_leaf_from(s0, 4, 0);
    }
    let mut i: usize = 0;
    while i < entries.len()
        invariant
            0 <= i <= entries.len(),
            s0 == old(entries)@,
            entries@.len() == s0.len(),
            target.len() == s0.len(),
            has_leaf(s0, 4) ==> cpu_bits < 8 && cpu_count >= per_core(cpu_bits),
            cpc == per_core(cpu_bits),
            fits == (cores_per_package_field(cpu_count, cpc) <= 63),
            target == map_leaf(s0, 4, |i: int, r: CCpuidResult| leaf4_subleaf(r, cpu_count, cpc)),
            forall|j: int| 0 <= j < i ==> entries@[j] == target[j],
            forall|j: int| i <= j < s0.len() ==> entries@[j] == s0[j],
            !fits ==> forall|j: int| 0 <= j < i ==> s0[j].0.leaf != 4,
            range_facts(),
        decreases entries.len() - i,
    {
        let key = entries[i].0;
        if key.leaf == 4 {
            proof {
                assert(has_leaf(s0, 4)) by {
                    assert(s0[i as int].0.leaf == 4);
                }
                lemma_per_core(cpu_bits);
            }
            let flags = entries[i].1.flags;
            let mut r = entries[i].1.result;
            let cpus_per_core: u8 = 1u8 << cpu_bits;
            let level = get(r.eax, 5, 3);
            if level == 1 || level == 2 {
                // The L1 and L2 caches are shared by the threads of a core.
                match checked_assign(&mut r.eax, 14, 12, (cpus_per_core - 1) as u32) {
                    Ok(()) => {},
                    Err(e) => return Err(DeterministicCacheError::MaxCpusPerCore(e)),
                }
            } else if level == 3 {
                // The L3 cache is shared among all the logical threads.
                match checked_assign(&mut r.eax, 14, 12, (cpu_count - 1) as u32) {
                    Ok(()) => {},
                    Err(e) => return Err(DeterministicCacheError::MaxCpusPerCore(e)),
                }
            }
            assert(r == leaf4_sharing(s0[i as int].1.result, cpu_count, cpc));
            // Put all the cores in the same socket.
            assert(cpu_count / cpus_per_core >= 1) by (nonlinear_arith)
                requires
                    cpu_count >= cpus_per_core,
                    cpus_per_core >= 1,
            ;
            let cores: u32 = (cpu_count / cpus_per_core) as u32 - 1;
            assert(cores == cores_per_package_field(cpu_count, cpc));
            match checked_assign(&mut r.eax, 26, 6, cores) {
                Ok(()) => {},
                Err(_) => {
                    assert(!fits);
                    entries[i] = (key, CpuidEntry { flags, result: r });
                    proof {
                        lemma_find_leaf_from(s0, 4, 0);
                        assert(find_leaf_from(s0, 4, 0) == Some(i as int));
                        let expected = set_result_at(
                            s0,
                            i as int,
                            leaf4_sharing(s0[i as int].1.result, cpu_count, cpc),
                        );
                        assert forall|j: int| 0 <= j < s0.len() implies entries@[j] == expected[j] by {
                            if j < i {
                                assert(target[j] == s0[j]);
                            }
                        }
                        assert(entries@ =~= expected);
                    }
                    return Err(DeterministicCacheError::MaxCorePerPackage(CheckedAssignError));
                },
            }
            entries[i] = (key, CpuidEntry { flags, result: r });
        }
        i = i + 1;
    }
    proof {
        if fits {
            assert(entries@ =~= target);
        } else {
            lemma_find_leaf_from(s0, 4, 0);
            assert forall|j: int| 0 <= j < s0.len() implies entries@[j] == s0[j] by {
                assert(target[j] == s0[j]);
            }
            assert(entries@ =~= s0);
        }
    }
    Ok(())
}

/// Facts about the largest values of ranges, for loop invariants.
pub open spec fn range_facts() -> bool {
    &&& crate::bit_fields::range_max(3) == 7
    &&& crate::bit_fields::range_max(5) == 31
    &&& crate::bit_fields::range_max(6) == 63
    &&& crate::bit_fields::range_max(8) == 255
    &&& crate::bit_fields::range_max(12) == 4095
    &&& crate::bit_fields::range_max(16) == 65535
}


// ---------------------------------------------------------------------------------------------
// Power management (0x6), performance monitoring (0xA) and extended topology (0xB) leaves
// ---------------------------------------------------------------------------------------------

/// Leaf 6 without Turbo Boost (EAX bit 1) and without the performance-energy bias (ECX
/// bit 3): the hypervisor does no frequency selection.
pub open spec fn leaf6_power(r: CCpuidResult) -> CCpuidResult {
    CCpuidResult { eax: set_bit(r.eax, 1, false), ecx: set_bit(r.ecx, 3, false), ..r }
}

/// All registers zero.
pub open spec fn zero_result() -> CCpuidResult {
    CCpuidResult { eax: 0, ebx: 0, ecx: 0, edx: 0 }
}

/// Level type of the thread level of the extended topology.
pub const LEVEL_TYPE_THREAD: u32 = 1;
/// Level type of the core level of the extended topology.
pub const LEVEL_TYPE_CORE: u32 = 2;
/// Bits to shift the x2APIC ID right to get a unique core ID: 128 logical processors per
/// package.
pub const LEAFBH_INDEX1_APICID: u32 = 7;

/// The number of entries of leaf `leaf` before position `i`.
pub open spec fn leaf_rank(s: Seq<(CpuidKey, CpuidEntry)>, i: int, leaf: u32) -> nat
    decreases i,
{
    if i <= 0 {
        0
    } else {
        leaf_rank(s, i - 1, leaf) + if s[i - 1].0.leaf == leaf {
            1nat
        } else {
            0nat
        }
    }
}

proof fn lemma_leaf_rank_bound(s: Seq<(CpuidKey, CpuidEntry)>, i: int, leaf: u32)
    requires
        0 <= i,
    ensures
        leaf_rank(s, i, leaf) <= i,
    decreases i,
{
    if i > 0 {
        lemma_leaf_rank_bound(s, i - 1, leaf);
    }
}

/// Extended topology subleaf number `index` (in key order) for the vCPU: thread level
/// first, core level second, the levels after only numbered; every level reports the
/// vCPU's x2APIC ID in EDX.
pub open spec fn leafb_subleaf(index: nat, cpu_index: u8, cpu_count: u8, cpu_bits: u8) -> CCpuidResult {
    if index == 0 {
        CCpuidResult {
            eax: set_range(0, 0, 5, cpu_bits as u32),
            ebx: set_range(0, 0, 16, per_core(cpu_bits) as u32),
            ecx: set_range(0, 8, 8, LEVEL_TYPE_THREAD),
            edx: cpu_index as u32,
        }
    } else if index == 1 {
        CCpuidResult {
            eax: set_range(0, 0, 5, LEAFBH_INDEX1_APICID),
            ebx: set_range(0, 0, 16, cpu_count as u32),
            ecx: set_range(set_range(0, 0, 8, 1), 8, 8, LEVEL_TYPE_CORE),
            edx: cpu_index as u32,
        }
    } else {
        CCpuidResult { eax: 0, ebx: 0, ecx: index as u32, edx: cpu_index as u32 }
    }
}

/// The list after the extended topology leaf is set.
pub open spec fn leafb_applied(s: Seq<(CpuidKey, CpuidEntry)>, cpu_index: u8, cpu_count: u8, cpu_bits: u8) -> Seq<
    (CpuidKey, CpuidEntry),
> {
    map_leaf(
        s,
        0xB,
        |i: int, r: CCpuidResult| leafb_subleaf(leaf_rank(s, i, 0xB), cpu_index, cpu_count, cpu_bits),
    )
}

fn normalize_extended_topology(entries: &mut Entries, cpu_index: u8, cpu_count: u8, cpu_bits: u8) -> (r: Result<(), ExtendedTopologyError>)
    requires
        has_leaf(old(entries)@, 0xB) ==> cpu_bits < 8 && old(entries)@.len() <= 0x1_0000_0000,
    ensures
        r is Ok,
        final(entries)@ == leafb_applied(old(entries)@, cpu_index, cpu_count, cpu_bits),
{
    let ghost s0 = entries@;
    let ghost target = leafb_applied(s0, cpu_index, cpu_count, cpu_bits);
    proof {
        lemma_range_max_values();
    }
    let mut index: usize = 0;
    let mut i: usize = 0;
    while i < entries.len()
        invariant
            0 <= i <= entries.len(),
            s0 == old(entries)@,
            entries@.len() == s0.len(),
            has_leaf(s0, 0xB) ==> cpu_bits < 8 && s0.len() <= 0x1_0000_0000,
            target == leafb_applied(s0, cpu_index, cpu_count, cpu_bits),
            index == leaf_rank(s0, i as int, 0xB),
            forall|j: int| 0 <= j < i ==> entries@[j] == target[j],
            forall|j: int| i <= j < s0.len() ==> entries@[j] == s0[j],
            range_facts(),
        decreases entries.len() - i,
    {
        let key = entries[i].0;
        if key.leaf == 0xB {
            proof {
                assert(has_leaf(s0, 0xB)) by {
                    assert(s0[i as int].0.leaf == 0xB);
                }
                lemma_per_core(cpu_bits);
                lemma_leaf_rank_bound(s0, i as int, 0xB);
            }
            let flags = entries[i].1.flags;
            let mut r = CCpuidResult { eax: 0, ebx: 0, ecx: 0, edx: 0 };
            // EDX holds the x2APIC ID of the current logical processor.
            r.edx = cpu_index as u32;
            if index == 0 {
                // Thread level: shift right by at most one bit for the threads of a core.
                match checked_assign(&mut r.eax, 0, 5, cpu_bits as u32) {
                    Ok(()) => {},
                    Err(e) => return Err(ExtendedTopologyError::ApicId(e)),
                }
                let cpus_per_core: u8 = 1u8 << cpu_bits;
                match checked_assign(&mut r.ebx, 0, 16, cpus_per_core as u32) {
                    Ok(()) => {},
                    Err(e) => return Err(ExtendedTopologyError::LogicalProcessors(e)),
                }
                match checked_assign(&mut r.ecx, 8, 8, LEVEL_TYPE_THREAD) {
                    Ok(()) => {},
                    Err(e) => return Err(ExtendedTopologyError::LevelType(e)),
                }
            } else if index == 1 {
                // Core level.
                match checked_assign(&mut r.eax, 0, 5, LEAFBH_INDEX1_APICID) {
                    Ok(()) => {},
                    Err(e) => return Err(ExtendedTopologyError::ApicId(e)),
                }
                match checked_assign(&mut r.ebx, 0, 16, cpu_count as u32) {
                    Ok(()) => {},
                    Err(e) => return Err(ExtendedTopologyError::LogicalProcessors(e)),
                }
                match checked_assign(&mut r.ecx, 0, 8, 1) {
                    Ok(()) => {},
                    Err(e) => return Err(ExtendedTopologyError::LevelNumber(e)),
                }
                match checked_assign(&mut r.ecx, 8, 8, LEVEL_TYPE_CORE) {
                    Ok(()) => {},
                    Err(e) => return Err(ExtendedTopologyError::LevelType(e)),
                }
            } else {
                // No other levels: only the level number.
                r.ecx = index as u32;
            }
            entries[i] = (key, CpuidEntry { flags, result: r });
            index = index + 1;
        }
        i = i + 1;
    }
    proof {
        assert(entries@ =~= target);
    }
    Ok(())
}

/// The list after the Intel-specific changes for a vCPU (leaves 0x4, 0x6, 0xA and 0xB, in
/// that order), and the outcome; changing stops at the first error.
pub open spec fn intel_normalized(s: Seq<(CpuidKey, CpuidEntry)>, cpu_index: u8, cpu_count: u8, cpu_bits: u8) -> (
    Seq<(CpuidKey, CpuidEntry)>,
    Result<(), NormalizeCpuid>,
) {
    let (s4, r4) = leaf4_applied(s, cpu_count, per_core(cpu_bits));
    match r4 {
        Err(e) => (s4, Err(NormalizeCpuid::DeterministicCache(e))),
        Ok(()) => match find_key(s4, CpuidKey { leaf: 6, subleaf: 0 }) {
            None => (s4, Err(NormalizeCpuid::MissingLeaf6)),
            Some(i) => {
                let s6 = set_result_at(s4, i, leaf6_power(s4[i].1.result));
                match find_key(s6, CpuidKey { leaf: 0xA, subleaf: 0 }) {
                    None => (s6, Err(NormalizeCpuid::MissingLeafA)),
                    Some(j) => {
                        let sa = set_result_at(s6, j, zero_result());
                        (leafb_applied(sa, cpu_index, cpu_count, cpu_bits), Ok(()))
                    },
                }
            },
        },
    }
}

/// The Intel-specific changes are defined (they would not overflow) for the list: with a
/// deterministic cache leaf the CPUs per core are 1 to 128 and at most the CPU count, and
/// when the extended topology leaf is reached the CPUs per core are 1 to 128 and its
/// subleaves can be numbered by a `u32`.
pub open spec fn intel_normalize_defined(s: Seq<(CpuidKey, CpuidEntry)>, cpu_count: u8, cpu_bits: u8) -> bool {
    &&& has_leaf(s, 4) ==> cpu_bits < 8 && cpu_count >= per_core(cpu_bits)
    &&& has_leaf(s, 0xB) && lookup(s, CpuidKey { leaf: 6, subleaf: 0 }) is Some && lookup(
        s,
        CpuidKey { leaf: 0xA, subleaf: 0 },
    ) is Some ==> cpu_bits < 8 && s.len() <= 0x1_0000_0000
}

/// Changing the registers of entries neither adds nor removes a leaf.
proof fn lemma_has_leaf_after_set(s: Seq<(CpuidKey, CpuidEntry)>, p: int, r: CCpuidResult, leaf: u32)
    requires
        0 <= p < s.len(),
    ensures
        has_leaf(set_result_at(s, p, r), leaf) == has_leaf(s, leaf),
{
    let t = set_result_at(s, p, r);
    if has_leaf(s, leaf) {
        let i = choose|i: int| 0 <= i < s.len() && (#[trigger] s[i]).0.leaf == leaf;
        assert(t[i].0.leaf == leaf);
    }
    if has_leaf(t, leaf) {
        let i = choose|i: int| 0 <= i < t.len() && (#[trigger] t[i]).0.leaf == leaf;
        assert(s[i].0.leaf == leaf);
    }
}

/// Mapping the registers of a leaf neither adds nor removes a key.
proof fn lemma_map_leaf_keys(
    s: Seq<(CpuidKey, CpuidEntry)>,
    leaf: u32,
    f: spec_fn(int, CCpuidResult) -> CCpuidResult,
    k: CpuidKey,
    i: int,
)
    requires
        0 <= i,
    ensures
        find_from(map_leaf(s, leaf, f), k, i) == find_from(s, k, i),
        forall|l: u32| has_leaf(map_leaf(s, leaf, f), l) == has_leaf(s, l),
    decreases s.len() - i,
{
    let t = map_leaf(s, leaf, f);
    if i < s.len() && s[i].0 != k {
        lemma_map_leaf_keys(s, leaf, f, k, i + 1);
    }
    assert forall|l: u32| has_leaf(t, l) == has_leaf(s, l) by {
        if has_leaf(s, l) {
            let j = choose|j: int| 0 <= j < s.len() && (#[trigger] s[j]).0.leaf == l;
            assert(t[j].0.leaf == l);
        }
        if has_leaf(t, l) {
            let j = choose|j: int| 0 <= j < t.len() && (#[trigger] t[j]).0.leaf == l;
            assert(s[j].0.leaf == l);
        }
    }
}

fn set_leaf_result(entries: &mut Entries, i: usize, r: CCpuidResult)
    requires
        i < old(entries)@.len(),
    ensures
        final(entries)@ == set_result_at(old(entries)@, i as int, r),
{
    let key = entries[i].0;
    let flags = entries[i].1.flags;
    entries[i] = (key, CpuidEntry { flags, result: r });
}

impl IntelCpuid {
    /// Gets the entry for `key`.
    pub fn get(&self, key: &CpuidKey) -> (r: Option<&CpuidEntry>)
        ensures
            match r {
                Some(e) => lookup(self.0@, *key) == Some(*e),
                None => lookup(self.0@, *key) is None,
            },
    {
        entries_get(&self.0, key)
    }

    /// Gets the entry for `key` for modification.
    pub fn get_mut(&mut self, key: &CpuidKey) -> (r: Option<&mut CpuidEntry>)
        ensures
            match r {
                Some(e) => find_key(old(self).0@, *key) matches Some(p) && *e == old(self).0@[p].1
                    && final(self).0@ == old(self).0@.update(p, (*key, *final(e))),
                None => find_key(old(self).0@, *key) is None && final(self).0@ == old(self).0@,
            },
    {
        entries_get_mut(&mut self.0, key)
    }

    /// Returns the manufacturer ID (e.g. `GenuineIntel`), or `None` if leaf 0 is missing.
    pub fn manufacturer_id(&self) -> (r: Option<[u8; 12]>)
        ensures
            match lookup(self.0@, CpuidKey { leaf: 0, subleaf: 0 }) {
                Some(e) => r matches Some(id) && id@ == super::manufacturer_bytes(e.result),
                None => r is None,
            },
    {
        entries_manufacturer_id(&self.0)
    }

    /// Writes a brand string to leaves 0x80000002 to 0x80000004; errs at the first of them
    /// that is missing.
    pub fn apply_brand_string(&mut self, brand_string: &[u8; 48]) -> (r: Result<(), MissingBrandStringLeaves>)
        ensures
            (final(self).0@, r is Ok) == super::brand_applied(old(self).0@, brand_string@),
    {
        apply_brand_string(&mut self.0, brand_string)
    }

    /// Applies the Intel-specific changes for the vCPU `cpu_index` of `cpu_count`: the
    /// sharing of caches and the cores of the package in the deterministic cache leaf, no
    /// Turbo Boost nor energy bias in the power management leaf, no performance monitoring,
    /// and the thread and core levels of the extended topology.
    ///
    /// # Errors
    ///
    /// When the maximum core ID of the package does not fit, or leaf 0x6 or 0xA is missing.
    pub fn normalize(&mut self, cpu_index: u8, cpu_count: u8, cpu_bits: u8) -> (r: Result<(), NormalizeCpuid>)
        requires
            intel_normalize_defined(old(self).0@, cpu_count, cpu_bits),
        ensures
            (final(self).0@, r) == intel_normalized(old(self).0@, cpu_index, cpu_count, cpu_bits),
    {
        let ghost s0 = self.0@;
        // Update deterministic cache entry.
        match normalize_deterministic_cache(&mut self.0, cpu_count, cpu_bits) {
            Ok(()) => {},
            Err(e) => return Err(NormalizeCpuid::DeterministicCache(e)),
        }
        let ghost s4 = self.0@;
        proof {
            let ghost f = |i: int, r: CCpuidResult| leaf4_subleaf(r, cpu_count, per_core(cpu_bits));
            if cores_per_package_field(cpu_count, per_core(cpu_bits)) <= 63 {
                assert(s4 == map_leaf(s0, 4, f));
                lemma_map_leaf_keys(s0, 4, f, CpuidKey { leaf: 6, subleaf: 0 }, 0);
                lemma_map_leaf_keys(s0, 4, f, CpuidKey { leaf: 0xA, subleaf: 0 }, 0);
            }
        }
        // Update power management entry.
        let i = match position(&self.0, &CpuidKey::leaf(6)) {
            Some(i) => i,
            None => return Err(NormalizeCpuid::MissingLeaf6),
        };
        let mut r6 = self.0[i].1.result;
        proof {
            assert(find_key(s0, CpuidKey { leaf: 6, subleaf: 0 }) is Some);
        }
        set_flag(&mut r6.eax, 1, false);
        set_flag(&mut r6.ecx, 3, false);
        set_leaf_result(&mut self.0, i, r6);
        let ghost s6 = self.0@;
        proof {
            lemma_find_after_set(s4, i as int, r6, CpuidKey { leaf: 0xA, subleaf: 0 }, 0);
            lemma_has_leaf_after_set(s4, i as int, r6, 0xB);
        }
        // Update performance monitoring entry.
        let j = match position(&self.0, &CpuidKey::leaf(0xA)) {
            Some(j) => j,
            None => return Err(NormalizeCpuid::MissingLeafA),
        };
        set_leaf_result(&mut self.0, j, CCpuidResult { eax: 0, ebx: 0, ecx: 0, edx: 0 });
        proof {
            lemma_has_leaf_after_set(s6, j as int, zero_result(), 0xB);
            assert(self.0@ == set_result_at(s6, j as int, zero_result()));
        }
        // Update extended topology entry.
        match normalize_extended_topology(&mut self.0, cpu_index, cpu_count, cpu_bits) {
            Ok(()) => {},
            Err(e) => return Err(NormalizeCpuid::ExtendedTopology(e)),
        }
        Ok(())
    }

    /// Applies `vm_spec` to `self`: the feature information leaf, then the Intel-specific
    /// changes of [`IntelCpuid::normalize`].
    ///
    /// # Errors
    ///
    /// When leaf 0x1 is missing or the CPU count is not 1 to 128, or as
    /// [`IntelCpuid::normalize`] errs.
    pub fn apply_vm_spec(&mut self, vm_spec: &VmSpec) -> (r: Result<(), NormalizeCpuid>)
        requires
            leaf1_applied(old(self).0@, vm_spec.cpu_index, vm_spec.cpu_count).1 is Ok
                ==> intel_normalize_defined(old(self).0@, vm_spec.cpu_count, vm_spec.cpu_bits),
        ensures
            ({
                let (s1, r1) = leaf1_applied(old(self).0@, vm_spec.cpu_index, vm_spec.cpu_count);
                match r1 {
                    Err(e) => final(self).0@ == s1 && r == Err::<(), NormalizeCpuid>(
                        NormalizeCpuid::FeatureInfomation(e),
                    ),
                    Ok(()) => (final(self).0@, r) == intel_normalized(
                        s1,
                        vm_spec.cpu_index,
                        vm_spec.cpu_count,
                        vm_spec.cpu_bits,
                    ),
                }
            }),
    {
        let ghost s0 = self.0@;
        match normalize_feature_information(&mut self.0, vm_spec.cpu_index, vm_spec.cpu_count) {
            Ok(()) => {},
            Err(e) => return Err(NormalizeCpuid::FeatureInfomation(e)),
        }
        proof {
            lemma_find_from(s0, CpuidKey { leaf: 1, subleaf: 0 }, 0);
            let p = find_key(s0, CpuidKey { leaf: 1, subleaf: 0 })->0;
            let r1 = self.0@[p].1.result;
            lemma_has_leaf_after_set(s0, p, r1, 4);
            lemma_has_leaf_after_set(s0, p, r1, 0xB);
            lemma_find_after_set(s0, p, r1, CpuidKey { leaf: 6, subleaf: 0 }, 0);
            lemma_find_after_set(s0, p, r1, CpuidKey { leaf: 0xA, subleaf: 0 }, 0);
        }
        self.normalize(vm_spec.cpu_index, vm_spec.cpu_count, vm_spec.cpu_bits)
    }
}


// ---------------------------------------------------------------------------------------------
// Errors of support checks
// ---------------------------------------------------------------------------------------------

/// Why an Intel CPUID does not support another.
#[derive(Clone, Copy, Debug, PartialEq, Eq)]
pub enum IntelCpuidNotSupported {
    /// MissingLeaf0.
    MissingLeaf0,
    /// Leaf0.
    Leaf0(super::Leaf0NotSupported),
    /// MissingLeaf1.
    MissingLeaf1,
    /// Leaf1.
    Leaf1(super::Leaf1NotSupported),
    /// MissingLeaf5.
    MissingLeaf5,
    /// Leaf5.
    Leaf5(Leaf5NotSupported),
    /// MissingLeaf6.
    MissingLeaf6,
    /// Leaf6.
    Leaf6(Leaf6NotSupported),
    /// Leaf7
    Leaf7(Leaf7NotSupported),
    /// MissingLeafA.
    MissingLeafA,
    /// LeafA.
    LeafA(LeafANotSupported),
    /// LeafF.
    LeafF(LeafFNotSupported),
    /// Leaf10.
    Leaf10(Leaf10NotSupported),
    /// Leaf14.
    Leaf14(Leaf14NotSupported),
    /// Leaf18.
    Leaf18(Leaf18NotSupported),
    /// MissingLeaf19.
    MissingLeaf19,
    /// Leaf19.
    Leaf19(Leaf19NotSupported),
    /// MissingLeaf1C.
    MissingLeaf1C,
    /// Leaf1C.
    Leaf1C(Leaf1CNotSupported),
    /// MissingLeaf20.
    MissingLeaf20,
    /// Leaf20.
    Leaf20(Leaf20NotSupported),
    /// MissingLeaf80000000.
    MissingLeaf80000000,
    /// Leaf80000000.
    Leaf80000000(Leaf80000000NotSupported),
    /// MissingLeaf80000001.
    MissingLeaf80000001,
    /// Leaf80000001.
    Leaf80000001(Leaf80000001NotSupported),
    /// MissingLeaf80000007.
    MissingLeaf80000007,
    /// Leaf80000007
    Leaf80000007(Leaf80000007NotSupported),
    /// MissingLeaf80000008.
    MissingLeaf80000008,
    /// Leaf80000008.
    Leaf80000008(Leaf80000008NotSupported),
}

/// Why leaf 0x5 does not support another.
#[derive(Clone, Copy, Debug, PartialEq, Eq)]
pub enum Leaf5NotSupported {
    /// SmallestMonitorLineSize.
    SmallestMonitorLineSize,
    /// LargestMonitorLineSize.
    LargestMonitorLineSize,
    /// Ecx.
    Ecx,
}

/// Why leaf 0x6 does not support another.
#[derive(Clone, Copy, Debug, PartialEq, Eq)]
pub enum Leaf6NotSupported {
    /// Eax.
    Eax,
    /// NumberOfInterruptThresholdsInDigitalThermalSensor.
    NumberOfInterruptThresholdsInDigitalThermalSensor,
    /// IntelThreadDirectorClasses.
    IntelThreadDirectorClasses,
    /// Ecx.
    Ecx,
}

/// Why leaf 0x7 does not support another.
#[derive(Clone, Copy, Debug, PartialEq, Eq)]
pub enum Leaf7NotSupported {
    /// MissingSubleaf0.
    MissingSubleaf0,
    /// Subleaf0.
    Subleaf0(Leaf7Subleaf0NotSupported),
    /// MissingSubleaf1.
    MissingSubleaf1,
    /// Subleaf1.
    Subleaf1(Leaf7Subleaf1NotSupported),
}

/// Why subleaf 0 of leaf 0x7 does not support another.
#[derive(Clone, Copy, Debug, PartialEq, Eq)]
pub enum Leaf7Subleaf0NotSupported {
    /// MaxInputValueSubleaf.
    MaxInputValueSubleaf(u32, u32),
    /// Ebx.
    Ebx(u32, u32),
    /// Ecx.
    Ecx(u32, u32),
    /// Edx.
    Edx(u32, u32),
}

/// Why subleaf 1 of leaf 0x7 does not support another.
#[derive(Clone, Copy, Debug, PartialEq, Eq)]
pub enum Leaf7Subleaf1NotSupported {
    /// Eax.
    Eax,
    /// Ebx.
    Ebx,
}

/// Why leaf 0xA does not support another.
#[derive(Clone, Copy, Debug, PartialEq, Eq)]
pub enum LeafANotSupported {
    /// Ebx.
    Ebx,
}

/// Why leaf 0xF does not support another.
#[derive(Clone, Copy, Debug, PartialEq, Eq)]
pub enum LeafFNotSupported {
    /// MissingSubleaf0.
    MissingSubleaf0,
    /// Subleaf0.
    Subleaf0(LeafFSubleaf0NotSupported),
    /// MissingSubleaf1.
    MissingSubleaf1,
    /// Subleaf1.
    Subleaf1(LeafFSubleaf1NotSupported),
}

/// Why subleaf 0 of leaf 0xF does not support another.
#[derive(Clone, Copy, Debug, PartialEq, Eq)]
pub enum LeafFSubleaf0NotSupported {
    /// MaxRmidRange.
    MaxRmidRange,
    /// Edx.
    Edx,
}

/// Why subleaf 1 of leaf 0xF does not support another.
#[derive(Clone, Copy, Debug, PartialEq, Eq)]
pub enum LeafFSubleaf1NotSupported {
    /// RmidMax.
    RmidMax,
    /// Edx.
    Edx,
}

/// Why leaf 0x10 does not support another.
#[derive(Clone, Copy, Debug, PartialEq, Eq)]
pub enum Leaf10NotSupported {
    /// MissingSubleaf0.
    MissingSubleaf0,
    /// Subleaf0.
    Subleaf0(Leaf10Subleaf0NotSupported),
    /// MissingSubleaf1.
    MissingSubleaf1,
    /// Subleaf1.
    Subleaf1(Leaf10Subleaf1NotSupported),
    /// MissingSubleaf3.
    MissingSubleaf3,
    /// Subleaf3.
    Subleaf3(Leaf10Subleaf3NotSupported),
}

/// Why subleaf 0 of leaf 0x10 does not support another.
#[derive(Clone, Copy, Debug, PartialEq, Eq)]
pub enum Leaf10Subleaf0NotSupported {
    /// Ebx.
    Ebx,
}

/// Why subleaf 1 of leaf 0x10 does not support another.
#[derive(Clone, Copy, Debug, PartialEq, Eq)]
pub enum Leaf10Subleaf1NotSupported {
    /// Ecx.
    Ecx,
}

/// Why subleaf 3 of leaf 0x10 does not support another.
#[derive(Clone, Copy, Debug, PartialEq, Eq)]
pub enum Leaf10Subleaf3NotSupported {
    /// Ecx.
    Ecx,
}

/// Why leaf 0x14 does not support another.
#[derive(Clone, Copy, Debug, PartialEq, Eq)]
pub enum Leaf14NotSupported {
    /// MissingSubleaf0.
    MissingSubleaf0,
    /// Subleaf0.
    Subleaf0(Leaf14Subleaf0NotSupported),
}

/// Why subleaf 0 of leaf 0x14 does not support another.
#[derive(Clone, Copy, Debug, PartialEq, Eq)]
pub enum Leaf14Subleaf0NotSupported {
    /// MaxSubleaf.
    MaxSubleaf,
    /// Ebx.
    Ebx,
    /// Ecx.
    Ecx,
}

/// Why leaf 0x18 does not support another.
#[derive(Clone, Copy, Debug, PartialEq, Eq)]
pub enum Leaf18NotSupported {
    /// MissingSubleaf0.
    MissingSubleaf0,
    /// Subleaf0.
    Subleaf0(Leaf18Subleaf0NotSupported),
}

/// Why subleaf 0 of leaf 0x18 does not support another.
#[derive(Clone, Copy, Debug, PartialEq, Eq)]
pub enum Leaf18Subleaf0NotSupported {
    /// MissingSubleaf0.
    MaxSubleaf,
    /// Ebx.
    Ebx,
}

/// Why leaf 0x19 does not support another.
#[derive(Clone, Copy, Debug, PartialEq, Eq)]
pub enum Leaf19NotSupported {
    /// Eax.
    Eax,
    /// Ebx.
    Ebx,
    /// Ecx.
    Ecx,
}

/// Why leaf 0x1C does not support another.
#[derive(Clone, Copy, Debug, PartialEq, Eq)]
pub enum Leaf1CNotSupported {
    /// Eax.
    Eax,
    /// Ebx.
    Ebx,
    /// Ecx.
    Ecx,
}

/// Why leaf 0x20 does not support another.
#[derive(Clone, Copy, Debug, PartialEq, Eq)]
pub enum Leaf20NotSupported {
    /// MaxSubleaves.
    MaxSubleaves,
    /// Ebx.
    Ebx,
}

/// Why leaf 0x80000000 does not support another.
#[derive(Clone, Copy, Debug, PartialEq, Eq)]
pub enum Leaf80000000NotSupported {
    /// MaxExtendedFunctionInput.
    MaxExtendedFunctionInput,
}

/// Why leaf 0x80000001 does not support another.
#[derive(Clone, Copy, Debug, PartialEq, Eq)]
pub enum Leaf80000001NotSupported {
    /// Ecx.
    Ecx,
    /// Edx.
    Edx,
}

/// Why leaf 0x80000007 does not support another.
#[derive(Clone, Copy, Debug, PartialEq, Eq)]
pub enum Leaf80000007NotSupported {
    /// Edx.
    Edx,
}

/// Why leaf 0x80000008 does not support another.
#[derive(Clone, Copy, Debug, PartialEq, Eq)]
pub enum Leaf80000008NotSupported {
    /// PhysicalAddressBits.
    PhysicalAddressBits,
    /// LinearAddressBits.
    LinearAddressBits,
    /// Ebx.
    Ebx,
}


// ---------------------------------------------------------------------------------------------
// Combining feature relations
// ---------------------------------------------------------------------------------------------

/// How the features of one CPUID relate to those of another.
#[derive(Clone, Copy, Debug, PartialEq, Eq)]
pub enum FeatureRelation {
    /// Fewer features.
    Subset,
    /// The same features.
    Equal,
    /// More features.
    Superset,
}

/// The relation of two combinations of features from the relations of their parts: equal
/// when both are, a superset when one is and the other is not smaller, a subset when
/// either is; unknown when either is unknown.
pub open spec fn combined(a: Option<FeatureRelation>, b: Option<FeatureRelation>) -> Option<FeatureRelation> {
    match (a, b) {
        (Some(x), Some(y)) => match (x, y) {
            (FeatureRelation::Equal, FeatureRelation::Equal) => Some(FeatureRelation::Equal),
            (FeatureRelation::Subset, _) => Some(FeatureRelation::Subset),
            (_, FeatureRelation::Subset) => Some(FeatureRelation::Subset),
            _ => Some(FeatureRelation::Superset),
        },
        _ => None,
    }
}

/// Combines two partial orderings of features.
pub fn cpo(a: Option<FeatureRelation>, b: Option<FeatureRelation>) -> (r: Option<FeatureRelation>)
    ensures
        r == combined(a, b),
{
    let (x, y) = match (a, b) {
        (Some(x), Some(y)) => (x, y),
        (_, _) => return None,
    };
    match (x, y) {
        (FeatureRelation::Equal, FeatureRelation::Equal) => Some(FeatureRelation::Equal),
        (FeatureRelation::Superset, FeatureRelation::Superset)
        | (FeatureRelation::Equal, FeatureRelation::Superset)
        | (FeatureRelation::Superset, FeatureRelation::Equal) => Some(FeatureRelation::Superset),
        (FeatureRelation::Subset, _) | (_, FeatureRelation::Subset) => Some(FeatureRelation::Subset),
    }
}

/// Combining relations does not depend on their order or grouping, and equality combines
/// as a neutral element.
pub proof fn lemma_combined_laws(a: Option<FeatureRelation>, b: Option<FeatureRelation>, c: Option<FeatureRelation>)
    ensures
        combined(a, b) == combined(b, a),
        combined(combined(a, b), c) == combined(a, combined(b, c)),
        a is Some ==> combined(a, Some(FeatureRelation::Equal)) == a,
{
}

/// The deterministic cache leaf tells how many logical CPUs share each cache: an L1 or L2
/// cache is shared by the threads of a core (`2^cpu_bits` of them), an L3 cache by all the
/// `cpu_count` vCPUs. Once leaf 0x4 is set, every subleaf whose cache level (EAX bits 5..8)
/// is 1 or 2 holds `2^cpu_bits - 1` in EAX bits 14..26, one whose level is 3 holds
/// `cpu_count - 1` there and one of another level keeps what it had; every subleaf holds the
/// largest core ID of the package, `cpu_count / 2^cpu_bits - 1`, in EAX bits 26..32; the
/// other bits and registers of leaf 0x4, and every other leaf, are unchanged.
pub proof fn lemma_leaf4_sharing_by_level(
    s: Seq<(CpuidKey, CpuidEntry)>,
    cpu_count: u8,
    cpu_bits: u8,
    j: int,
)
    requires
        cpu_bits < 8,
        cpu_count >= per_core(cpu_bits),
        0 <= j < s.len(),
        leaf4_applied(s, cpu_count, per_core(cpu_bits)).1 is Ok,
    ensures
        leaf4_applied(s, cpu_count, per_core(cpu_bits)).0.len() == s.len(),
        leaf4_applied(s, cpu_count, per_core(cpu_bits)).0[j].0 == s[j].0,
        leaf4_applied(s, cpu_count, per_core(cpu_bits)).0[j].1.flags == s[j].1.flags,
        s[j].0.leaf != 4 ==> leaf4_applied(s, cpu_count, per_core(cpu_bits)).0[j] == s[j],
        s[j].0.leaf == 4 ==> ({
            let r = s[j].1.result;
            let out = leaf4_applied(s, cpu_count, per_core(cpu_bits)).0[j].1.result;
            let level = get_range(r.eax, 5, 3);
            &&& get_range(out.eax, 0, 5) == get_range(r.eax, 0, 5)
            &&& get_range(out.eax, 5, 3) == level
            &&& get_range(out.eax, 8, 6) == get_range(r.eax, 8, 6)
            &&& (level == 1 || level == 2) ==> get_range(out.eax, 14, 12) == per_core(cpu_bits) - 1
            &&& level == 3 ==> get_range(out.eax, 14, 12) == cpu_count - 1
            &&& !(1 <= level <= 3) ==> get_range(out.eax, 14, 12) == get_range(r.eax, 14, 12)
            &&& get_range(out.eax, 26, 6) == cpu_count / per_core(cpu_bits) - 1
            &&& out.ebx == r.ebx && out.ecx == r.ecx && out.edx == r.edx
        }),
{
    let cpc = per_core(cpu_bits);
    lemma_per_core(cpu_bits);
    lemma_range_max_values();
    lemma_find_leaf_from(s, 4, 0);
    if s[j].0.leaf == 4 {
        assert(cores_per_package_field(cpu_count, cpc) <= 63);
        let r = s[j].1.result;
        let sh = leaf4_sharing(r, cpu_count, cpc);
        let f = cores_per_package_field(cpu_count, cpc) as u32;
        let level = get_range(r.eax, 5, 3);
        let v: u32 = if level == 1 || level == 2 {
            (cpc - 1) as u32
        } else {
            (cpu_count - 1) as u32
        };
        if 1 <= level <= 3 {
            lemma_get_after_set(r.eax, 14, 12, v);
            lemma_set_frame(r.eax, 14, 12, v, 5, 3);
            lemma_set_frame(r.eax, 14, 12, v, 0, 5);
            lemma_set_frame(r.eax, 14, 12, v, 8, 6);
        }
        assert(cpu_count / cpc >= 1) by (nonlinear_arith)
            requires
                cpu_count >= cpc,
                cpc >= 1,
        ;
        lemma_get_after_set(sh.eax, 26, 6, f);
        lemma_set_frame(sh.eax, 26, 6, f, 14, 12);
        lemma_set_frame(sh.eax, 26, 6, f, 5, 3);
        lemma_set_frame(sh.eax, 26, 6, f, 0, 5);
        lemma_set_frame(sh.eax, 26, 6, f, 8, 6);
    } else {
        if cores_per_package_field(cpu_count, cpc) > 63 {
            assert(leaf4_applied(s, cpu_count, cpc).0 == s);
        }
    }
}

} // verus!
