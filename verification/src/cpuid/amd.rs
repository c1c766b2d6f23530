//! AMD specific CPUID handling: the changes applied to an AMD CPUID for a guest vCPU.

use super::{
    apply_brand_string, brand_applied, brand_result, cache_sharing, entries_get,
    entries_get_mut, entries_insert, entries_remove, find_key,
    holds_table, lemma_find_from, lemma_lookup_after_set, lemma_sorted_find, lookup,
    modify_result, set_result, set_result_at, sorted_keys, table_of, table_result, table_set,
    table_set_result, CCpuidResult, CpuidEntry, CpuidKey, Entries, KvmCpuidFlags,
    MissingBrandStringLeaves, Table,
};
use crate::bit_fields::{
    checked_assign, get, get_range, lemma_get_after_set, lemma_range_max_values,
    lemma_set_frame, range_max, set_bit, set_flag, set_range, CheckedAssignError,
};
use vstd::prelude::*;

verus! {

/// A CPUID following the AMD specification, its entries in increasing key order.
#[derive(Clone, Debug, PartialEq, Eq)]
pub struct AmdCpuid(pub Entries);

/// Error of [`AmdCpuid::normalize`].
#[derive(Clone, Copy, Debug, PartialEq, Eq)]
pub enum NormalizeCpuidError {
    /// Provided `cpu_bits` is >=8.
    CpuBits(u8),
    /// Missing leaf 0x80000000.
    MissingLeaf0x80000000,
    /// Missing leaf 0x80000001.
    MissingLeaf0x80000001,
    /// Failed to set feature entry leaf.
    FeatureEntry(FeatureEntryError),
    /// Failed to set extended cache topology leaf.
    ExtendedCacheTopology(ExtendedCacheTopologyError),
    /// Failed to set extended APIC ID leaf.
    ExtendedApicId(ExtendedApicIdError),
    /// Failed to set brand string.
    BrandString(MissingBrandStringLeaves),
}

/// Error of setting leaf 0x80000008.
#[derive(Clone, Copy, Debug, PartialEq, Eq)]
pub enum FeatureEntryError {
    /// Missing leaf 0x80000008.
    MissingLeaf0x80000008,
    /// Failed to set `nt` (number of physical threads) due to overflow.
    NumberOfPhysicalThreadsOverflow,
    /// Failed to set `nt` (number of physical threads).
    NumberOfPhysicalThreads(CheckedAssignError),
}

/// Error of setting leaf 0x8000001d.
#[derive(Clone, Copy, Debug, PartialEq, Eq)]
pub enum ExtendedCacheTopologyError {
    /// Missing leaf 0x8000001d.
    MissingLeaf0x8000001d,
    /// Failed to set `num_sharing_cache` due to overflow.
    NumSharingCacheOverflow,
    /// Failed to set `num_sharing_cache`.
    NumSharingCache(CheckedAssignError),
}

/// Error of setting leaf 0x8000001e.
#[derive(Clone, Copy, Debug, PartialEq, Eq)]
pub enum ExtendedApicIdError {
    /// Missing leaf 0x8000001e.
    MissingLeaf0x8000001e,
    /// Failed to set `extended_apic_id`.
    ExtendedApicId(CheckedAssignError),
    /// Failed to set `compute_unit_id`.
    ComputeUnitId(CheckedAssignError),
    /// Failed to set `threads_per_compute_unit`.
    ThreadPerComputeUnit(CheckedAssignError),
}

/// Error of checking whether an AMD CPUID supports another.
#[derive(Clone, Copy, Debug, PartialEq, Eq)]
pub struct AmdCpuidNotSupported;

/// The host's extended topology leaves, passed through to the guest: the extended APIC ID
/// leaf (0x8000001e) and the extended cache topology subleaves (0x8000001d) from subleaf 0
/// on, as the host reports them.
#[derive(Clone, Debug, PartialEq, Eq)]
pub struct HostExtendedTopology {
    /// Leaf 0x8000001e.
    pub extended_apic_id: CCpuidResult,
    /// Subleaves 0, 1, ... of leaf 0x8000001d.
    pub cache_topology: Vec<CCpuidResult>,
}

/// The cache type of an extended cache topology subleaf (EAX bits 0..5); zero means no
/// more caches.
pub open spec fn cache_type(r: CCpuidResult) -> u32 {
    crate::bit_fields::get_range(r.eax, 0, 5)
}

/// Whether an extended cache topology subleaf describes a cache (its cache type is not
/// zero); the host's subleaves end at the first that does not.
pub fn has_cache(r: &CCpuidResult) -> (b: bool)
    ensures
        b == (cache_type(*r) != 0),
{
    get(r.eax, 0, 5) != 0
}

/// The number of host cache subleaves from position `j` on before the first without a
/// cache.
pub open spec fn cache_count_from(c: Seq<CCpuidResult>, j: int) -> nat
    decreases c.len() - j,
{
    if j < 0 || j >= c.len() || cache_type(c[j]) == 0 {
        0
    } else {
        1 + cache_count_from(c, j + 1)
    }
}

proof fn lemma_cache_count(c: Seq<CCpuidResult>, j: int)
    requires
        0 <= j <= c.len(),
    ensures
        j + cache_count_from(c, j) <= c.len(),
        forall|m: int| j <= m < j + cache_count_from(c, j) ==> cache_type(#[trigger] c[m]) != 0,
        j + cache_count_from(c, j) < c.len() ==> cache_type(c[j + cache_count_from(c, j)]) == 0,
    decreases c.len() - j,
{
    if j < c.len() && cache_type(c[j]) != 0 {
        lemma_cache_count(c, j + 1);
    }
}

/// The key of leaf `leaf`, subleaf 0.
pub open spec fn key0(leaf: u32) -> CpuidKey {
    CpuidKey { leaf, subleaf: 0 }
}

/// The brand string of every AMD guest: `AMD EPYC` padded with zero bytes.
pub open spec fn amd_brand() -> Seq<u8> {
    seq![0x41u8, 0x4d, 0x44, 0x20, 0x45, 0x50, 0x59, 0x43] + Seq::new(40, |i: int| 0u8)
}

/// The table after writing brand-string leaf `n`, if present.
pub open spec fn table_brand_leaf(t: Table, b: Seq<u8>, n: int) -> Option<Table> {
    let k = key0((0x8000_0002 + n) as u32);
    if t(k) is None {
        None
    } else {
        Some(table_set_result(t, k, brand_result(b, n)))
    }
}

/// The table after writing the brand string, and whether all three leaves were present.
pub open spec fn table_brand(t: Table, b: Seq<u8>) -> (Table, bool) {
    match table_brand_leaf(t, b, 0) {
        None => (t, false),
        Some(t1) => match table_brand_leaf(t1, b, 1) {
            None => (t1, false),
            Some(t2) => match table_brand_leaf(t2, b, 2) {
                None => (t2, false),
                Some(t3) => (t3, true),
            },
        },
    }
}

/// Writing the brand string into a list with increasing keys writes it into its table.
proof fn lemma_brand_table(s: Seq<(CpuidKey, CpuidEntry)>, b: Seq<u8>, t: Table)
    requires
        holds_table(s, t),
    ensures
        holds_table(brand_applied(s, b).0, table_brand(t, b).0),
        brand_applied(s, b).1 == table_brand(t, b).1,
{
    let k2 = key0(0x8000_0002);
    let k3 = key0(0x8000_0003);
    let k4 = key0(0x8000_0004);
    lemma_find_from(s, k2, 0);
    if let Some(i) = find_key(s, k2) {
        let s1 = set_result_at(s, i, brand_result(b, 0));
        let t1 = table_set_result(t, k2, brand_result(b, 0));
        lemma_lookup_after_set(s, i, brand_result(b, 0));
        assert(holds_table(s1, t1)) by {
            assert forall|k: CpuidKey| #[trigger] lookup(s1, k) == t1(k) by {
                assert(lookup(s, k) == t(k));
            }
        }
        lemma_find_from(s1, k3, 0);
        if let Some(j) = find_key(s1, k3) {
            let s2 = set_result_at(s1, j, brand_result(b, 1));
            let t2 = table_set_result(t1, k3, brand_result(b, 1));
            lemma_lookup_after_set(s1, j, brand_result(b, 1));
            assert(holds_table(s2, t2)) by {
                assert forall|k: CpuidKey| #[trigger] lookup(s2, k) == t2(k) by {
                    assert(lookup(s1, k) == t1(k));
                }
            }
            lemma_find_from(s2, k4, 0);
            if let Some(m) = find_key(s2, k4) {
                let s3 = set_result_at(s2, m, brand_result(b, 2));
                let t3 = table_set_result(t2, k4, brand_result(b, 2));
                lemma_lookup_after_set(s2, m, brand_result(b, 2));
                assert(holds_table(s3, t3)) by {
                    assert forall|k: CpuidKey| #[trigger] lookup(s3, k) == t3(k) by {
                        assert(lookup(s2, k) == t2(k));
                    }
                }
            } else {
                assert(lookup(s2, k4) == t2(k4));
            }
        } else {
            assert(lookup(s1, k3) == t1(k3));
        }
    } else {
        assert(lookup(s, k2) == t(k2));
    }
}

/// Leaf 0x80000000 with the largest extended function (EAX) set to 0x8000001f, so that the
/// extended cache topology leaf is in range.
pub open spec fn largest_extended_fn(r: CCpuidResult) -> CCpuidResult {
    CCpuidResult { eax: set_range(r.eax, 0, 32, 0x8000_001f), ..r }
}

/// Leaf 0x80000001 with the topology extensions bit (ECX bit 22) set.
pub open spec fn topology_extensions(r: CCpuidResult) -> CCpuidResult {
    CCpuidResult { ecx: set_bit(r.ecx, 22, true), ..r }
}

/// Leaf 0x80000008 with the APIC ID size (ECX bits 12..16) set to 7, allowing 64 threads
/// in a package.
pub open spec fn apic_id_size_set(r: CCpuidResult) -> CCpuidResult {
    CCpuidResult { ecx: set_range(r.ecx, 12, 4, 7), ..r }
}

/// Leaf 0x80000008 with the APIC ID size set, and the number of physical threads (ECX bits
/// 0..8) set to `cpu_count - 1`.
pub open spec fn feature_entry(r: CCpuidResult, cpu_count: u8) -> CCpuidResult {
    CCpuidResult { ecx: set_range(apic_id_size_set(r).ecx, 0, 8, (cpu_count - 1) as u32), ..r }
}

/// Leaf 0x8000001e for the vCPU: its extended APIC ID (EAX) is its index, its compute unit
/// (EBX bits 0..8) its core, two consecutive CPUs sharing a core under hyper-threading,
/// the threads per compute unit (EBX bits 8..16) `cpus_per_core - 1`, and a single node
/// (ECX bits 8..11 and 0..8 zero).
pub open spec fn extended_apic_id(r: CCpuidResult, cpu_index: u8, cpus_per_core: u8) -> CCpuidResult {
    CCpuidResult {
        eax: set_range(r.eax, 0, 32, cpu_index as u32),
        ebx: set_range(
            set_range(r.ebx, 0, 8, (cpu_index / cpus_per_core) as u32),
            8,
            8,
            (cpus_per_core - 1) as u32,
        ),
        ecx: set_range(set_range(r.ecx, 8, 3, 0), 0, 8, 0),
        ..r
    }
}

/// The table after the host's extended topology leaves are passed through: leaf 0xB
/// removed, leaf 0x8000001e and the cache subleaves of leaf 0x8000001d taken from the host.
pub open spec fn passed_through(t: Table, host: HostExtendedTopology) -> Table {
    let t1 = table_set(t, key0(0xB), None);
    let t2 = table_set(
        t1,
        key0(0x8000_001e),
        Some(CpuidEntry { flags: KvmCpuidFlags(0), result: host.extended_apic_id }),
    );
    let n = cache_count_from(host.cache_topology@, 0);
    |k: CpuidKey|
        if k.leaf == 0x8000_001d && k.subleaf < n {
            Some(
                CpuidEntry {
                    flags: KvmCpuidFlags(1),
                    result: host.cache_topology@[k.subleaf as int],
                },
            )
        } else {
            t2(k)
        }
}

/// The table with the cache sharing of every subleaf of leaf 0x8000001d set.
pub open spec fn shared_caches(t: Table, cpu_count: u8, cpus_per_core: u8) -> Table {
    |k: CpuidKey|
        if k.leaf == 0x8000_001d {
            match t(k) {
                Some(e) => Some(
                    CpuidEntry {
                        flags: e.flags,
                        result: cache_sharing(e.result, cpu_count, cpus_per_core),
                    },
                ),
                None => None,
            }
        } else {
            t(k)
        }
}

/// The table after the AMD-specific changes for the vCPU `cpu_index` of `cpu_count`, and
/// the outcome; changing stops at the first error.
pub open spec fn amd_normalized(
    t0: Table,
    cpu_index: u8,
    cpu_count: u8,
    cpu_bits: u8,
    host: HostExtendedTopology,
) -> (Table, Result<(), NormalizeCpuidError>) {
    if cpu_bits >= 8 {
        (t0, Err(NormalizeCpuidError::CpuBits(cpu_bits)))
    } else {
        let cpus_per_core = (1u8 << cpu_bits) as u8;
        let t3 = passed_through(t0, host);
        if t3(key0(0x8000_0000)) is None {
            (t3, Err(NormalizeCpuidError::MissingLeaf0x80000000))
        } else {
            let t4 = table_set_result(
                t3,
                key0(0x8000_0000),
                largest_extended_fn(table_result(t3, key0(0x8000_0000))),
            );
            if t4(key0(0x8000_0001)) is None {
                (t4, Err(NormalizeCpuidError::MissingLeaf0x80000001))
            } else {
                let t5 = table_set_result(
                    t4,
                    key0(0x8000_0001),
                    topology_extensions(table_result(t4, key0(0x8000_0001))),
                );
                if t5(key0(0x8000_0008)) is None {
                    (
                        t5,
                        Err(
                            NormalizeCpuidError::FeatureEntry(
                                FeatureEntryError::MissingLeaf0x80000008,
                            ),
                        ),
                    )
                } else if cpu_count == 0 {
                    // No thread count below one: `cpu_count - 1` would overflow.
                    (
                        table_set_result(
                            t5,
                            key0(0x8000_0008),
                            apic_id_size_set(table_result(t5, key0(0x8000_0008))),
                        ),
                        Err(
                            NormalizeCpuidError::FeatureEntry(
                                FeatureEntryError::NumberOfPhysicalThreadsOverflow,
                            ),
                        ),
                    )
                } else {
                    let t6 = table_set_result(
                        t5,
                        key0(0x8000_0008),
                        feature_entry(table_result(t5, key0(0x8000_0008)), cpu_count),
                    );
                    let t7 = shared_caches(t6, cpu_count, cpus_per_core);
                    if t7(key0(0x8000_001e)) is None {
                        (
                            t7,
                            Err(
                                NormalizeCpuidError::ExtendedApicId(
                                    ExtendedApicIdError::MissingLeaf0x8000001e,
                                ),
                            ),
                        )
                    } else {
                        let t8 = table_set_result(
                            t7,
                            key0(0x8000_001e),
                            extended_apic_id(
                                table_result(t7, key0(0x8000_001e)),
                                cpu_index,
                                cpus_per_core,
                            ),
                        );
                        let (t9, ok) = table_brand(t8, amd_brand());
                        if ok {
                            (t9, Ok(()))
                        } else {
                            (t9, Err(NormalizeCpuidError::BrandString(MissingBrandStringLeaves)))
                        }
                    }
                }
            }
        }
    }
}

fn default_brand_string() -> (r: [u8; 48])
    ensures
        r@ == amd_brand(),
{
    let r = [
        0x41u8, 0x4d, 0x44, 0x20, 0x45, 0x50, 0x59, 0x43, 0, 0, 0, 0, 0, 0, 0, 0, 0, 0, 0, 0,
        0, 0, 0, 0, 0, 0, 0, 0, 0, 0, 0, 0, 0, 0, 0, 0, 0, 0, 0, 0, 0, 0, 0, 0, 0, 0, 0, 0,
    ];
    assert(r@ =~= amd_brand());
    r
}

/// Passes the host's extended topology leaves through.
fn pass_through_host_leaves(entries: &mut Entries, host: &HostExtendedTopology)
    requires
        sorted_keys(old(entries)@),
        host.cache_topology@.len() <= 0xffff_ffff,
    ensures
        holds_table(final(entries)@, passed_through(table_of(old(entries)@), *host)),
{
    let ghost t0 = table_of(entries@);
    // Some kernels return the Intel-only leaf 0xB for AMD too: remove it.
    entries_remove(entries, &CpuidKey::leaf(0xB));
    entries_insert(
        entries,
        CpuidKey::leaf(0x8000_001e),
        CpuidEntry { flags: KvmCpuidFlags::empty(), result: host.extended_apic_id },
    );
    let ghost t2 = table_set(
        table_set(t0, key0(0xB), None),
        key0(0x8000_001e),
        Some(CpuidEntry { flags: KvmCpuidFlags(0), result: host.extended_apic_id }),
    );
    assert(holds_table(entries@, t2));
    let ghost c = host.cache_topology@;
    proof {
        lemma_cache_count(c, 0);
    }
    let mut j: usize = 0;
    while j < host.cache_topology.len()
        invariant_except_break
            forall|m: int| 0 <= m < j ==> cache_type(#[trigger] c[m]) != 0,
        invariant
            0 <= j <= host.cache_topology.len(),
            c == host.cache_topology@,
            c.len() <= 0xffff_ffff,
            j <= cache_count_from(c, 0),
            cache_count_from(c, 0) <= c.len(),
            sorted_keys(entries@),
            forall|k: CpuidKey| #[trigger] lookup(entries@, k) == (if k.leaf == 0x8000_001d && k.subleaf < j {
                Some(CpuidEntry { flags: KvmCpuidFlags(1), result: c[k.subleaf as int] })
            } else {
                t2(k)
            }),
        ensures
            j == cache_count_from(c, 0),
        decreases host.cache_topology.len() - j,
    {
        let result = host.cache_topology[j];
        if get(result.eax, 0, 5) == 0 {
            proof {
                lemma_cache_count(c, 0);
                if j < cache_count_from(c, 0) {
                    assert(cache_type(c[j as int]) != 0);
                }
            }
            break;
        }
        proof {
            lemma_cache_count(c, 0);
        }
        entries_insert(
            entries,
            CpuidKey::subleaf(0x8000_001d, j as u32),
            CpuidEntry { flags: KvmCpuidFlags::significant_index(), result },
        );
        j = j + 1;
    }
    proof {
        lemma_cache_count(c, 0);
        let t3 = passed_through(t0, *host);
        assert forall|k: CpuidKey| #[trigger] lookup(entries@, k) == t3(k) by {}
    }
}

/// Sets the cache sharing of every extended cache topology subleaf.
fn share_caches(entries: &mut Entries, cpu_count: u8, cpu_bits: u8) -> (r: Result<(), ExtendedCacheTopologyError>)
    requires
        sorted_keys(old(entries)@),
        cpu_bits < 8,
        cpu_count >= 1,
    ensures
        r is Ok,
        holds_table(final(entries)@, shared_caches(table_of(old(entries)@), cpu_count, (1u8 << cpu_bits) as u8)),
{
    let ghost s0 = entries@;
    let ghost t6 = table_of(s0);
    let cpus_per_core: u8 = 1u8 << cpu_bits;
    proof {
        lemma_range_max_values();
        assert(1u8 <= (1u8 << cpu_bits) && (1u8 << cpu_bits) <= 128u8) by (bit_vector)
            requires
                cpu_bits < 8,
        ;
    }
    let mut i: usize = 0;
    while i < entries.len()
        invariant
            0 <= i <= entries.len(),
            s0 == old(entries)@,
            t6 == table_of(s0),
            sorted_keys(s0),
            cpus_per_core == (1u8 << cpu_bits) as u8,
            1 <= cpus_per_core <= 128,
            cpu_count >= 1,
            entries@.len() == s0.len(),
            forall|j: int| 0 <= j < s0.len() ==> (#[trigger] entries@[j]).0 == s0[j].0 && entries@[j].1.flags
                == s0[j].1.flags,
            forall|j: int| 0 <= j < i ==> (#[trigger] entries@[j]).1.result == (if s0[j].0.leaf == 0x8000_001d {
                cache_sharing(s0[j].1.result, cpu_count, cpus_per_core)
            } else {
                s0[j].1.result
            }),
            forall|j: int| i <= j < s0.len() ==> (#[trigger] entries@[j]) == s0[j],
            range_max(3) == 7,
            range_max(12) == 4095,
        decreases entries.len() - i,
    {
        if entries[i].0.leaf == 0x8000_001d {
            let mut r = entries[i].1.result;
            let level = get(r.eax, 5, 3);
            if level == 1 || level == 2 {
                // The L1 and L2 caches are shared by the threads of a core.
                match checked_assign(&mut r.eax, 14, 12, (cpus_per_core - 1) as u32) {
                    Ok(()) => {},
                    Err(e) => return Err(ExtendedCacheTopologyError::NumSharingCache(e)),
                }
            } else if level == 3 {
                // The L3 cache is shared among all the logical threads.
                match checked_assign(&mut r.eax, 14, 12, (cpu_count - 1) as u32) {
                    Ok(()) => {},
                    Err(e) => return Err(ExtendedCacheTopologyError::NumSharingCache(e)),
                }
            }
            set_result(entries, i, r);
        }
        i = i + 1;
    }
    proof {
        assert(sorted_keys(entries@)) by {
            assert forall|a: int, b: int| 0 <= a < b < entries@.len() implies super::key_lt(
                #[trigger] entries@[a].0,
                #[trigger] entries@[b].0,
            ) by {
                assert(entries@[a].0 == s0[a].0);
                assert(entries@[b].0 == s0[b].0);
            }
        }
        assert forall|k: CpuidKey| #[trigger] lookup(entries@, k) == shared_caches(t6, cpu_count, cpus_per_core)(k) by {
            super::lemma_find_from(s0, k, 0);
            match find_key(s0, k) {
                Some(p) => {
                    lemma_sorted_find(s0, p);
                    lemma_sorted_find(entries@, p);
                },
                None => {
                    assert forall|j: int| 0 <= j < entries@.len() implies entries@[j].0 != k by {
                        assert(entries@[j].0 == s0[j].0);
                    }
                    super::lemma_absent_not_found(entries@, k);
                },
            }
        }
    }
    Ok(())
}

impl super::CpuidTrait for AmdCpuid {
    open spec fn cpuid_entries(&self) -> Seq<(CpuidKey, CpuidEntry)> {
        self.0@
    }

    /// Gets the entry for `key`.
    fn get(&self, key: &CpuidKey) -> (r: Option<&CpuidEntry>) {
        entries_get(&self.0, key)
    }

    /// Gets the entry for `key` for modification.
    fn get_mut(&mut self, key: &CpuidKey) -> (r: Option<&mut CpuidEntry>) {
        entries_get_mut(&mut self.0, key)
    }
}

impl AmdCpuid {
    /// Applies the AMD-specific changes for the vCPU `cpu_index` of `cpu_count` with
    /// `2^cpu_bits` logical CPUs per core: the host's extended topology leaves passed
    /// through (and leaf 0xB removed), the largest extended function raised to
    /// 0x8000001f, topology extensions announced, all threads in one package, the sharing
    /// of caches, the vCPU's extended APIC ID and core, and the `AMD EPYC` brand string.
    ///
    /// # Errors
    ///
    /// When `cpu_bits` is 8 or more, one of the leaves changed is missing, or `cpu_count` is
    /// zero (there is no number of physical threads below one).
    pub fn normalize(
        &mut self,
        cpu_index: u8,
        cpu_count: u8,
        cpu_bits: u8,
        host: &HostExtendedTopology,
    ) -> (r: Result<(), NormalizeCpuidError>)
        requires
            sorted_keys(old(self).0@),
            host.cache_topology@.len() <= 0xffff_ffff,
        ensures
            holds_table(
                final(self).0@,
                amd_normalized(table_of(old(self).0@), cpu_index, cpu_count, cpu_bits, *host).0,
            ),
            r == amd_normalized(table_of(old(self).0@), cpu_index, cpu_count, cpu_bits, *host).1,
    {
        let ghost t0 = table_of(self.0@);
        if cpu_bits >= 8 {
            return Err(NormalizeCpuidError::CpuBits(cpu_bits));
        }
        let cpus_per_core: u8 = 1u8 << cpu_bits;
        proof {
            lemma_range_max_values();
            assert(1u8 <= (1u8 << cpu_bits) && (1u8 << cpu_bits) <= 128u8) by (bit_vector)
                requires
                    cpu_bits < 8,
            ;
        }
        pass_through_host_leaves(&mut self.0, host);
        let ghost t3 = passed_through(t0, *host);

        // The largest extended function covers the extended cache topology leaf.
        let k0 = CpuidKey::leaf(0x8000_0000);
        let mut r0 = match entries_get(&self.0, &k0) {
            Some(e) => e.result,
            None => return Err(NormalizeCpuidError::MissingLeaf0x80000000),
        };
        match checked_assign(&mut r0.eax, 0, 32, 0x8000_001f) {
            Ok(()) => {},
            Err(_) => return Err(NormalizeCpuidError::MissingLeaf0x80000000),
        }
        modify_result(&mut self.0, &k0, r0);
        let ghost t4 = table_set_result(t3, key0(0x8000_0000), largest_extended_fn(table_result(t3, key0(0x8000_0000))));
        assert(holds_table(self.0@, t4)) by {
            assert forall|k: CpuidKey| #[trigger] lookup(self.0@, k) == t4(k) by {}
        }

        // Topology extensions, since the extended cache topology leaf is used.
        let k1 = CpuidKey::leaf(0x8000_0001);
        let mut r1 = match entries_get(&self.0, &k1) {
            Some(e) => e.result,
            None => return Err(NormalizeCpuidError::MissingLeaf0x80000001),
        };
        set_flag(&mut r1.ecx, 22, true);
        modify_result(&mut self.0, &k1, r1);
        let ghost t5 = table_set_result(t4, key0(0x8000_0001), topology_extensions(table_result(t4, key0(0x8000_0001))));
        assert(holds_table(self.0@, t5)) by {
            assert forall|k: CpuidKey| #[trigger] lookup(self.0@, k) == t5(k) by {}
        }

        // At most 128 threads: all of them on one processor.
        let k8 = CpuidKey::leaf(0x8000_0008);
        let mut r8 = match entries_get(&self.0, &k8) {
            Some(e) => e.result,
            None => return Err(NormalizeCpuidError::FeatureEntry(FeatureEntryError::MissingLeaf0x80000008)),
        };
        // At most 64 logical threads within a package.
        match checked_assign(&mut r8.ecx, 12, 4, 7) {
            Ok(()) => {},
            Err(_) => return Err(NormalizeCpuidError::FeatureEntry(FeatureEntryError::MissingLeaf0x80000008)),
        }
        if cpu_count == 0 {
            // There is no number of physical threads below one.
            modify_result(&mut self.0, &k8, r8);
            let ghost t6e = table_set_result(t5, key0(0x8000_0008), apic_id_size_set(table_result(t5, key0(0x8000_0008))));
            assert(holds_table(self.0@, t6e)) by {
                assert forall|k: CpuidKey| #[trigger] lookup(self.0@, k) == t6e(k) by {}
            }
            return Err(NormalizeCpuidError::FeatureEntry(FeatureEntryError::NumberOfPhysicalThreadsOverflow));
        }
        match checked_assign(&mut r8.ecx, 0, 8, (cpu_count - 1) as u32) {
            Ok(()) => {},
            Err(e) => return Err(NormalizeCpuidError::FeatureEntry(FeatureEntryError::NumberOfPhysicalThreads(e))),
        }
        modify_result(&mut self.0, &k8, r8);
        let ghost t6 = table_set_result(t5, key0(0x8000_0008), feature_entry(table_result(t5, key0(0x8000_0008)), cpu_count));
        assert(holds_table(self.0@, t6)) by {
            assert forall|k: CpuidKey| #[trigger] lookup(self.0@, k) == t6(k) by {}
        }

        // The sharing of caches.
        match share_caches(&mut self.0, cpu_count, cpu_bits) {
            Ok(()) => {},
            Err(e) => return Err(NormalizeCpuidError::ExtendedCacheTopology(e)),
        }
        let ghost t7 = shared_caches(t6, cpu_count, cpus_per_core);
        assert(holds_table(self.0@, t7)) by {
            assert forall|k: CpuidKey| #[trigger] lookup(self.0@, k) == t7(k) by {
                assert(lookup(old(self).0@, k) == t0(k));
            }
        }

        // The extended APIC ID: two consecutive CPUs share a core under hyper-threading.
        let core_id: u32 = (cpu_index / cpus_per_core) as u32;
        let ke = CpuidKey::leaf(0x8000_001e);
        let mut re = match entries_get(&self.0, &ke) {
            Some(e) => e.result,
            None => return Err(NormalizeCpuidError::ExtendedApicId(ExtendedApicIdError::MissingLeaf0x8000001e)),
        };
        match checked_assign(&mut re.eax, 0, 32, cpu_index as u32) {
            Ok(()) => {},
            Err(e) => return Err(NormalizeCpuidError::ExtendedApicId(ExtendedApicIdError::ExtendedApicId(e))),
        }
        match checked_assign(&mut re.ebx, 0, 8, core_id) {
            Ok(()) => {},
            Err(e) => return Err(NormalizeCpuidError::ExtendedApicId(ExtendedApicIdError::ComputeUnitId(e))),
        }
        match checked_assign(&mut re.ebx, 8, 8, (cpus_per_core - 1) as u32) {
            Ok(()) => {},
            Err(e) => return Err(NormalizeCpuidError::ExtendedApicId(ExtendedApicIdError::ThreadPerComputeUnit(e))),
        }
        // One node per processor, and all the CPUs in the same node.
        match checked_assign(&mut re.ecx, 8, 3, 0) {
            Ok(()) => {},
            Err(_) => return Err(NormalizeCpuidError::ExtendedApicId(ExtendedApicIdError::MissingLeaf0x8000001e)),
        }
        match checked_assign(&mut re.ecx, 0, 8, 0) {
            Ok(()) => {},
            Err(_) => return Err(NormalizeCpuidError::ExtendedApicId(ExtendedApicIdError::MissingLeaf0x8000001e)),
        }
        modify_result(&mut self.0, &ke, re);
        let ghost t8 = table_set_result(t7, key0(0x8000_001e), extended_apic_id(table_result(t7, key0(0x8000_001e)), cpu_index, cpus_per_core));
        assert(holds_table(self.0@, t8)) by {
            assert forall|k: CpuidKey| #[trigger] lookup(self.0@, k) == t8(k) by {}
        }

        // The brand string.
        let ghost s8 = self.0@;
        let brand = default_brand_string();
        let res = apply_brand_string(&mut self.0, &brand);
        proof {
            lemma_brand_table(s8, amd_brand(), t8);
        }
        match res {
            Ok(()) => Ok(()),
            Err(e) => Err(NormalizeCpuidError::BrandString(e)),
        }
    }
}

/// The extended cache topology leaf tells how many logical CPUs share each cache: an L1 or
/// L2 cache is shared by the threads of a core (`2^cpu_bits` of them), an L3 cache by all
/// the `cpu_count` vCPUs. Once the sharing is set, every subleaf of leaf 0x8000001d whose
/// cache level (EAX bits 5..8) is 1 or 2 holds `2^cpu_bits - 1` in EAX bits 14..26, one
/// whose level is 3 holds `cpu_count - 1` there and one of another level keeps what it had;
/// the other bits and registers, the flags, and every other leaf are unchanged, and no
/// entry appears or disappears.
pub proof fn lemma_cache_sharing_by_level(t: Table, cpu_count: u8, cpu_bits: u8, k: CpuidKey)
    requires
        cpu_bits < 8,
        cpu_count >= 1,
    ensures
        shared_caches(t, cpu_count, (1u8 << cpu_bits) as u8)(k) is Some <==> t(k) is Some,
        k.leaf != 0x8000_001d ==> shared_caches(t, cpu_count, (1u8 << cpu_bits) as u8)(k) == t(k),
        k.leaf == 0x8000_001d && t(k) is Some ==> ({
            let e = t(k)->0;
            let r = e.result;
            let o = shared_caches(t, cpu_count, (1u8 << cpu_bits) as u8)(k)->0;
            let level = get_range(r.eax, 5, 3);
            &&& o.flags == e.flags
            &&& get_range(o.result.eax, 0, 5) == get_range(r.eax, 0, 5)
            &&& get_range(o.result.eax, 5, 3) == level
            &&& get_range(o.result.eax, 8, 6) == get_range(r.eax, 8, 6)
            &&& (level == 1 || level == 2) ==> get_range(o.result.eax, 14, 12) == (1u8 << cpu_bits) - 1
            &&& level == 3 ==> get_range(o.result.eax, 14, 12) == cpu_count - 1
            &&& !(1 <= level <= 3) ==> get_range(o.result.eax, 14, 12) == get_range(r.eax, 14, 12)
            &&& get_range(o.result.eax, 26, 6) == get_range(r.eax, 26, 6)
            &&& o.result.ebx == r.ebx && o.result.ecx == r.ecx && o.result.edx == r.edx
        }),
{
    lemma_range_max_values();
    assert(1u8 <= (1u8 << cpu_bits) && (1u8 << cpu_bits) <= 128u8) by (bit_vector)
        requires
            cpu_bits < 8,
    ;
    let cpc = (1u8 << cpu_bits) as u8;
    if let Some(e) = t(k) {
        let r = e.result;
        let level = get_range(r.eax, 5, 3);
        let v: u32 = if level == 1 || level == 2 {
            (cpc - 1) as u32
        } else {
            (cpu_count - 1) as u32
        };
        if 1 <= level <= 3 {
            lemma_get_after_set(r.eax, 14, 12, v);
            lemma_set_frame(r.eax, 14, 12, v, 5, 3);
            lemma_set_frame(r.eax, 14, 12, v, 0, 5);
            lemma_set_frame(r.eax, 14, 12, v, 8, 6);
            lemma_set_frame(r.eax, 14, 12, v, 26, 6);
        }
    }
}

/// Normalizing an AMD CPUID sets the sharing of every cache the host reports (leaf
/// 0x8000001d) by its level: `2^cpu_bits - 1` other threads for an L1 or L2 cache,
/// `cpu_count - 1` for an L3 cache, the level itself unchanged; no cache subleaf appears or
/// disappears after the host's are passed through.
pub proof fn lemma_normalized_cache_sharing(
    t0: Table,
    cpu_index: u8,
    cpu_count: u8,
    cpu_bits: u8,
    host: HostExtendedTopology,
    k: CpuidKey,
)
    requires
        k.leaf == 0x8000_001d,
        amd_normalized(t0, cpu_index, cpu_count, cpu_bits, host).1 is Ok,
    ensures
        ({
            let before = passed_through(t0, host)(k);
            let after = amd_normalized(t0, cpu_index, cpu_count, cpu_bits, host).0(k);
            &&& after is Some <==> before is Some
            &&& before matches Some(e) ==> {
                let level = get_range(e.result.eax, 5, 3);
                let out = after->0.result.eax;
                &&& get_range(out, 5, 3) == level
                &&& (level == 1 || level == 2) ==> get_range(out, 14, 12) == (1u8 << cpu_bits) - 1
                &&& level == 3 ==> get_range(out, 14, 12) == cpu_count - 1
            }
        }),
{
    let cpc = (1u8 << cpu_bits) as u8;
    let t3 = passed_through(t0, host);
    let t4 = table_set_result(t3, key0(0x8000_0000), largest_extended_fn(table_result(t3, key0(0x8000_0000))));
    let t5 = table_set_result(t4, key0(0x8000_0001), topology_extensions(table_result(t4, key0(0x8000_0001))));
    let t6 = table_set_result(t5, key0(0x8000_0008), feature_entry(table_result(t5, key0(0x8000_0008)), cpu_count));
    let t7 = shared_caches(t6, cpu_count, cpc);
    let t8 = table_set_result(t7, key0(0x8000_001e), extended_apic_id(table_result(t7, key0(0x8000_001e)), cpu_index, cpc));
    assert(t6(k) == t3(k));
    lemma_cache_sharing_by_level(t6, cpu_count, cpu_bits, k);
    assert(t8(k) == t7(k));
    let t9 = table_brand(t8, amd_brand()).0;
    assert(t9(k) == t8(k));
}

} // verus!
