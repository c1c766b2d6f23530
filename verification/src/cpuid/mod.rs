//! The CPUID (CPU identification) model of a guest vCPU and the changes applied to it.
//!
//! A CPUID is a list of entries, each a leaf/subleaf key with the four register values the
//! guest reads for it. The list is kept in increasing key order without repeated keys; the
//! entry for a key is the first entry with that key.

use crate::bit_fields::{
    checked_assign, get, get_range, lemma_range_max_values, set_bit, set_flag, set_range,
    CheckedAssignError,
};
use vstd::prelude::*;

pub mod amd;
pub mod intel;
pub mod leaf2;
pub mod support;

pub use amd::AmdCpuid;
pub use intel::IntelCpuid;

verus! {

/// CPUID index values `leaf` and `subleaf`.
#[derive(Clone, Copy, Debug, Default, PartialEq, Eq, PartialOrd, Ord, Hash)]
pub struct CpuidKey {
    /// CPUID leaf.
    pub leaf: u32,
    /// CPUID subleaf.
    pub subleaf: u32,
}

impl CpuidKey {
    /// `CpuidKey { leaf, subleaf: 0 }`
    pub fn leaf(leaf: u32) -> (r: Self)
        ensures
            r == (CpuidKey { leaf, subleaf: 0 }),
    {
        CpuidKey { leaf, subleaf: 0 }
    }

    /// `CpuidKey { leaf, subleaf }`
    pub fn subleaf(leaf: u32, subleaf: u32) -> (r: Self)
        ensures
            r == (CpuidKey { leaf, subleaf }),
    {
        CpuidKey { leaf, subleaf }
    }
}

/// Key order: by leaf, then by subleaf.
pub open spec fn key_lt(a: CpuidKey, b: CpuidKey) -> bool {
    a.leaf < b.leaf || (a.leaf == b.leaf && a.subleaf < b.subleaf)
}

/// Whether `a` comes strictly before `b` in key order.
pub fn key_precedes(a: &CpuidKey, b: &CpuidKey) -> (r: bool)
    ensures
        r == key_lt(*a, *b),
{
    a.leaf < b.leaf || (a.leaf == b.leaf && a.subleaf < b.subleaf)
}

/// The KVM flags of a CPUID entry (whether its subleaf index is significant).
#[derive(Clone, Copy, Debug, Default, PartialEq, Eq, Hash)]
pub struct KvmCpuidFlags(pub u32);

impl KvmCpuidFlags {
    /// No flag.
    pub fn empty() -> (r: Self)
        ensures
            r.0 == 0,
    {
        KvmCpuidFlags(0)
    }

    /// The subleaf index of the entry is significant.
    pub fn significant_index() -> (r: Self)
        ensures
            r.0 == 1,
    {
        KvmCpuidFlags(1)
    }
}

/// Register values of a CPUID entry.
#[derive(Clone, Copy, Debug, Default, PartialEq, Eq, Hash)]
pub struct CCpuidResult {
    /// EAX
    pub eax: u32,
    /// EBX
    pub ebx: u32,
    /// ECX
    pub ecx: u32,
    /// EDX
    pub edx: u32,
}

/// CPUID entry information stored for each leaf.
#[derive(Clone, Copy, Debug, Default, PartialEq, Eq, Hash)]
pub struct CpuidEntry {
    /// The KVM flags, which say whether the leaf has subleaves.
    pub flags: KvmCpuidFlags,
    /// Register values.
    pub result: CCpuidResult,
}

/// A generic leaf formed of its 4 registers `eax`, `ebx`, `ecx` and `edx`.
#[derive(Clone, Copy, Debug, PartialEq, Eq)]
pub struct Leaf<A, B, C, D> {
    /// EAX register.
    pub eax: A,
    /// EBX register.
    pub ebx: B,
    /// ECX register.
    pub ecx: C,
    /// EDX register.
    pub edx: D,
}

/// A CPUID entry as KVM exchanges it.
#[derive(Clone, Copy, Debug, Default, PartialEq, Eq)]
pub struct RawKvmCpuidEntry {
    /// Leaf.
    pub function: u32,
    /// Subleaf.
    pub index: u32,
    /// KVM flags.
    pub flags: u32,
    /// EAX
    pub eax: u32,
    /// EBX
    pub ebx: u32,
    /// ECX
    pub ecx: u32,
    /// EDX
    pub edx: u32,
}

/// The entries of a CPUID.
pub type Entries = Vec<(CpuidKey, CpuidEntry)>;

// ---------------------------------------------------------------------------------------------
// The entry list as a map
// ---------------------------------------------------------------------------------------------

/// Keys are strictly increasing along the list (so no key occurs twice).
pub open spec fn sorted_keys(s: Seq<(CpuidKey, CpuidEntry)>) -> bool {
    forall|i: int, j: int| 0 <= i < j < s.len() ==> key_lt(#[trigger] s[i].0, #[trigger] s[j].0)
}

/// The first position at or after `i` holding key `k`.
pub open spec fn find_from(s: Seq<(CpuidKey, CpuidEntry)>, k: CpuidKey, i: int) -> Option<int>
    decreases s.len() - i,
{
    if i < 0 || i >= s.len() {
        None
    } else if s[i].0 == k {
        Some(i)
    } else {
        find_from(s, k, i + 1)
    }
}

/// The position of the entry for key `k`.
pub open spec fn find_key(s: Seq<(CpuidKey, CpuidEntry)>, k: CpuidKey) -> Option<int> {
    find_from(s, k, 0)
}

/// The entry for key `k`.
pub open spec fn lookup(s: Seq<(CpuidKey, CpuidEntry)>, k: CpuidKey) -> Option<CpuidEntry> {
    match find_key(s, k) {
        Some(i) => Some(s[i].1),
        None => None,
    }
}

/// Whether some entry belongs to leaf `leaf`.
pub open spec fn has_leaf(s: Seq<(CpuidKey, CpuidEntry)>, leaf: u32) -> bool {
    exists|i: int| 0 <= i < s.len() && (#[trigger] s[i]).0.leaf == leaf
}

/// The list with the registers of the entry at position `i` replaced by `r`.
pub open spec fn set_result_at(s: Seq<(CpuidKey, CpuidEntry)>, i: int, r: CCpuidResult) -> Seq<
    (CpuidKey, CpuidEntry),
> {
    s.update(i, (s[i].0, CpuidEntry { flags: s[i].1.flags, result: r }))
}

/// What `find_from` finds lies within the list, holds the key, and no earlier position
/// from `i` on holds it.
pub proof fn lemma_find_from(s: Seq<(CpuidKey, CpuidEntry)>, k: CpuidKey, i: int)
    requires
        0 <= i,
    ensures
        match find_from(s, k, i) {
            Some(p) => i <= p < s.len() && s[p].0 == k && forall|j: int| i <= j < p ==> s[j].0 != k,
            None => forall|j: int| i <= j < s.len() ==> s[j].0 != k,
        },
    decreases s.len() - i,
{
    if i < s.len() && s[i].0 != k {
        lemma_find_from(s, k, i + 1);
    }
}

/// Changing registers of entries leaves every key where it was.
pub proof fn lemma_find_after_set(s: Seq<(CpuidKey, CpuidEntry)>, p: int, r: CCpuidResult, k: CpuidKey, i: int)
    requires
        0 <= p < s.len(),
        0 <= i,
    ensures
        find_from(set_result_at(s, p, r), k, i) == find_from(s, k, i),
    decreases s.len() - i,
{
    if i < s.len() && s[i].0 != k {
        lemma_find_after_set(s, p, r, k, i + 1);
    }
}

/// Position of the entry for `key`.
pub fn position(entries: &Entries, key: &CpuidKey) -> (r: Option<usize>)
    ensures
        match r {
            Some(p) => find_key(entries@, *key) == Some(p as int) && p < entries.len()
                && entries@[p as int].0 == *key,
            None => find_key(entries@, *key) is None,
        },
{
    proof {
        lemma_find_from(entries@, *key, 0);
    }
    let mut i: usize = 0;
    while i < entries.len()
        invariant
            0 <= i <= entries.len(),
            find_key(entries@, *key) == find_from(entries@, *key, i as int),
        decreases entries.len() - i,
    {
        let k = &entries[i].0;
        if k.leaf == key.leaf && k.subleaf == key.subleaf {
            return Some(i);
        }
        i = i + 1;
    }
    None
}

/// Gets the entry for `key`.
pub fn entries_get<'a>(entries: &'a Entries, key: &CpuidKey) -> (r: Option<&'a CpuidEntry>)
    ensures
        match r {
            Some(e) => lookup(entries@, *key) == Some(*e),
            None => lookup(entries@, *key) is None,
        },
{
    match position(entries, key) {
        Some(i) => Some(&entries[i].1),
        None => None,
    }
}

/// Gets the entry for `key` for modification.
pub fn entries_get_mut<'a>(entries: &'a mut Entries, key: &CpuidKey) -> (r: Option<&'a mut CpuidEntry>)
    ensures
        match r {
            Some(e) => find_key(old(entries)@, *key) matches Some(p) && *e == old(entries)@[p].1
                && final(entries)@ == old(entries)@.update(p, (*key, *final(e))),
            None => find_key(old(entries)@, *key) is None && final(entries)@ == old(entries)@,
        },
{
    match position(entries, key) {
        Some(i) => {
            proof {
                lemma_find_from(entries@, *key, 0);
            }
            Some(&mut entries[i].1)
        },
        None => None,
    }
}


// ---------------------------------------------------------------------------------------------
// Errors
// ---------------------------------------------------------------------------------------------

/// Error of [`apply_brand_string`].
#[derive(Clone, Copy, Debug, PartialEq, Eq)]
pub struct MissingBrandStringLeaves;

/// Error of [`get_max_cpus_per_package`].
#[derive(Clone, Copy, Debug, PartialEq, Eq)]
pub enum GetMaxCpusPerPackageError {
    /// Failed to get max CPUs per package as `cpu_count == 0`.
    Underflow,
    /// Failed to get max CPUs per package as `cpu_count > 128`.
    Overflow,
}

/// Error of setting the feature information leaf (0x1).
#[derive(Clone, Copy, Debug, PartialEq, Eq)]
pub enum FeatureInformationError {
    /// Leaf 0x1 is missing from CPUID.
    MissingLeaf1,
    /// Failed to set `Initial APIC ID`.
    InitialApicId(CheckedAssignError),
    /// Failed to set `CLFLUSH line size`.
    Clflush(CheckedAssignError),
    /// Failed to get max CPUs per package.
    GetMaxCpusPerPackage(GetMaxCpusPerPackageError),
    /// Failed to set max CPUs per package.
    SetMaxCpusPerPackage(CheckedAssignError),
}

/// Error of converting raw KVM entries into a [`Cpuid`].
#[derive(Clone, Copy, Debug, PartialEq, Eq)]
pub enum CpuidTryFromRawCpuid {
    /// Leaf 0 not found in the given entries.
    MissingLeaf0,
    /// Unsupported CPUID manufacturer id (only `GenuineIntel` and `AuthenticAMD` are
    /// supported).
    UnsupportedManufacturer([u8; 12]),
}

/// Error of [`get_vendor_id_from_cpuid`].
#[derive(Clone, Copy, Debug, PartialEq, Eq)]
pub struct Leaf0NotFoundInCpuid;

/// Why leaf 0x0 does not support another.
#[derive(Clone, Copy, Debug, PartialEq, Eq)]
pub enum Leaf0NotSupported {
    /// Maximum input value.
    MaximumInputValue(u32, u32),
    /// Manufacturer ID.
    ManufacturerId([u32; 3], [u32; 3]),
}

/// Why leaf 0x1 does not support another.
#[derive(Clone, Copy, Debug, PartialEq, Eq)]
pub enum Leaf1NotSupported {
    /// CLFlush.
    CLFlush,
    /// MaxAddressableLogicalProcessorIds
    MaxAddressableLogicalProcessorIds,
    /// Ecx
    Ecx,
    /// Edx
    Edx,
}

/// Error of reading a host CPUID leaf.
#[derive(Clone, Copy, Debug, PartialEq, Eq)]
pub enum GetCpuidError {
    /// Invalid leaf.
    UnsupportedLeaf(u32),
    /// Invalid subleaf.
    InvalidSubleaf(u32),
}

// ---------------------------------------------------------------------------------------------
// Inserting and removing entries
// ---------------------------------------------------------------------------------------------

/// In a list with increasing keys, the entry for a key is the one entry holding it.
pub proof fn lemma_sorted_find(s: Seq<(CpuidKey, CpuidEntry)>, i: int)
    requires
        sorted_keys(s),
        0 <= i < s.len(),
    ensures
        find_key(s, s[i].0) == Some(i),
{
    lemma_find_from(s, s[i].0, 0);
    match find_key(s, s[i].0) {
        Some(p) => {
            if p < i {
                assert(key_lt(s[p].0, s[i].0));
            }
        },
        None => {},
    }
}

/// In a list with increasing keys, a key no entry holds is not found.
pub proof fn lemma_absent_not_found(s: Seq<(CpuidKey, CpuidEntry)>, k: CpuidKey)
    requires
        forall|j: int| 0 <= j < s.len() ==> s[j].0 != k,
    ensures
        find_key(s, k) is None,
{
    lemma_find_from(s, k, 0);
}

/// Stores `entry` under `key`, replacing the entry for that key if there is one, else
/// inserting it where key order puts it.
pub fn entries_insert(entries: &mut Entries, key: CpuidKey, entry: CpuidEntry)
    requires
        sorted_keys(old(entries)@),
    ensures
        sorted_keys(final(entries)@),
        forall|k: CpuidKey| #[trigger] lookup(final(entries)@, k) == (if k == key {
            Some(entry)
        } else {
            lookup(old(entries)@, k)
        }),
{
    let ghost s0 = entries@;
    let mut i: usize = 0;
    while i < entries.len() && key_precedes(&entries[i].0, &key)
        invariant
            0 <= i <= entries.len(),
            entries@ == s0,
            sorted_keys(s0),
            forall|j: int| 0 <= j < i ==> key_lt(#[trigger] s0[j].0, key),
        decreases entries.len() - i,
    {
        i = i + 1;
    }
    if i < entries.len() && entries[i].0.leaf == key.leaf && entries[i].0.subleaf == key.subleaf {
        entries[i] = (key, entry);
        proof {
            let s1 = entries@;
            assert(s1 == s0.update(i as int, (key, entry)));
            assert(sorted_keys(s1)) by {
                assert forall|a: int, b: int| 0 <= a < b < s1.len() implies key_lt(
                    #[trigger] s1[a].0,
                    #[trigger] s1[b].0,
                ) by {
                    assert(s1[a].0 == s0[a].0);
                    assert(s1[b].0 == s0[b].0);
                }
            }
            assert forall|k: CpuidKey| #[trigger] lookup(s1, k) == (if k == key {
                Some(entry)
            } else {
                lookup(s0, k)
            }) by {
                lemma_find_from(s0, k, 0);
                match find_key(s0, k) {
                    Some(p) => {
                        lemma_sorted_find(s0, p);
                        lemma_sorted_find(s1, p);
                    },
                    None => {
                        lemma_absent_not_found(s1, k);
                    },
                }
            }
        }
    } else {
        entries.insert(i, (key, entry));
        proof {
            let s1 = entries@;
            assert(s1 == s0.insert(i as int, (key, entry)));
            assert(forall|j: int| i <= j < s0.len() ==> key_lt(key, #[trigger] s0[j].0)) by {
                assert forall|j: int| i <= j < s0.len() implies key_lt(key, #[trigger] s0[j].0) by {
                    if j > i {
                        assert(key_lt(s0[i as int].0, s0[j].0));
                    }
                }
            }
            assert(sorted_keys(s1)) by {
                assert forall|a: int, b: int| 0 <= a < b < s1.len() implies key_lt(
                    #[trigger] s1[a].0,
                    #[trigger] s1[b].0,
                ) by {
                    if b < i {
                    } else if b == i {
                    } else if a < i {
                        assert(s1[b].0 == s0[b - 1].0);
                    } else if a == i {
                        assert(s1[b].0 == s0[b - 1].0);
                    } else {
                        assert(s1[a].0 == s0[a - 1].0);
                        assert(s1[b].0 == s0[b - 1].0);
                    }
                }
            }
            assert forall|k: CpuidKey| #[trigger] lookup(s1, k) == (if k == key {
                Some(entry)
            } else {
                lookup(s0, k)
            }) by {
                lemma_find_from(s0, k, 0);
                if k == key {
                    lemma_sorted_find(s1, i as int);
                } else {
                    match find_key(s0, k) {
                        Some(p) => {
                            lemma_sorted_find(s0, p);
                            if p < i {
                                lemma_sorted_find(s1, p);
                            } else {
                                assert(s1[p + 1] == s0[p]);
                                lemma_sorted_find(s1, p + 1);
                            }
                        },
                        None => {
                            assert forall|j: int| 0 <= j < s1.len() implies s1[j].0 != k by {
                                if j < i {
                                } else if j == i {
                                } else {
                                    assert(s1[j] == s0[j - 1]);
                                }
                            }
                            lemma_absent_not_found(s1, k);
                        },
                    }
                }
            }
        }
    }
}

/// Removes the entry for `key`, if there is one.
pub fn entries_remove(entries: &mut Entries, key: &CpuidKey)
    requires
        sorted_keys(old(entries)@),
    ensures
        sorted_keys(final(entries)@),
        forall|k: CpuidKey| #[trigger] lookup(final(entries)@, k) == (if k == *key {
            None
        } else {
            lookup(old(entries)@, k)
        }),
{
    let ghost s0 = entries@;
    match position(entries, key) {
        None => {
            proof {
                lemma_find_from(s0, *key, 0);
            }
        },
        Some(i) => {
            entries.remove(i);
            proof {
                let s1 = entries@;
                assert(s1 == s0.remove(i as int));
                assert(sorted_keys(s1)) by {
                    assert forall|a: int, b: int| 0 <= a < b < s1.len() implies key_lt(
                        #[trigger] s1[a].0,
                        #[trigger] s1[b].0,
                    ) by {
                        if b < i {
                        } else if a < i {
                            assert(s1[b] == s0[b + 1]);
                        } else {
                            assert(s1[a] == s0[a + 1]);
                            assert(s1[b] == s0[b + 1]);
                        }
                    }
                }
                assert forall|k: CpuidKey| #[trigger] lookup(s1, k) == (if k == *key {
                    None
                } else {
                    lookup(s0, k)
                }) by {
                    lemma_find_from(s0, k, 0);
                    if k == *key {
                        lemma_sorted_find(s0, i as int);
                        assert forall|j: int| 0 <= j < s1.len() implies s1[j].0 != k by {
                            if j < i {
                                assert(key_lt(s0[j].0, s0[i as int].0));
                            } else {
                                assert(s1[j] == s0[j + 1]);
                                assert(key_lt(s0[i as int].0, s0[j + 1].0));
                            }
                        }
                        lemma_absent_not_found(s1, k);
                    } else {
                        match find_key(s0, k) {
                            Some(p) => {
                                lemma_sorted_find(s0, p);
                                if p < i {
                                    lemma_sorted_find(s1, p);
                                } else {
                                    assert(s1[p - 1] == s0[p]);
                                    lemma_sorted_find(s1, p - 1);
                                }
                            },
                            None => {
                                assert forall|j: int| 0 <= j < s1.len() implies s1[j].0 != k by {
                                    if j < i {
                                    } else {
                                        assert(s1[j] == s0[j + 1]);
                                    }
                                }
                                lemma_absent_not_found(s1, k);
                            },
                        }
                    }
                }
            }
        },
    }
}


// ---------------------------------------------------------------------------------------------
// Manufacturer ID and brand string
// ---------------------------------------------------------------------------------------------

/// To store the brand string there are 3 leaves, each with 4 registers, each of 4 bytes.
pub const BRAND_STRING_LENGTH: usize = 48;

/// The four bytes of a register, least significant first (the byte order of x86).
pub open spec fn le_bytes(x: u32) -> Seq<u8> {
    seq![(x & 0xff) as u8, ((x >> 8u32) & 0xff) as u8, ((x >> 16u32) & 0xff) as u8, ((x >> 24u32) & 0xff) as u8]
}

/// The register holding four bytes, the first one least significant.
pub open spec fn word_le(b: Seq<u8>, i: int) -> u32 {
    (b[i] as u32) | ((b[i + 1] as u32) << 8u32) | ((b[i + 2] as u32) << 16u32) | ((b[i + 3] as u32) << 24u32)
}

/// The manufacturer ID held by leaf 0: the bytes of EBX, EDX and ECX, in that order.
pub open spec fn manufacturer_bytes(r: CCpuidResult) -> Seq<u8> {
    le_bytes(r.ebx) + le_bytes(r.edx) + le_bytes(r.ecx)
}

/// The bytes of `GenuineIntel`.
pub open spec fn genuine_intel() -> Seq<u8> {
    seq![0x47u8, 0x65, 0x6e, 0x75, 0x69, 0x6e, 0x65, 0x49, 0x6e, 0x74, 0x65, 0x6c]
}

/// The bytes of `AuthenticAMD`.
pub open spec fn authentic_amd() -> Seq<u8> {
    seq![0x41u8, 0x75, 0x74, 0x68, 0x65, 0x6e, 0x74, 0x69, 0x63, 0x41, 0x4d, 0x44]
}

pub(crate) fn register_bytes(x: u32) -> (r: [u8; 4])
    ensures
        r@ == le_bytes(x),
{
    let r = [(x & 0xff) as u8, ((x >> 8u32) & 0xff) as u8, ((x >> 16u32) & 0xff) as u8, ((x >> 24u32) & 0xff) as u8];
    assert(r@ =~= le_bytes(x));
    r
}

/// The manufacturer ID held by a leaf-0 register set.
pub fn manufacturer_of(r: &CCpuidResult) -> (id: [u8; 12])
    ensures
        id@ == manufacturer_bytes(*r),
{
    let b = register_bytes(r.ebx);
    let d = register_bytes(r.edx);
    let c = register_bytes(r.ecx);
    let id = [b[0], b[1], b[2], b[3], d[0], d[1], d[2], d[3], c[0], c[1], c[2], c[3]];
    assert(id@ =~= manufacturer_bytes(*r));
    id
}

/// Returns the manufacturer ID (e.g. `GenuineIntel` or `AuthenticAMD`), or `None` if leaf
/// 0 is missing.
pub fn entries_manufacturer_id(entries: &Entries) -> (r: Option<[u8; 12]>)
    ensures
        match lookup(entries@, CpuidKey { leaf: 0, subleaf: 0 }) {
            Some(e) => r matches Some(id) && id@ == manufacturer_bytes(e.result),
            None => r is None,
        },
{
    match entries_get(entries, &CpuidKey::leaf(0)) {
        Some(e) => Some(manufacturer_of(&e.result)),
        None => None,
    }
}

/// The registers of brand-string leaf `n` (0, 1 or 2) for `brand`.
pub open spec fn brand_result(b: Seq<u8>, n: int) -> CCpuidResult {
    CCpuidResult {
        eax: word_le(b, 16 * n),
        ebx: word_le(b, 16 * n + 4),
        ecx: word_le(b, 16 * n + 8),
        edx: word_le(b, 16 * n + 12),
    }
}

/// The list after writing brand-string leaf `n` (leaf 0x80000002 + n), if present.
pub open spec fn brand_leaf_applied(s: Seq<(CpuidKey, CpuidEntry)>, b: Seq<u8>, n: int) -> Option<
    Seq<(CpuidKey, CpuidEntry)>,
> {
    match find_key(s, CpuidKey { leaf: (0x8000_0002 + n) as u32, subleaf: 0 }) {
        Some(i) => Some(set_result_at(s, i, brand_result(b, n))),
        None => None,
    }
}

/// The list after writing the brand string, leaf after leaf, and whether all three leaves
/// were present; writing stops at the first missing leaf.
pub open spec fn brand_applied(s: Seq<(CpuidKey, CpuidEntry)>, b: Seq<u8>) -> (Seq<(CpuidKey, CpuidEntry)>, bool) {
    match brand_leaf_applied(s, b, 0) {
        None => (s, false),
        Some(s1) => match brand_leaf_applied(s1, b, 1) {
            None => (s1, false),
            Some(s2) => match brand_leaf_applied(s2, b, 2) {
                None => (s2, false),
                Some(s3) => (s3, true),
            },
        },
    }
}

fn brand_word(b: &[u8; 48], i: usize) -> (r: u32)
    requires
        i + 4 <= 48,
    ensures
        r == word_le(b@, i as int),
{
    (b[i] as u32) | ((b[i + 1] as u32) << 8u32) | ((b[i + 2] as u32) << 16u32) | ((b[i + 3] as u32) << 24u32)
}

fn apply_brand_leaf(entries: &mut Entries, brand: &[u8; 48], n: usize) -> (r: bool)
    requires
        n < 3,
    ensures
        match brand_leaf_applied(old(entries)@, brand@, n as int) {
            Some(s1) => r && final(entries)@ == s1,
            None => !r && final(entries)@ == old(entries)@,
        },
{
    let key = CpuidKey::leaf(0x8000_0002u32 + n as u32);
    match position(entries, &key) {
        Some(i) => {
            let flags = entries[i].1.flags;
            let result = CCpuidResult {
                eax: brand_word(brand, 16 * n),
                ebx: brand_word(brand, 16 * n + 4),
                ecx: brand_word(brand, 16 * n + 8),
                edx: brand_word(brand, 16 * n + 12),
            };
            entries[i] = (key, CpuidEntry { flags, result });
            assert(entries@ == set_result_at(old(entries)@, i as int, result));
            true
        },
        None => false,
    }
}

/// Writes a brand string to leaves 0x80000002, 0x80000003 and 0x80000004, four bytes per
/// register, the first byte least significant. Errs when one of the leaves is missing; the
/// leaves before it have then been written.
pub fn apply_brand_string(entries: &mut Entries, brand_string: &[u8; 48]) -> (r: Result<(), MissingBrandStringLeaves>)
    ensures
        (final(entries)@, r is Ok) == brand_applied(old(entries)@, brand_string@),
{
    if !apply_brand_leaf(entries, brand_string, 0) {
        return Err(MissingBrandStringLeaves);
    }
    if !apply_brand_leaf(entries, brand_string, 1) {
        return Err(MissingBrandStringLeaves);
    }
    if !apply_brand_leaf(entries, brand_string, 2) {
        return Err(MissingBrandStringLeaves);
    }
    Ok(())
}

/// Writing the registers of the entry found for a key through a mutable reference to the
/// entry sets its registers in the list.
proof fn lemma_write_result(
    s: Seq<(CpuidKey, CpuidEntry)>,
    key: CpuidKey,
    p: int,
    before: CpuidEntry,
    after: CpuidEntry,
    r: CCpuidResult,
)
    requires
        find_key(s, key) == Some(p),
        before == s[p].1,
        after == (CpuidEntry { flags: before.flags, result: r }),
    ensures
        s.update(p, (key, after)) == set_result_at(s, p, r),
{
    lemma_find_from(s, key, 0);
    assert(s.update(p, (key, after)) =~= set_result_at(s, p, r));
}

/// Access to the entries of a CPUID, and the operations built on it.
pub trait CpuidTrait {
    /// The entries of the CPUID, in increasing key order.
    spec fn cpuid_entries(&self) -> Seq<(CpuidKey, CpuidEntry)>;

    /// Gets the entry for `key`.
    fn get(&self, key: &CpuidKey) -> (r: Option<&CpuidEntry>)
        ensures
            match r {
                Some(e) => lookup(self.cpuid_entries(), *key) == Some(*e),
                None => lookup(self.cpuid_entries(), *key) is None,
            },
    ;

    /// Gets the entry for `key` for modification.
    fn get_mut(&mut self, key: &CpuidKey) -> (r: Option<&mut CpuidEntry>)
        ensures
            match r {
                Some(e) => find_key(old(self).cpuid_entries(), *key) matches Some(p) && *e
                    == old(self).cpuid_entries()[p].1 && final(self).cpuid_entries()
                    == old(self).cpuid_entries().update(p, (*key, *final(e))),
                None => find_key(old(self).cpuid_entries(), *key) is None
                    && final(self).cpuid_entries() == old(self).cpuid_entries(),
            },
    ;

    /// Returns the manufacturer ID (e.g. `GenuineIntel` or `AuthenticAMD`): the bytes of
    /// EBX, EDX and ECX of leaf 0, or `None` if leaf 0 is missing.
    fn manufacturer_id(&self) -> (r: Option<[u8; 12]>)
        ensures
            match lookup(self.cpuid_entries(), CpuidKey { leaf: 0, subleaf: 0 }) {
                Some(e) => r matches Some(id) && id@ == manufacturer_bytes(e.result),
                None => r is None,
            },
    {
        match self.get(&CpuidKey::leaf(0)) {
            Some(e) => Some(manufacturer_of(&e.result)),
            None => None,
        }
    }

    /// Writes a brand string to leaves 0x80000002, 0x80000003 and 0x80000004, four bytes per
    /// register, the first byte least significant. Errs when one of the leaves is missing;
    /// the leaves before it have then been written.
    fn apply_brand_string(&mut self, brand_string: &[u8; 48]) -> (r: Result<(), MissingBrandStringLeaves>)
        ensures
            (final(self).cpuid_entries(), r is Ok) == brand_applied(
                old(self).cpuid_entries(),
                brand_string@,
            ),
    {
        let ghost s0 = self.cpuid_entries();
        let key0 = CpuidKey::leaf(0x8000_0002);
        let result0 = CCpuidResult {
            eax: brand_word(brand_string, 0),
            ebx: brand_word(brand_string, 4),
            ecx: brand_word(brand_string, 8),
            edx: brand_word(brand_string, 12),
        };
        match self.get_mut(&key0) {
            Some(e) => {
                let ghost before = *e;
                e.result = result0;
                proof {
                    lemma_write_result(s0, key0, find_key(s0, key0)->Some_0, before, *e, result0);
                }
            },
            None => return Err(MissingBrandStringLeaves),
        }
        assert(brand_result(brand_string@, 0) == result0);
        let ghost s1 = self.cpuid_entries();
        let key1 = CpuidKey::leaf(0x8000_0003);
        let result1 = CCpuidResult {
            eax: brand_word(brand_string, 16),
            ebx: brand_word(brand_string, 20),
            ecx: brand_word(brand_string, 24),
            edx: brand_word(brand_string, 28),
        };
        match self.get_mut(&key1) {
            Some(e) => {
                let ghost before = *e;
                e.result = result1;
                proof {
                    lemma_write_result(s1, key1, find_key(s1, key1)->Some_0, before, *e, result1);
                }
            },
            None => return Err(MissingBrandStringLeaves),
        }
        assert(brand_result(brand_string@, 1) == result1);
        let ghost s2 = self.cpuid_entries();
        let key2 = CpuidKey::leaf(0x8000_0004);
        let result2 = CCpuidResult {
            eax: brand_word(brand_string, 32),
            ebx: brand_word(brand_string, 36),
            ecx: brand_word(brand_string, 40),
            edx: brand_word(brand_string, 44),
        };
        match self.get_mut(&key2) {
            Some(e) => {
                let ghost before = *e;
                e.result = result2;
                proof {
                    lemma_write_result(s2, key2, find_key(s2, key2)->Some_0, before, *e, result2);
                }
            },
            None => return Err(MissingBrandStringLeaves),
        }
        assert(brand_result(brand_string@, 2) == result2);
        Ok(())
    }
}

// ---------------------------------------------------------------------------------------------
// Feature information leaf (0x1)
// ---------------------------------------------------------------------------------------------

/// Cache line size flushed by CLFLUSH, in 8-byte units.
pub const EBX_CLFLUSH_CACHELINE: u32 = 8;

/// The maximum number of logical processors per package: the smallest power of two at
/// least `cpu_count`, for 1 to 128 CPUs.
pub open spec fn max_cpus_per_package(cpu_count: u8) -> Result<u8, GetMaxCpusPerPackageError> {
    if cpu_count == 0 {
        Err(GetMaxCpusPerPackageError::Underflow)
    } else if cpu_count == 1 {
        Ok(1)
    } else if cpu_count == 2 {
        Ok(2)
    } else if cpu_count <= 4 {
        Ok(4)
    } else if cpu_count <= 8 {
        Ok(8)
    } else if cpu_count <= 16 {
        Ok(16)
    } else if cpu_count <= 32 {
        Ok(32)
    } else if cpu_count <= 64 {
        Ok(64)
    } else if cpu_count <= 128 {
        Ok(128)
    } else {
        Err(GetMaxCpusPerPackageError::Overflow)
    }
}

/// Computes the maximum number of logical processors per package: the closest power of 2
/// higher or equal to the CPU count.
pub fn get_max_cpus_per_package(cpu_count: u8) -> (r: Result<u8, GetMaxCpusPerPackageError>)
    ensures
        r == max_cpus_per_package(cpu_count),
{
    match cpu_count {
        0 => Err(GetMaxCpusPerPackageError::Underflow),
        1 => Ok(1),
        2 => Ok(2),
        3..=4 => Ok(4),
        5..=8 => Ok(8),
        9..=16 => Ok(16),
        17..=32 => Ok(32),
        33..=64 => Ok(64),
        65..=128 => Ok(128),
        129..=255u8 => Err(GetMaxCpusPerPackageError::Overflow),
    }
}

/// The maximum number of logical processors per package is the smallest power of two that
/// is at least the CPU count.
pub proof fn lemma_max_cpus_is_next_power_of_two(cpu_count: u8)
    requires
        1 <= cpu_count <= 128,
    ensures
        max_cpus_per_package(cpu_count) matches Ok(m) && {
            &&& m >= cpu_count
            &&& m < 2 * cpu_count
            &&& (m == 1 || m == 2 || m == 4 || m == 8 || m == 16 || m == 32 || m == 64 || m == 128)
        },
{
}

/// Leaf 1 once the hypervisor is announced: TSC deadline (ECX bit 24) and hypervisor
/// (ECX bit 31) set, initial APIC ID (EBX bits 24..32) set to `cpu_index` and CLFLUSH line
/// size (EBX bits 8..16) set to 8.
pub open spec fn leaf1_features(r: CCpuidResult, cpu_index: u8) -> CCpuidResult {
    CCpuidResult {
        ecx: set_bit(set_bit(r.ecx, 24, true), 31, true),
        ebx: set_range(set_range(r.ebx, 24, 8, cpu_index as u32), 8, 8, EBX_CLFLUSH_CACHELINE),
        ..r
    }
}

/// Leaf 1 once the package topology is set: maximum addressable logical processor IDs (EBX
/// bits 16..24) set to `max_cpus`, and HTT (EDX bit 28) set when there is more than one
/// CPU.
pub open spec fn leaf1_topology(r: CCpuidResult, max_cpus: u8, cpu_count: u8) -> CCpuidResult {
    CCpuidResult {
        ebx: set_range(r.ebx, 16, 8, max_cpus as u32),
        edx: set_bit(r.edx, 28, cpu_count > 1),
        ..r
    }
}

/// The list after the feature information leaf is set for the vCPU `cpu_index` of
/// `cpu_count`, and the outcome. Without leaf 1 nothing changes; when the CPU count is out
/// of range, leaf 1 keeps the features set before the count was checked.
pub open spec fn leaf1_applied(s: Seq<(CpuidKey, CpuidEntry)>, cpu_index: u8, cpu_count: u8) -> (
    Seq<(CpuidKey, CpuidEntry)>,
    Result<(), FeatureInformationError>,
) {
    match find_key(s, CpuidKey { leaf: 1, subleaf: 0 }) {
        None => (s, Err(FeatureInformationError::MissingLeaf1)),
        Some(i) => {
            let p = leaf1_features(s[i].1.result, cpu_index);
            match max_cpus_per_package(cpu_count) {
                Err(e) => (set_result_at(s, i, p), Err(FeatureInformationError::GetMaxCpusPerPackage(e))),
                Ok(m) => (set_result_at(s, i, leaf1_topology(p, m, cpu_count)), Ok(())),
            }
        },
    }
}

/// Sets the feature information leaf (0x1) for the vCPU `cpu_index` of `cpu_count`.
pub fn normalize_feature_information(entries: &mut Entries, cpu_index: u8, cpu_count: u8) -> (r: Result<(), FeatureInformationError>)
    ensures
        (final(entries)@, r) == leaf1_applied(old(entries)@, cpu_index, cpu_count),
{
    let key = CpuidKey::leaf(1);
    let i = match position(entries, &key) {
        Some(i) => i,
        None => return Err(FeatureInformationError::MissingLeaf1),
    };
    let flags = entries[i].1.flags;
    let mut r = entries[i].1.result;
    proof {
        lemma_range_max_values();
    }
    // Hypervisor features: TSC deadline timer and the hypervisor bit.
    set_flag(&mut r.ecx, 24, true);
    set_flag(&mut r.ecx, 31, true);
    match checked_assign(&mut r.ebx, 24, 8, cpu_index as u32) {
        Ok(()) => {},
        Err(e) => return Err(FeatureInformationError::InitialApicId(e)),
    }
    match checked_assign(&mut r.ebx, 8, 8, EBX_CLFLUSH_CACHELINE) {
        Ok(()) => {},
        Err(e) => return Err(FeatureInformationError::Clflush(e)),
    }
    let max_cpus = match get_max_cpus_per_package(cpu_count) {
        Ok(m) => m,
        Err(e) => {
            entries[i] = (key, CpuidEntry { flags, result: r });
            assert(entries@ == set_result_at(old(entries)@, i as int, r));
            return Err(FeatureInformationError::GetMaxCpusPerPackage(e));
        },
    };
    match checked_assign(&mut r.ebx, 16, 8, max_cpus as u32) {
        Ok(()) => {},
        Err(e) => return Err(FeatureInformationError::SetMaxCpusPerPackage(e)),
    }
    // HTT says that the maximum number of addressable IDs is valid for the package.
    set_flag(&mut r.edx, 28, cpu_count > 1);
    entries[i] = (key, CpuidEntry { flags, result: r });
    assert(entries@ == set_result_at(old(entries)@, i as int, r));
    Ok(())
}


// ---------------------------------------------------------------------------------------------
// The entry list as a table from keys to entries
// ---------------------------------------------------------------------------------------------

/// A table from keys to entries.
pub type Table = spec_fn(CpuidKey) -> Option<CpuidEntry>;

/// Whether a list with increasing keys holds exactly the entries of table `t`.
pub open spec fn holds_table(s: Seq<(CpuidKey, CpuidEntry)>, t: Table) -> bool {
    &&& sorted_keys(s)
    &&& forall|k: CpuidKey| #[trigger] lookup(s, k) == t(k)
}

/// The table of a list.
pub open spec fn table_of(s: Seq<(CpuidKey, CpuidEntry)>) -> Table {
    |k: CpuidKey| lookup(s, k)
}

/// The table with the entry for `k0` set to `e` (removed when `e` is `None`).
pub open spec fn table_set(t: Table, k0: CpuidKey, e: Option<CpuidEntry>) -> Table {
    |k: CpuidKey| if k == k0 { e } else { t(k) }
}

/// The table with the registers of the entry for `k0`, if there is one, set to `r`.
pub open spec fn table_set_result(t: Table, k0: CpuidKey, r: CCpuidResult) -> Table {
    |k: CpuidKey|
        if k == k0 {
            match t(k0) {
                Some(e) => Some(CpuidEntry { flags: e.flags, result: r }),
                None => None,
            }
        } else {
            t(k)
        }
}

/// The registers of the entry for `k` in a table (zero when there is none).
pub open spec fn table_result(t: Table, k: CpuidKey) -> CCpuidResult {
    match t(k) {
        Some(e) => e.result,
        None => CCpuidResult { eax: 0, ebx: 0, ecx: 0, edx: 0 },
    }
}

/// Setting the registers of an entry of a list with increasing keys changes its table
/// only there.
pub proof fn lemma_lookup_after_set(s: Seq<(CpuidKey, CpuidEntry)>, p: int, r: CCpuidResult)
    requires
        sorted_keys(s),
        0 <= p < s.len(),
    ensures
        sorted_keys(set_result_at(s, p, r)),
        forall|k: CpuidKey| #[trigger] lookup(set_result_at(s, p, r), k) == (if k == s[p].0 {
            Some(CpuidEntry { flags: s[p].1.flags, result: r })
        } else {
            lookup(s, k)
        }),
{
    let t = set_result_at(s, p, r);
    assert(sorted_keys(t)) by {
        assert forall|a: int, b: int| 0 <= a < b < t.len() implies key_lt(
            #[trigger] t[a].0,
            #[trigger] t[b].0,
        ) by {
            assert(t[a].0 == s[a].0);
            assert(t[b].0 == s[b].0);
        }
    }
    assert forall|k: CpuidKey| #[trigger] lookup(t, k) == (if k == s[p].0 {
        Some(CpuidEntry { flags: s[p].1.flags, result: r })
    } else {
        lookup(s, k)
    }) by {
        lemma_find_after_set(s, p, r, k, 0);
        lemma_find_from(s, k, 0);
        if k == s[p].0 {
            lemma_sorted_find(s, p);
        }
    }
}

/// Sets the registers of the entry at position `i`.
pub fn set_result(entries: &mut Entries, i: usize, r: CCpuidResult)
    requires
        i < old(entries)@.len(),
    ensures
        final(entries)@ == set_result_at(old(entries)@, i as int, r),
{
    let key = entries[i].0;
    let flags = entries[i].1.flags;
    entries[i] = (key, CpuidEntry { flags, result: r });
}

/// Sets the registers of the entry for `key` to `r`, if there is an
/// entry for `key`; returns whether there is.
pub fn modify_result(entries: &mut Entries, key: &CpuidKey, r: CCpuidResult) -> (found: bool)
    requires
        sorted_keys(old(entries)@),
    ensures
        found == (lookup(old(entries)@, *key) is Some),
        holds_table(final(entries)@, table_set_result(table_of(old(entries)@), *key, r)),
{
    let ghost s0 = entries@;
    match position(entries, key) {
        Some(i) => {
            set_result(entries, i, r);
            proof {
                lemma_lookup_after_set(s0, i as int, r);
            }
            true
        },
        None => false,
    }
}

/// A cache subleaf (Intel leaf 0x4, AMD leaf 0x8000001d) once the number of logical
/// processors sharing the cache (EAX bits 14..26) is set: at most a core's threads share an
/// L1 or L2 cache, all of them share L3 (cache level in EAX bits 5..8).
pub open spec fn cache_sharing(r: CCpuidResult, cpu_count: u8, cpus_per_core: u8) -> CCpuidResult {
    let level = crate::bit_fields::get_range(r.eax, 5, 3);
    if level == 1 || level == 2 {
        CCpuidResult { eax: set_range(r.eax, 14, 12, (cpus_per_core - 1) as u32), ..r }
    } else if level == 3 {
        CCpuidResult { eax: set_range(r.eax, 14, 12, (cpu_count - 1) as u32), ..r }
    } else {
        r
    }
}


// ---------------------------------------------------------------------------------------------
// CPUID of either manufacturer
// ---------------------------------------------------------------------------------------------

/// CPUID information.
#[derive(Clone, Debug, PartialEq, Eq)]
pub enum Cpuid {
    /// Intel CPUID specific information.
    Intel(IntelCpuid),
    /// AMD CPUID specific information.
    Amd(AmdCpuid),
}

/// Error of [`Cpuid::normalize`].
#[derive(Clone, Copy, Debug, PartialEq, Eq)]
pub enum NormalizeCpuidError {
    /// Failed to apply modifications to Intel CPUID.
    Intel(intel::NormalizeCpuid),
    /// Failed to apply modifications to AMD CPUID.
    Amd(amd::NormalizeCpuidError),
    /// Failed to set feature information leaf.
    FeatureInfomation(FeatureInformationError),
}

/// Error of checking whether a CPUID supports another.
#[derive(Clone, Copy, Debug, PartialEq, Eq)]
pub enum CpuidNotSupported {
    /// Intel.
    Intel(intel::IntelCpuidNotSupported),
    /// Amd.
    Amd(amd::AmdCpuidNotSupported),
    /// Different manufacturer IDs.
    Incompatible,
}

impl CpuidTrait for Cpuid {
    open spec fn cpuid_entries(&self) -> Seq<(CpuidKey, CpuidEntry)> {
        self.entries()
    }

    /// Gets the entry for `key`.
    fn get(&self, key: &CpuidKey) -> (r: Option<&CpuidEntry>) {
        match self {
            Cpuid::Intel(c) => c.get(key),
            Cpuid::Amd(c) => c.get(key),
        }
    }

    /// Gets the entry for `key` for modification; the manufacturer stays the same.
    fn get_mut(&mut self, key: &CpuidKey) -> (r: Option<&mut CpuidEntry>)
        ensures
            (*old(self) is Intel) == (*final(self) is Intel),
    {
        match self {
            Cpuid::Intel(c) => c.get_mut(key),
            Cpuid::Amd(c) => c.get_mut(key),
        }
    }
}

impl Cpuid {
    /// The entries of the CPUID, whichever its manufacturer.
    pub open spec fn entries(self) -> Seq<(CpuidKey, CpuidEntry)> {
        match self {
            Cpuid::Intel(c) => c.0@,
            Cpuid::Amd(c) => c.0@,
        }
    }

    /// Returns the Intel CPUID, if it is one.
    pub fn intel(&self) -> (r: Option<&IntelCpuid>)
        ensures
            match *self {
                Cpuid::Intel(c) => r == Some(&c),
                Cpuid::Amd(_) => r is None,
            },
    {
        match self {
            Cpuid::Intel(intel) => Some(intel),
            Cpuid::Amd(_) => None,
        }
    }

    /// Returns the Intel CPUID for modification, if it is one.
    pub fn intel_mut(&mut self) -> (r: Option<&mut IntelCpuid>)
        ensures
            match *old(self) {
                Cpuid::Intel(c) => r matches Some(i) && *i == c && *final(self) == Cpuid::Intel(*final(i)),
                Cpuid::Amd(_) => r is None && *final(self) == *old(self),
            },
    {
        match self {
            Cpuid::Intel(intel) => Some(intel),
            Cpuid::Amd(_) => None,
        }
    }

    /// Returns the AMD CPUID, if it is one.
    pub fn amd(&self) -> (r: Option<&AmdCpuid>)
        ensures
            match *self {
                Cpuid::Amd(c) => r == Some(&c),
                Cpuid::Intel(_) => r is None,
            },
    {
        match self {
            Cpuid::Intel(_) => None,
            Cpuid::Amd(amd) => Some(amd),
        }
    }

    /// Returns the AMD CPUID for modification, if it is one.
    pub fn amd_mut(&mut self) -> (r: Option<&mut AmdCpuid>)
        ensures
            match *old(self) {
                Cpuid::Amd(c) => r matches Some(a) && *a == c && *final(self) == Cpuid::Amd(*final(a)),
                Cpuid::Intel(_) => r is None && *final(self) == *old(self),
            },
    {
        match self {
            Cpuid::Intel(_) => None,
            Cpuid::Amd(amd) => Some(amd),
        }
    }

    /// Applies the changes for the vCPU `cpu_index` of `cpu_count` with `2^cpu_bits`
    /// logical CPUs per core: first the feature information leaf, then the changes of the
    /// manufacturer (for AMD, with the host's extended topology leaves).
    ///
    /// # Errors
    ///
    /// When leaf 0x1 is missing, the CPU count is not 1 to 128, or the manufacturer's
    /// changes fail.
    pub fn normalize(
        &mut self,
        cpu_index: u8,
        cpu_count: u8,
        cpu_bits: u8,
        host: &amd::HostExtendedTopology,
    ) -> (r: Result<(), NormalizeCpuidError>)
        requires
            *old(self) is Amd ==> sorted_keys(old(self).entries()) && host.cache_topology@.len() <= 0xffff_ffff,
            *old(self) is Intel && leaf1_applied(old(self).entries(), cpu_index, cpu_count).1 is Ok
                ==> intel::intel_normalize_defined(
                leaf1_applied(old(self).entries(), cpu_index, cpu_count).0,
                cpu_count,
                cpu_bits,
            ),
        ensures
            (*old(self) is Intel) == (*final(self) is Intel),
            ({
                let (s1, r1) = leaf1_applied(old(self).entries(), cpu_index, cpu_count);
                match r1 {
                    Err(e) => final(self).entries() == s1 && r == Err::<(), NormalizeCpuidError>(
                        NormalizeCpuidError::FeatureInfomation(e),
                    ),
                    Ok(()) => match *old(self) {
                        Cpuid::Intel(_) => {
                            let (s2, r2) = intel::intel_normalized(s1, cpu_index, cpu_count, cpu_bits);
                            &&& final(self).entries() == s2
                            &&& r == match r2 {
                                Ok(()) => Ok::<(), NormalizeCpuidError>(()),
                                Err(e) => Err(NormalizeCpuidError::Intel(e)),
                            }
                        },
                        Cpuid::Amd(_) => {
                            let (t2, r2) = amd::amd_normalized(table_of(s1), cpu_index, cpu_count, cpu_bits, *host);
                            &&& holds_table(final(self).entries(), t2)
                            &&& r == match r2 {
                                Ok(()) => Ok::<(), NormalizeCpuidError>(()),
                                Err(e) => Err(NormalizeCpuidError::Amd(e)),
                            }
                        },
                    },
                }
            }),
    {
        match self {
            Cpuid::Intel(c) => {
                match normalize_feature_information(&mut c.0, cpu_index, cpu_count) {
                    Ok(()) => {},
                    Err(e) => return Err(NormalizeCpuidError::FeatureInfomation(e)),
                }
                match c.normalize(cpu_index, cpu_count, cpu_bits) {
                    Ok(()) => Ok(()),
                    Err(e) => Err(NormalizeCpuidError::Intel(e)),
                }
            },
            Cpuid::Amd(c) => {
                let ghost s0 = c.0@;
                match normalize_feature_information(&mut c.0, cpu_index, cpu_count) {
                    Ok(()) => {},
                    Err(e) => return Err(NormalizeCpuidError::FeatureInfomation(e)),
                }
                proof {
                    lemma_find_from(s0, CpuidKey { leaf: 1, subleaf: 0 }, 0);
                    let p = find_key(s0, CpuidKey { leaf: 1, subleaf: 0 })->0;
                    lemma_lookup_after_set(s0, p, c.0@[p].1.result);
                }
                match c.normalize(cpu_index, cpu_count, cpu_bits, host) {
                    Ok(()) => Ok(()),
                    Err(e) => Err(NormalizeCpuidError::Amd(e)),
                }
            },
        }
    }
}


// ---------------------------------------------------------------------------------------------
// Comparison
// ---------------------------------------------------------------------------------------------

/// The leaves compared when telling whether two Intel CPUIDs are equal.
pub open spec fn compared_leaf(leaf: u32) -> bool {
    (leaf <= 0x7) || leaf == 0x9 || leaf == 0xA || leaf == 0xB || leaf == 0xF || leaf == 0x10 || (
    0x14 <= leaf <= 0x1C) || leaf == 0x1F || leaf == 0x20 || (0x8000_0000 <= leaf <= 0x8000_0008)
}

fn is_compared_leaf(leaf: u32) -> (r: bool)
    ensures
        r == compared_leaf(leaf),
{
    (leaf <= 0x7) || leaf == 0x9 || leaf == 0xA || leaf == 0xB || leaf == 0xF || leaf == 0x10 || (
    0x14 <= leaf && leaf <= 0x1C) || leaf == 0x1F || leaf == 0x20 || (0x8000_0000 <= leaf && leaf
        <= 0x8000_0008)
}

/// The keys and registers of the entries of compared leaves among the first `n` entries,
/// in order.
pub open spec fn compared_prefix(s: Seq<(CpuidKey, CpuidEntry)>, n: int) -> Seq<(CpuidKey, CCpuidResult)>
    decreases n,
{
    if n <= 0 {
        Seq::empty()
    } else if compared_leaf(s[n - 1].0.leaf) {
        compared_prefix(s, n - 1).push((s[n - 1].0, s[n - 1].1.result))
    } else {
        compared_prefix(s, n - 1)
    }
}

/// The keys and registers of the entries of compared leaves, in order.
pub open spec fn compared_entries(s: Seq<(CpuidKey, CpuidEntry)>) -> Seq<(CpuidKey, CCpuidResult)> {
    compared_prefix(s, s.len() as int)
}

fn collect_compared(entries: &Entries) -> (r: Vec<(CpuidKey, CCpuidResult)>)
    ensures
        r@ == compared_entries(entries@),
{
    let mut r: Vec<(CpuidKey, CCpuidResult)> = Vec::new();
    let mut i: usize = 0;
    while i < entries.len()
        invariant
            0 <= i <= entries.len(),
            r@ == compared_prefix(entries@, i as int),
        decreases entries.len() - i,
    {
        if is_compared_leaf(entries[i].0.leaf) {
            r.push((entries[i].0, entries[i].1.result));
        }
        i = i + 1;
    }
    r
}

fn same_compared(a: &Vec<(CpuidKey, CCpuidResult)>, b: &Vec<(CpuidKey, CCpuidResult)>) -> (r: bool)
    ensures
        r == (a@ == b@),
{
    if a.len() != b.len() {
        return false;
    }
    let mut i: usize = 0;
    while i < a.len()
        invariant
            0 <= i <= a.len(),
            a.len() == b.len(),
            forall|j: int| 0 <= j < i ==> a@[j] == b@[j],
        decreases a.len() - i,
    {
        let (ka, ra) = a[i];
        let (kb, rb) = b[i];
        if !(ka.leaf == kb.leaf && ka.subleaf == kb.subleaf && ra.eax == rb.eax && ra.ebx == rb.ebx
            && ra.ecx == rb.ecx && ra.edx == rb.edx) {
            return false;
        }
        i = i + 1;
    }
    assert(a@ =~= b@);
    true
}

fn same_entries(a: &Entries, b: &Entries) -> (r: bool)
    ensures
        r == (a@ == b@),
{
    if a.len() != b.len() {
        return false;
    }
    let mut i: usize = 0;
    while i < a.len()
        invariant
            0 <= i <= a.len(),
            a.len() == b.len(),
            forall|j: int| 0 <= j < i ==> a@[j] == b@[j],
        decreases a.len() - i,
    {
        let (ka, ea) = a[i];
        let (kb, eb) = b[i];
        if !(ka.leaf == kb.leaf && ka.subleaf == kb.subleaf && ea.flags.0 == eb.flags.0
            && ea.result.eax == eb.result.eax && ea.result.ebx == eb.result.ebx && ea.result.ecx
            == eb.result.ecx && ea.result.edx == eb.result.edx) {
            return false;
        }
        i = i + 1;
    }
    assert(a@ =~= b@);
    true
}

impl IntelCpuid {
    /// Compares `self` to `other` on the leaves that describe the processor (0x0 to 0x7,
    /// 0x9, 0xA, 0xB, 0xF, 0x10, 0x14 to 0x1C, 0x1F, 0x20 and 0x80000000 to 0x80000008):
    /// their subleaves and registers must be the same; other leaves and the KVM flags are
    /// ignored.
    pub fn equal(&self, other: &Self) -> (r: bool)
        ensures
            r == (compared_entries(self.0@) == compared_entries(other.0@)),
    {
        let a = collect_compared(&self.0);
        let b = collect_compared(&other.0);
        same_compared(&a, &b)
    }
}

impl Cpuid {
    /// Compares `self` to `other`: two Intel CPUIDs as [`IntelCpuid::equal`] does, two AMD
    /// CPUIDs entry by entry; CPUIDs of different manufacturers differ.
    pub fn equal(&self, other: &Self) -> (r: bool)
        ensures
            r == match (*self, *other) {
                (Cpuid::Intel(a), Cpuid::Intel(b)) => compared_entries(a.0@) == compared_entries(b.0@),
                (Cpuid::Amd(a), Cpuid::Amd(b)) => a.0@ == b.0@,
                _ => false,
            },
    {
        match (self, other) {
            (Cpuid::Intel(a), Cpuid::Intel(b)) => a.equal(b),
            (Cpuid::Amd(a), Cpuid::Amd(b)) => same_entries(&a.0, &b.0),
            _ => false,
        }
    }
}

// ---------------------------------------------------------------------------------------------
// Conversion from and to the entries KVM exchanges
// ---------------------------------------------------------------------------------------------

/// The key and entry of a raw KVM entry.
pub open spec fn raw_pair(e: RawKvmCpuidEntry) -> (CpuidKey, CpuidEntry) {
    (
        CpuidKey { leaf: e.function, subleaf: e.index },
        CpuidEntry {
            flags: KvmCpuidFlags(e.flags),
            result: CCpuidResult { eax: e.eax, ebx: e.ebx, ecx: e.ecx, edx: e.edx },
        },
    )
}

/// The entry for key `k` among the first `n` raw entries: the last one with that key.
pub open spec fn raw_last(raw: Seq<RawKvmCpuidEntry>, k: CpuidKey, n: int) -> Option<CpuidEntry>
    decreases n,
{
    if n <= 0 {
        None
    } else if raw_pair(raw[n - 1]).0 == k {
        Some(raw_pair(raw[n - 1]).1)
    } else {
        raw_last(raw, k, n - 1)
    }
}

/// The table of raw entries: a later entry for a key replaces an earlier one.
pub open spec fn raw_table(raw: Seq<RawKvmCpuidEntry>) -> Table {
    |k: CpuidKey| raw_last(raw, k, raw.len() as int)
}

/// The position of the first raw entry of leaf 0 subleaf 0.
pub open spec fn raw_leaf0_from(raw: Seq<RawKvmCpuidEntry>, i: int) -> Option<int>
    decreases raw.len() - i,
{
    if i < 0 || i >= raw.len() {
        None
    } else if raw[i].function == 0 && raw[i].index == 0 {
        Some(i)
    } else {
        raw_leaf0_from(raw, i + 1)
    }
}

proof fn lemma_raw_leaf0_from(raw: Seq<RawKvmCpuidEntry>, i: int)
    requires
        0 <= i,
    ensures
        raw_leaf0_from(raw, i) matches Some(p) ==> i <= p < raw.len(),
    decreases raw.len() - i,
{
    if i < raw.len() && !(raw[i].function == 0 && raw[i].index == 0) {
        lemma_raw_leaf0_from(raw, i + 1);
    }
}

/// The manufacturer ID of raw entries: from their first entry for leaf 0.
pub open spec fn raw_manufacturer(raw: Seq<RawKvmCpuidEntry>) -> Option<Seq<u8>> {
    match raw_leaf0_from(raw, 0) {
        Some(p) => Some(manufacturer_bytes(raw_pair(raw[p]).1.result)),
        None => None,
    }
}

fn raw_leaf0_position(raw: &[RawKvmCpuidEntry]) -> (r: Option<usize>)
    ensures
        match r {
            Some(p) => raw_leaf0_from(raw@, 0) == Some(p as int) && p < raw@.len(),
            None => raw_leaf0_from(raw@, 0) is None,
        },
{
    proof {
        lemma_raw_leaf0_from(raw@, 0);
    }
    let mut i: usize = 0;
    while i < raw.len()
        invariant
            0 <= i <= raw.len(),
            raw_leaf0_from(raw@, 0) == raw_leaf0_from(raw@, i as int),
        decreases raw.len() - i,
    {
        if raw[i].function == 0 && raw[i].index == 0 {
            return Some(i);
        }
        i = i + 1;
    }
    None
}

/// Extracts the manufacturer ID from the first entry for leaf 0 of raw entries.
///
/// # Errors
///
/// When there is no entry for leaf 0.
pub fn get_vendor_id_from_cpuid(raw: &[RawKvmCpuidEntry]) -> (r: Result<[u8; 12], Leaf0NotFoundInCpuid>)
    ensures
        match raw_manufacturer(raw@) {
            Some(id) => r matches Ok(v) && v@ == id,
            None => r is Err,
        },
{
    match raw_leaf0_position(raw) {
        Some(p) => {
            let e = raw[p];
            Ok(manufacturer_of(&CCpuidResult { eax: e.eax, ebx: e.ebx, ecx: e.ecx, edx: e.edx }))
        },
        None => Err(Leaf0NotFoundInCpuid),
    }
}

/// The entries of raw KVM entries, in key order; a later raw entry for a key replaces an
/// earlier one.
pub fn entries_from_raw(raw: &[RawKvmCpuidEntry]) -> (r: Entries)
    ensures
        holds_table(r@, raw_table(raw@)),
{
    let mut entries: Entries = Vec::new();
    let mut i: usize = 0;
    while i < raw.len()
        invariant
            0 <= i <= raw.len(),
            sorted_keys(entries@),
            forall|k: CpuidKey| #[trigger] lookup(entries@, k) == raw_last(raw@, k, i as int),
        decreases raw.len() - i,
    {
        let e = raw[i];
        entries_insert(
            &mut entries,
            CpuidKey { leaf: e.function, subleaf: e.index },
            CpuidEntry {
                flags: KvmCpuidFlags(e.flags),
                result: CCpuidResult { eax: e.eax, ebx: e.ebx, ecx: e.ecx, edx: e.edx },
            },
        );
        i = i + 1;
    }
    entries
}

/// The raw KVM entries of a list, in its order.
pub open spec fn raw_of(s: Seq<(CpuidKey, CpuidEntry)>) -> Seq<RawKvmCpuidEntry> {
    Seq::new(
        s.len(),
        |i: int|
            RawKvmCpuidEntry {
                function: s[i].0.leaf,
                index: s[i].0.subleaf,
                flags: s[i].1.flags.0,
                eax: s[i].1.result.eax,
                ebx: s[i].1.result.ebx,
                ecx: s[i].1.result.ecx,
                edx: s[i].1.result.edx,
            },
    )
}

/// The raw KVM entries of a list of entries, in order.
pub fn entries_to_raw(entries: &Entries) -> (r: Vec<RawKvmCpuidEntry>)
    ensures
        r@ == raw_of(entries@),
{
    let mut r: Vec<RawKvmCpuidEntry> = Vec::new();
    let mut i: usize = 0;
    while i < entries.len()
        invariant
            0 <= i <= entries.len(),
            r@ == raw_of(entries@).subrange(0, i as int),
        decreases entries.len() - i,
    {
        let (k, e) = entries[i];
        r.push(
            RawKvmCpuidEntry {
                function: k.leaf,
                index: k.subleaf,
                flags: e.flags.0,
                eax: e.result.eax,
                ebx: e.result.ebx,
                ecx: e.result.ecx,
                edx: e.result.edx,
            },
        );
        i = i + 1;
        assert(r@ =~= raw_of(entries@).subrange(0, i as int));
    }
    assert(r@ =~= raw_of(entries@));
    r
}

/// Whether a manufacturer ID is `GenuineIntel`.
fn is_genuine_intel(id: &[u8; 12]) -> (r: bool)
    ensures
        r == (id@ == genuine_intel()),
{
    let r = id[0] == 0x47 && id[1] == 0x65 && id[2] == 0x6e && id[3] == 0x75 && id[4] == 0x69
        && id[5] == 0x6e && id[6] == 0x65 && id[7] == 0x49 && id[8] == 0x6e && id[9] == 0x74
        && id[10] == 0x65 && id[11] == 0x6c;
    proof {
        if r {
            assert(id@ =~= genuine_intel());
        }
    }
    r
}

/// Whether a manufacturer ID is `AuthenticAMD`.
fn is_authentic_amd(id: &[u8; 12]) -> (r: bool)
    ensures
        r == (id@ == authentic_amd()),
{
    let r = id[0] == 0x41 && id[1] == 0x75 && id[2] == 0x74 && id[3] == 0x68 && id[4] == 0x65
        && id[5] == 0x6e && id[6] == 0x74 && id[7] == 0x69 && id[8] == 0x63 && id[9] == 0x41
        && id[10] == 0x4d && id[11] == 0x44;
    proof {
        if r {
            assert(id@ =~= authentic_amd());
        }
    }
    r
}

impl Cpuid {
    /// Builds the CPUID of raw KVM entries, of the manufacturer named by their first entry
    /// for leaf 0 (`GenuineIntel` or `AuthenticAMD`); a later raw entry for a key replaces
    /// an earlier one.
    ///
    /// # Errors
    ///
    /// When there is no entry for leaf 0, or the manufacturer is neither of the two.
    pub fn try_from_raw(raw: &[RawKvmCpuidEntry]) -> (r: Result<Cpuid, CpuidTryFromRawCpuid>)
        ensures
            match raw_manufacturer(raw@) {
                None => r == Err::<Cpuid, CpuidTryFromRawCpuid>(CpuidTryFromRawCpuid::MissingLeaf0),
                Some(id) => if id == genuine_intel() {
                    r matches Ok(Cpuid::Intel(c)) && holds_table(c.0@, raw_table(raw@))
                } else if id == authentic_amd() {
                    r matches Ok(Cpuid::Amd(c)) && holds_table(c.0@, raw_table(raw@))
                } else {
                    r matches Err(CpuidTryFromRawCpuid::UnsupportedManufacturer(a)) && a@ == id
                },
            },
    {
        let id = match get_vendor_id_from_cpuid(raw) {
            Ok(id) => id,
            Err(_) => return Err(CpuidTryFromRawCpuid::MissingLeaf0),
        };
        if is_genuine_intel(&id) {
            Ok(Cpuid::Intel(IntelCpuid(entries_from_raw(raw))))
        } else if is_authentic_amd(&id) {
            Ok(Cpuid::Amd(AmdCpuid(entries_from_raw(raw))))
        } else {
            Err(CpuidTryFromRawCpuid::UnsupportedManufacturer(id))
        }
    }

    /// The raw KVM entries of the CPUID, in key order.
    pub fn to_raw(&self) -> (r: Vec<RawKvmCpuidEntry>)
        ensures
            r@ == raw_of(self.entries()),
    {
        match self {
            Cpuid::Intel(c) => entries_to_raw(&c.0),
            Cpuid::Amd(c) => entries_to_raw(&c.0),
        }
    }
}


proof fn lemma_raw_last_prefix(s: Seq<(CpuidKey, CpuidEntry)>, k: CpuidKey, n: int)
    requires
        sorted_keys(s),
        0 <= n <= s.len(),
    ensures
        raw_last(raw_of(s), k, n) == (match find_key(s, k) {
            Some(p) => if p < n {
                Some(s[p].1)
            } else {
                None
            },
            None => None,
        }),
    decreases n,
{
    lemma_find_from(s, k, 0);
    if n > 0 {
        lemma_raw_last_prefix(s, k, n - 1);
        assert(raw_pair(raw_of(s)[n - 1]) == s[n - 1]);
        if s[n - 1].0 == k {
            lemma_sorted_find(s, n - 1);
        }
    }
}

proof fn lemma_raw_leaf0_prefix(s: Seq<(CpuidKey, CpuidEntry)>, i: int)
    requires
        0 <= i <= s.len(),
    ensures
        raw_leaf0_from(raw_of(s), i) == find_from(s, CpuidKey { leaf: 0, subleaf: 0 }, i),
    decreases s.len() - i,
{
    if i < s.len() {
        lemma_raw_leaf0_prefix(s, i + 1);
    }
}

/// Converting a CPUID into raw KVM entries and back gives back its entries, and the raw
/// entries name the manufacturer its leaf 0 names.
pub proof fn lemma_raw_round_trip(s: Seq<(CpuidKey, CpuidEntry)>)
    requires
        sorted_keys(s),
    ensures
        holds_table(s, raw_table(raw_of(s))),
        raw_manufacturer(raw_of(s)) == match lookup(s, CpuidKey { leaf: 0, subleaf: 0 }) {
            Some(e) => Some(manufacturer_bytes(e.result)),
            None => None::<Seq<u8>>,
        },
{
    assert forall|k: CpuidKey| #[trigger] lookup(s, k) == raw_table(raw_of(s))(k) by {
        lemma_raw_last_prefix(s, k, s.len() as int);
        lemma_find_from(s, k, 0);
    }
    lemma_raw_leaf0_prefix(s, 0);
    lemma_find_from(s, CpuidKey { leaf: 0, subleaf: 0 }, 0);
}

/// Two lists with increasing keys and the same table are the same list.
pub proof fn lemma_table_determines_list(a: Seq<(CpuidKey, CpuidEntry)>, b: Seq<(CpuidKey, CpuidEntry)>)
    requires
        sorted_keys(a),
        sorted_keys(b),
        forall|k: CpuidKey| #[trigger] lookup(a, k) == lookup(b, k),
    ensures
        a == b,
    decreases a.len() + b.len(),
{
    if a.len() > 0 && b.len() > 0 {
        let ka = a[0].0;
        let kb = b[0].0;
        lemma_sorted_find(a, 0);
        lemma_sorted_find(b, 0);
        lemma_find_from(a, kb, 0);
        lemma_find_from(b, ka, 0);
        assert(lookup(a, kb) == lookup(b, kb));
        assert(lookup(b, ka) == lookup(a, ka));
        // The smallest keys agree: each list holds the other's smallest key.
        let pa = find_key(a, kb)->0;
        let pb = find_key(b, ka)->0;
        if ka != kb {
            if pa > 0 {
                assert(key_lt(a[0].0, a[pa].0));
            }
            if pb > 0 {
                assert(key_lt(b[0].0, b[pb].0));
            }
            assert(false);
        }
        let ta = a.subrange(1, a.len() as int);
        let tb = b.subrange(1, b.len() as int);
        assert(sorted_keys(ta)) by {
            assert forall|i: int, j: int| 0 <= i < j < ta.len() implies key_lt(
                #[trigger] ta[i].0,
                #[trigger] ta[j].0,
            ) by {
                assert(ta[i] == a[i + 1]);
                assert(ta[j] == a[j + 1]);
            }
        }
        assert(sorted_keys(tb)) by {
            assert forall|i: int, j: int| 0 <= i < j < tb.len() implies key_lt(
                #[trigger] tb[i].0,
                #[trigger] tb[j].0,
            ) by {
                assert(tb[i] == b[i + 1]);
                assert(tb[j] == b[j + 1]);
            }
        }
        assert forall|k: CpuidKey| #[trigger] lookup(ta, k) == lookup(tb, k) by {
            lemma_find_from(ta, k, 0);
            lemma_find_from(tb, k, 0);
            lemma_find_from(a, k, 0);
            lemma_find_from(b, k, 0);
            assert(lookup(a, k) == lookup(b, k));
            if k == ka {
                assert forall|j: int| 0 <= j < ta.len() implies ta[j].0 != k by {
                    assert(key_lt(a[0].0, a[j + 1].0));
                }
                assert forall|j: int| 0 <= j < tb.len() implies tb[j].0 != k by {
                    assert(key_lt(b[0].0, b[j + 1].0));
                }
                lemma_absent_not_found(ta, k);
                lemma_absent_not_found(tb, k);
            } else {
                match find_key(a, k) {
                    Some(p) => {
                        assert(p > 0);
                        assert(ta[p - 1] == a[p]);
                        lemma_sorted_find(ta, p - 1);
                        let q = find_key(b, k)->0;
                        assert(q > 0);
                        assert(tb[q - 1] == b[q]);
                        lemma_sorted_find(tb, q - 1);
                    },
                    None => {
                        assert forall|j: int| 0 <= j < ta.len() implies ta[j].0 != k by {
                            assert(ta[j] == a[j + 1]);
                        }
                        assert forall|j: int| 0 <= j < tb.len() implies tb[j].0 != k by {
                            assert(tb[j] == b[j + 1]);
                            if tb[j].0 == k {
                                lemma_sorted_find(b, j + 1);
                            }
                        }
                        lemma_absent_not_found(ta, k);
                        lemma_absent_not_found(tb, k);
                    },
                }
            }
        }
        lemma_table_determines_list(ta, tb);
        assert(lookup(a, ka) == Some(a[0].1));
        assert(lookup(b, ka) == Some(b[0].1));
        assert(a[0] == b[0]);
        assert(a =~= seq![a[0]] + ta);
        assert(b =~= seq![b[0]] + tb);
        assert(a == b);
    } else if a.len() > 0 {
        lemma_sorted_find(a, 0);
        lemma_absent_not_found(b, a[0].0);
        assert(lookup(a, a[0].0) == lookup(b, a[0].0));
    } else if b.len() > 0 {
        lemma_sorted_find(b, 0);
        lemma_absent_not_found(a, b[0].0);
        assert(lookup(a, b[0].0) == lookup(b, b[0].0));
    } else {
        assert(a =~= b);
    }
}


/// A list read back from the raw entries of a list with increasing keys is that list.
pub proof fn lemma_raw_round_trip_exact(s: Seq<(CpuidKey, CpuidEntry)>, t: Seq<(CpuidKey, CpuidEntry)>)
    requires
        sorted_keys(s),
        holds_table(t, raw_table(raw_of(s))),
    ensures
        t == s,
{
    lemma_raw_round_trip(s);
    assert forall|k: CpuidKey| #[trigger] lookup(t, k) == lookup(s, k) by {
        assert(lookup(t, k) == raw_table(raw_of(s))(k));
        assert(lookup(s, k) == raw_table(raw_of(s))(k));
    }
    lemma_table_determines_list(t, s);
}

// ---------------------------------------------------------------------------------------------
// MSRs to save
// ---------------------------------------------------------------------------------------------

/// The IA32_BNDCFGS MSR, used by memory protection extensions.
pub const MSR_IA32_BNDCFGS: u32 = 0x0000_0d90;

/// Whether some raw entry for `leaf`/`index` among the first `n` has bit `bit` of the
/// register `reg` (0 to 3 for EAX to EDX) set.
pub open spec fn raw_feature_set(raw: Seq<RawKvmCpuidEntry>, leaf: u32, index: u32, reg: int, bit: u32, n: int) -> bool {
    exists|i: int|
        0 <= i < n && (#[trigger] raw[i]).function == leaf && raw[i].index == index && (
        raw_register(raw[i], reg) & (1u32 << bit)) != 0
}

/// Register `reg` (0 to 3 for EAX to EDX) of a raw entry.
pub open spec fn raw_register(e: RawKvmCpuidEntry, reg: int) -> u32 {
    if reg == 0 {
        e.eax
    } else if reg == 1 {
        e.ebx
    } else if reg == 2 {
        e.ecx
    } else {
        e.edx
    }
}

fn raw_is_feature_set(raw: &[RawKvmCpuidEntry], leaf: u32, index: u32, reg: u8, bit: u32) -> (r: bool)
    requires
        bit < 32,
        reg < 4,
    ensures
        r == raw_feature_set(raw@, leaf, index, reg as int, bit, raw@.len() as int),
{
    let mut i: usize = 0;
    while i < raw.len()
        invariant
            0 <= i <= raw.len(),
            bit < 32,
            reg < 4,
            !raw_feature_set(raw@, leaf, index, reg as int, bit, i as int),
        decreases raw.len() - i,
    {
        let e = raw[i];
        if e.function == leaf && e.index == index {
            let v = if reg == 0 {
                e.eax
            } else if reg == 1 {
                e.ebx
            } else if reg == 2 {
                e.ecx
            } else {
                e.edx
            };
            if v & (1u32 << bit) != 0 {
                assert(raw@[i as int] == e);
                return true;
            }
        }
        i = i + 1;
    }
    false
}

/// The MSRs to save for the Intel CPUID features of raw entries: IA32_BNDCFGS with memory
/// protection extensions (leaf 0x7 EBX bit 14); the variable-range MTRRs 0x200 to 0x20f and
/// the fixed-range MTRRs, PAT and MTRR default type with MTRR (leaf 0x1 EDX bit 12); and
/// the 32 machine-check banks 0x400 to 0x47f with MCE (leaf 0x1 EDX bit 7).
pub open spec fn intel_msrs(raw: Seq<RawKvmCpuidEntry>) -> Set<u32> {
    let n = raw.len() as int;
    let mpx = raw_feature_set(raw, 0x7, 0, 1, 14, n);
    let mtrr = raw_feature_set(raw, 0x1, 0, 3, 12, n);
    let mce = raw_feature_set(raw, 0x1, 0, 3, 7, n);
    Set::new(
        |m: u32|
            (mpx && m == MSR_IA32_BNDCFGS) || (mtrr && (0x200 <= m < 0x210 || m == 0x250 || m
                == 0x258 || m == 0x259 || (0x268 <= m <= 0x26f) || m == 0x277 || m == 0x2ff)) || (mce
                && 0x400 <= m < 0x480),
    )
}

fn insert_range(msrs: &mut std::collections::HashSet<u32>, lo: u32, hi: u32)
    requires
        lo <= hi,
    ensures
        final(msrs)@ == old(msrs)@.union(Set::new(|m: u32| lo <= m < hi)),
{
    broadcast use vstd::std_specs::hash::group_hash_axioms;

    let mut m = lo;
    while m < hi
        invariant
            lo <= m <= hi,
            msrs@ == old(msrs)@.union(Set::new(|x: u32| lo <= x < m)),
        decreases hi - m,
    {
        msrs.insert(m);
        m = m + 1;
        assert(msrs@ =~= old(msrs)@.union(Set::new(|x: u32| lo <= x < m)));
    }
}

/// Returns the MSRs to save for the Intel CPUID features enabled in raw entries.
pub fn intel_msrs_to_save_by_cpuid(raw: &[RawKvmCpuidEntry]) -> (r: std::collections::HashSet<u32>)
    ensures
        r@ == intel_msrs(raw@),
{
    broadcast use vstd::std_specs::hash::group_hash_axioms;

    let mut msrs: std::collections::HashSet<u32> = std::collections::HashSet::new();
    let mpx = raw_is_feature_set(raw, 0x7, 0, 1, 14);
    if mpx {
        msrs.insert(MSR_IA32_BNDCFGS);
    }
    let ghost after_mpx = msrs@;
    let mtrr = raw_is_feature_set(raw, 0x1, 0, 3, 12);
    if mtrr {
        // The variable-range MTRRs, IA32_MTRR_PHYSBASEn and IA32_MTRR_PHYSMASKn.
        insert_range(&mut msrs, 0x200, 0x210);
        // The fixed-range MTRRs, IA32_PAT and IA32_MTRR_DEF_TYPE.
        msrs.insert(0x250);
        msrs.insert(0x258);
        msrs.insert(0x259);
        insert_range(&mut msrs, 0x268, 0x270);
        msrs.insert(0x277);
        msrs.insert(0x2ff);
    }
    let mce = raw_is_feature_set(raw, 0x1, 0, 3, 7);
    if mce {
        // The 32 machine-check banks that KVM supports at most.
        insert_range(&mut msrs, 0x400, 0x480);
    }
    assert(msrs@ =~= intel_msrs(raw@));
    msrs
}

/// Returns the MSRs to save for the CPUID features enabled in raw entries: those of
/// [`intel_msrs_to_save_by_cpuid`] for an Intel CPUID, none for another manufacturer.
///
/// # Errors
///
/// When there is no entry for leaf 0.
pub fn msrs_to_save_by_cpuid(raw: &[RawKvmCpuidEntry]) -> (r: Result<std::collections::HashSet<u32>, Leaf0NotFoundInCpuid>)
    ensures
        match raw_manufacturer(raw@) {
            None => r is Err,
            Some(id) => r matches Ok(m) && m@ == (if id == genuine_intel() {
                intel_msrs(raw@)
            } else {
                Set::<u32>::empty()
            }),
        },
{
    let id = match get_vendor_id_from_cpuid(raw) {
        Ok(id) => id,
        Err(e) => return Err(e),
    };
    if is_genuine_intel(&id) {
        Ok(intel_msrs_to_save_by_cpuid(raw))
    } else {
        // No MSR-CPUID dependencies for other manufacturers.
        Ok(std::collections::HashSet::new())
    }
}

// ---------------------------------------------------------------------------------------------
// Support checks
// ---------------------------------------------------------------------------------------------

/// The names of the registers not compared, in the order EAX, EBX, ECX, EDX.
pub open spec fn unchecked_registers(eax: bool, ebx: bool, ecx: bool, edx: bool) -> Seq<Seq<char>> {
    (if eax { Seq::empty() } else { seq![seq!['E', 'A', 'X']] }) + (if ebx { Seq::empty() } else {
        seq![seq!['E', 'B', 'X']]
    }) + (if ecx { Seq::empty() } else { seq![seq!['E', 'C', 'X']] }) + (if edx { Seq::empty() } else {
        seq![seq!['E', 'D', 'X']]
    })
}

/// Names joined by `, `.
pub open spec fn comma_joined(ns: Seq<Seq<char>>) -> Seq<char>
    decreases ns.len(),
{
    if ns.len() <= 1 {
        if ns.len() == 1 { ns[0] } else { Seq::empty() }
    } else {
        comma_joined(ns.drop_last()) + seq![',', ' '] + ns.last()
    }
}

/// Names listed in prose: `A`, `A and B`, `A, B and C`, ...
pub open spec fn listed(ns: Seq<Seq<char>>) -> Seq<char> {
    if ns.len() <= 1 {
        comma_joined(ns)
    } else {
        comma_joined(ns.drop_last()) + seq![' ', 'a', 'n', 'd', ' '] + ns.last()
    }
}

/// The registers that a support check could not fully compare, named in a warning: `None`
/// when all four were compared, else the list of the others (e.g. `EAX, EBX and EDX`).
pub fn support_warn(eax: bool, ebx: bool, ecx: bool, edx: bool) -> (r: Option<&'static str>)
    ensures
        r is None <==> (eax && ebx && ecx && edx),
        r matches Some(msg) ==> msg@ == listed(unchecked_registers(eax, ebx, ecx, edx)),
{
    proof {
        reveal_with_fuel(comma_joined, 4);
    }
    match (eax, ebx, ecx, edx) {
        (true, true, true, true) => None,
        (true, true, true, false) => {
            proof {
                reveal_strlit("EDX");
            }
            Some("EDX")
        },
        (true, true, false, true) => {
            proof {
                reveal_strlit("ECX");
            }
            Some("ECX")
        },
        (true, true, false, false) => {
            proof {
                reveal_strlit("ECX and EDX");
            }
            Some("ECX and EDX")
        },
        (true, false, true, true) => {
            proof {
                reveal_strlit("EBX");
            }
            Some("EBX")
        },
        (true, false, true, false) => {
            proof {
                reveal_strlit("EBX and EDX");
            }
            Some("EBX and EDX")
        },
        (true, false, false, true) => {
            proof {
                reveal_strlit("EBX and ECX");
            }
            Some("EBX and ECX")
        },
        (true, false, false, false) => {
            proof {
                reveal_strlit("EBX, ECX and EDX");
            }
            Some("EBX, ECX and EDX")
        },
        (false, true, true, true) => {
            proof {
                reveal_strlit("EAX");
            }
            Some("EAX")
        },
        (false, true, true, false) => {
            proof {
                reveal_strlit("EAX and EDX");
            }
            Some("EAX and EDX")
        },
        (false, true, false, true) => {
            proof {
                reveal_strlit("EAX and ECX");
            }
            Some("EAX and ECX")
        },
        (false, true, false, false) => {
            proof {
                reveal_strlit("EAX, ECX and EDX");
            }
            Some("EAX, ECX and EDX")
        },
        (false, false, true, true) => {
            proof {
                reveal_strlit("EAX and EBX");
            }
            Some("EAX and EBX")
        },
        (false, false, true, false) => {
            proof {
                reveal_strlit("EAX, EBX and EDX");
            }
            Some("EAX, EBX and EDX")
        },
        (false, false, false, true) => {
            proof {
                reveal_strlit("EAX, EBX and ECX");
            }
            Some("EAX, EBX and ECX")
        },
        (false, false, false, false) => {
            proof {
                reveal_strlit("EAX, EBX, ECX and EDX");
            }
            Some("EAX, EBX, ECX and EDX")
        },
    }
}

/// Leaf 0 of a CPUID supports leaf 0 of another: the manufacturer ID (EBX, ECX, EDX) is the
/// same and the maximum input value for basic CPUID information (EAX) is at least the
/// other's.
pub open spec fn leaf0_supports(a: CCpuidResult, b: CCpuidResult) -> Result<(), Leaf0NotSupported> {
    if !(a.ebx == b.ebx && a.ecx == b.ecx && a.edx == b.edx) {
        Err(Leaf0NotSupported::ManufacturerId([a.ebx, a.ecx, a.edx], [b.ebx, b.ecx, b.edx]))
    } else if a.eax < b.eax {
        Err(Leaf0NotSupported::MaximumInputValue(a.eax, b.eax))
    } else {
        Ok(())
    }
}

impl Leaf<u32, u32, u32, u32> {
    /// Whether this leaf 0 supports `other`: a process from an environment with leaf 0
    /// `other` could continue in one with this leaf 0.
    pub fn supports(&self, other: &Self) -> (r: Result<(), Leaf0NotSupported>)
        ensures
            r == leaf0_supports(
                CCpuidResult { eax: self.eax, ebx: self.ebx, ecx: self.ecx, edx: self.edx },
                CCpuidResult { eax: other.eax, ebx: other.ebx, ecx: other.ecx, edx: other.edx },
            ),
    {
        if !(self.ebx == other.ebx && self.ecx == other.ecx && self.edx == other.edx) {
            return Err(
                Leaf0NotSupported::ManufacturerId(
                    [self.ebx, self.ecx, self.edx],
                    [other.ebx, other.ecx, other.edx],
                ),
            );
        }
        if self.eax < other.eax {
            return Err(Leaf0NotSupported::MaximumInputValue(self.eax, other.eax));
        }
        Ok(())
    }
}

impl AmdCpuid {
    /// Whether this CPUID supports `other`; AMD features are not checked, so it always does.
    pub fn supports(&self, other: &Self) -> (r: Result<(), amd::AmdCpuidNotSupported>)
        ensures
            r is Ok,
    {
        Ok(())
    }
}


// ---------------------------------------------------------------------------------------------
// Leaf access
// ---------------------------------------------------------------------------------------------

/// The registers of leaf `leaf` (subleaf 0).
pub fn entries_leaf<'a>(entries: &'a Entries, leaf: u32) -> (r: Option<&'a CCpuidResult>)
    ensures
        match lookup(entries@, CpuidKey { leaf, subleaf: 0 }) {
            Some(e) => r == Some(&e.result),
            None => r is None,
        },
{
    match position(entries, &CpuidKey::leaf(leaf)) {
        Some(i) => Some(&entries[i].1.result),
        None => None,
    }
}

/// The registers of leaf `leaf` (subleaf 0) for modification.
pub fn entries_leaf_mut<'a>(entries: &'a mut Entries, leaf: u32) -> (r: Option<&'a mut CCpuidResult>)
    ensures
        match find_key(old(entries)@, CpuidKey { leaf, subleaf: 0 }) {
            Some(p) => r matches Some(res) && *res == old(entries)@[p].1.result && final(entries)@
                == set_result_at(old(entries)@, p, *final(res)),
            None => r is None && final(entries)@ == old(entries)@,
        },
{
    match position(entries, &CpuidKey::leaf(leaf)) {
        Some(i) => Some(&mut entries[i].1.result),
        None => None,
    }
}

impl IntelCpuid {
    /// The registers of leaf `N` (subleaf 0), if present.
    pub fn leaf<const N: u32>(&self) -> (r: Option<&CCpuidResult>)
        ensures
            match lookup(self.0@, CpuidKey { leaf: N, subleaf: 0 }) {
                Some(e) => r == Some(&e.result),
                None => r is None,
            },
    {
        entries_leaf(&self.0, N)
    }

    /// The registers of leaf `N` (subleaf 0) for modification, if present.
    pub fn leaf_mut<const N: u32>(&mut self) -> (r: Option<&mut CCpuidResult>)
        ensures
            match find_key(old(self).0@, CpuidKey { leaf: N, subleaf: 0 }) {
                Some(p) => r matches Some(res) && *res == old(self).0@[p].1.result && final(self).0@
                    == set_result_at(old(self).0@, p, *final(res)),
                None => r is None && final(self).0@ == old(self).0@,
            },
    {
        entries_leaf_mut(&mut self.0, N)
    }
}

impl AmdCpuid {
    /// The registers of leaf `N` (subleaf 0), if present.
    pub fn leaf<const N: u32>(&self) -> (r: Option<&CCpuidResult>)
        ensures
            match lookup(self.0@, CpuidKey { leaf: N, subleaf: 0 }) {
                Some(e) => r == Some(&e.result),
                None => r is None,
            },
    {
        entries_leaf(&self.0, N)
    }

    /// The registers of leaf `N` (subleaf 0) for modification, if present.
    pub fn leaf_mut<const N: u32>(&mut self) -> (r: Option<&mut CCpuidResult>)
        ensures
            match find_key(old(self).0@, CpuidKey { leaf: N, subleaf: 0 }) {
                Some(p) => r matches Some(res) && *res == old(self).0@[p].1.result && final(self).0@
                    == set_result_at(old(self).0@, p, *final(res)),
                None => r is None && final(self).0@ == old(self).0@,
            },
    {
        entries_leaf_mut(&mut self.0, N)
    }
}


// ---------------------------------------------------------------------------------------------
// Host CPUID
// ---------------------------------------------------------------------------------------------

/// The outcome of reading host leaf `leaf`, subleaf `subleaf`, when the host's largest leaf
/// of that range is `max_leaf` and the instruction returned `entry`: a leaf beyond the
/// largest is unsupported, and a subleaf whose registers are all zero is invalid.
pub open spec fn host_leaf(leaf: u32, subleaf: u32, max_leaf: u32, entry: CCpuidResult) -> Result<CCpuidResult, GetCpuidError> {
    if leaf > max_leaf {
        Err(GetCpuidError::UnsupportedLeaf(leaf))
    } else if entry.eax == 0 && entry.ebx == 0 && entry.ecx == 0 && entry.edx == 0 {
        Err(GetCpuidError::InvalidSubleaf(subleaf))
    } else {
        Ok(entry)
    }
}

/// Checks what the CPUID instruction returned for host leaf `leaf`, subleaf `subleaf`,
/// against the largest leaf `max_leaf` the host supports in that range.
///
/// # Errors
///
/// When `leaf` is beyond `max_leaf`, or all the registers are zero.
pub fn check_host_leaf(leaf: u32, subleaf: u32, max_leaf: u32, entry: CCpuidResult) -> (r: Result<CCpuidResult, GetCpuidError>)
    ensures
        r == host_leaf(leaf, subleaf, max_leaf, entry),
{
    if leaf > max_leaf {
        return Err(GetCpuidError::UnsupportedLeaf(leaf));
    }
    if entry.eax == 0 && entry.ebx == 0 && entry.ecx == 0 && entry.edx == 0 {
        return Err(GetCpuidError::InvalidSubleaf(subleaf));
    }
    Ok(entry)
}

/// The manufacturer ID of the host, from what reading its leaf 0 gave.
pub fn vendor_id_of_leaf0(leaf0: Result<CCpuidResult, GetCpuidError>) -> (r: Result<[u8; 12], GetCpuidError>)
    ensures
        match leaf0 {
            Ok(e) => r matches Ok(id) && id@ == manufacturer_bytes(e),
            Err(e) => r == Err::<[u8; 12], GetCpuidError>(e),
        },
{
    match leaf0 {
        Ok(e) => Ok(manufacturer_of(&e)),
        Err(e) => Err(e),
    }
}

/// Two processor signatures (leaf 0x1 EAX) name the same model: same extended family
/// (bits 20..28), extended model (16..20), family (8..12), model (4..8) and stepping
/// (0..4).
pub open spec fn same_signature(a: u32, b: u32) -> bool {
    &&& get_range(a, 20, 8) == get_range(b, 20, 8)
    &&& get_range(a, 16, 4) == get_range(b, 16, 4)
    &&& get_range(a, 8, 4) == get_range(b, 8, 4)
    &&& get_range(a, 4, 4) == get_range(b, 4, 4)
    &&& get_range(a, 0, 4) == get_range(b, 0, 4)
}

/// The position of the first raw entry of leaf 1, any subleaf.
pub open spec fn raw_leaf1_from(raw: Seq<RawKvmCpuidEntry>, i: int) -> Option<int>
    decreases raw.len() - i,
{
    if i < 0 || i >= raw.len() {
        None
    } else if raw[i].function == 1 {
        Some(i)
    } else {
        raw_leaf1_from(raw, i + 1)
    }
}

proof fn lemma_raw_leaf1_from(raw: Seq<RawKvmCpuidEntry>, i: int)
    requires
        0 <= i,
    ensures
        raw_leaf1_from(raw, i) matches Some(p) ==> i <= p < raw.len(),
    decreases raw.len() - i,
{
    if i < raw.len() && raw[i].function != 1 {
        lemma_raw_leaf1_from(raw, i + 1);
    }
}

/// Whether raw CPUID entries describe a processor of the same model as the host, whose
/// manufacturer ID and leaf 0x1 reads gave `host_vendor_id` and `host_feature_info`: the
/// manufacturer IDs and the processor signatures (of the first raw entry of leaf 0x1) must
/// match; when anything cannot be read, they are not known to be the same.
pub open spec fn same_model(
    host_vendor_id: Result<Seq<u8>, GetCpuidError>,
    host_feature_info: Result<CCpuidResult, GetCpuidError>,
    raw: Seq<RawKvmCpuidEntry>,
) -> bool {
    match (host_vendor_id, raw_manufacturer(raw)) {
        (Ok(h), Some(c)) => h == c && match (host_feature_info, raw_leaf1_from(raw, 0)) {
            (Ok(hf), Some(p)) => same_signature(raw[p].eax, hf.eax),
            _ => false,
        },
        _ => false,
    }
}

/// Validates that raw CPUID entries belong to a processor of the same model as the host.
pub fn is_same_model(
    host_vendor_id: Result<[u8; 12], GetCpuidError>,
    host_feature_info: Result<CCpuidResult, GetCpuidError>,
    raw: &[RawKvmCpuidEntry],
) -> (r: bool)
    ensures
        r == same_model(
            match host_vendor_id {
                Ok(id) => Ok(id@),
                Err(e) => Err(e),
            },
            host_feature_info,
            raw@,
        ),
{
    let host_id = match host_vendor_id {
        Ok(id) => id,
        Err(_) => return false,
    };
    let cpuid_id = match get_vendor_id_from_cpuid(raw) {
        Ok(id) => id,
        Err(_) => return false,
    };
    // Different manufacturers: the processors are not identical.
    let mut i: usize = 0;
    while i < 12
        invariant
            0 <= i <= 12,
            host_vendor_id == Ok::<[u8; 12], GetCpuidError>(host_id),
            raw_manufacturer(raw@) == Some(cpuid_id@),
            forall|j: int| 0 <= j < i ==> host_id@[j] == cpuid_id@[j],
        decreases 12 - i,
    {
        if host_id[i] != cpuid_id[i] {
            assert(host_id@[i as int] != cpuid_id@[i as int]);
            assert(host_id@ != cpuid_id@);
            return false;
        }
        i = i + 1;
    }
    assert(host_id@ =~= cpuid_id@);
    let host_eax = match host_feature_info {
        Ok(leaf) => leaf.eax,
        Err(_) => return false,
    };
    proof {
        lemma_raw_leaf1_from(raw@, 0);
    }
    let mut p: usize = 0;
    while p < raw.len() && raw[p].function != 1
        invariant
            0 <= p <= raw.len(),
            raw_leaf1_from(raw@, 0) == raw_leaf1_from(raw@, p as int),
        decreases raw.len() - p,
    {
        p = p + 1;
    }
    if p == raw.len() {
        return false;
    }
    let eax = raw[p].eax;
    get(eax, 20, 8) == get(host_eax, 20, 8) && get(eax, 16, 4) == get(host_eax, 16, 4) && get(
        eax,
        8,
        4,
    ) == get(host_eax, 8, 4) && get(eax, 4, 4) == get(host_eax, 4, 4) && get(eax, 0, 4) == get(
        host_eax,
        0,
        4,
    )
}


// ---------------------------------------------------------------------------------------------
// What the changes read back as
// ---------------------------------------------------------------------------------------------

/// The feature information leaf set for a vCPU reads back as set: TSC deadline, hypervisor
/// and (with more than one CPU) HTT on, the vCPU's index as initial APIC ID, 8 as CLFLUSH
/// line size and the package's maximum CPUs as maximum addressable IDs.
pub proof fn lemma_leaf1_read_back(r: CCpuidResult, cpu_index: u8, max_cpus: u8, cpu_count: u8)
    ensures
        ({
            let n = leaf1_topology(leaf1_features(r, cpu_index), max_cpus, cpu_count);
            &&& crate::bit_fields::get_bit(n.ecx, 24)
            &&& crate::bit_fields::get_bit(n.ecx, 31)
            &&& crate::bit_fields::get_bit(n.edx, 28) == (cpu_count > 1)
            &&& get_range(n.ebx, 24, 8) == cpu_index as u32
            &&& get_range(n.ebx, 16, 8) == max_cpus as u32
            &&& get_range(n.ebx, 8, 8) == EBX_CLFLUSH_CACHELINE
            &&& n.eax == r.eax
        }),
{
    lemma_range_max_values();
    let e1 = set_bit(r.ecx, 24, true);
    crate::bit_fields::lemma_flag_after_set(r.ecx, 24, true, 31);
    crate::bit_fields::lemma_flag_after_set(e1, 31, true, 24);
    crate::bit_fields::lemma_flag_after_set(r.edx, 28, cpu_count > 1, 0);
    let b1 = set_range(r.ebx, 24, 8, cpu_index as u32);
    let b2 = set_range(b1, 8, 8, EBX_CLFLUSH_CACHELINE);
    crate::bit_fields::lemma_get_after_set(r.ebx, 24, 8, cpu_index as u32);
    crate::bit_fields::lemma_get_after_set(b1, 8, 8, EBX_CLFLUSH_CACHELINE);
    crate::bit_fields::lemma_set_frame(b1, 8, 8, EBX_CLFLUSH_CACHELINE, 24, 8);
    crate::bit_fields::lemma_get_after_set(b2, 16, 8, max_cpus as u32);
    crate::bit_fields::lemma_set_frame(b2, 16, 8, max_cpus as u32, 24, 8);
    crate::bit_fields::lemma_set_frame(b2, 16, 8, max_cpus as u32, 8, 8);
}

/// The registers of a brand-string leaf, read back byte by byte (least significant first),
/// are the bytes of the brand string they were written from.
pub proof fn lemma_brand_bytes_read_back(b: Seq<u8>, n: int)
    requires
        b.len() == 48,
        0 <= n < 3,
    ensures
        le_bytes(brand_result(b, n).eax) == b.subrange(16 * n, 16 * n + 4),
        le_bytes(brand_result(b, n).ebx) == b.subrange(16 * n + 4, 16 * n + 8),
        le_bytes(brand_result(b, n).ecx) == b.subrange(16 * n + 8, 16 * n + 12),
        le_bytes(brand_result(b, n).edx) == b.subrange(16 * n + 12, 16 * n + 16),
{
    assert forall|i: int| 0 <= i <= 44 implies #[trigger] le_bytes(word_le(b, i)) == b.subrange(i, i + 4) by {
        let (b0, b1, b2, b3) = (b[i], b[i + 1], b[i + 2], b[i + 3]);
        let w = word_le(b, i);
        assert(w == (b0 as u32) | ((b1 as u32) << 8u32) | ((b2 as u32) << 16u32) | ((b3 as u32) << 24u32));
        assert((w & 0xff) as u8 == b0 && ((w >> 8u32) & 0xff) as u8 == b1 && ((w >> 16u32) & 0xff) as u8 == b2
            && ((w >> 24u32) & 0xff) as u8 == b3) by (bit_vector)
            requires
                w == (b0 as u32) | ((b1 as u32) << 8u32) | ((b2 as u32) << 16u32) | ((b3 as u32) << 24u32),
        ;
        assert(le_bytes(w) =~= b.subrange(i, i + 4));
    }
    assert(le_bytes(word_le(b, 16 * n)) == b.subrange(16 * n, 16 * n + 4));
    assert(le_bytes(word_le(b, 16 * n + 4)) == b.subrange(16 * n + 4, 16 * n + 8));
    assert(le_bytes(word_le(b, 16 * n + 8)) == b.subrange(16 * n + 8, 16 * n + 12));
    assert(le_bytes(word_le(b, 16 * n + 12)) == b.subrange(16 * n + 12, 16 * n + 16));
}

/// Writing the brand string into a list with increasing keys and all three brand-string
/// leaves succeeds, and the leaves then read back as the brand string, every other entry
/// unchanged.
pub proof fn lemma_brand_applied_read_back(s: Seq<(CpuidKey, CpuidEntry)>, b: Seq<u8>)
    requires
        sorted_keys(s),
        lookup(s, CpuidKey { leaf: 0x8000_0002, subleaf: 0 }) is Some,
        lookup(s, CpuidKey { leaf: 0x8000_0003, subleaf: 0 }) is Some,
        lookup(s, CpuidKey { leaf: 0x8000_0004, subleaf: 0 }) is Some,
    ensures
        brand_applied(s, b).1,
        forall|k: CpuidKey| #[trigger] lookup(brand_applied(s, b).0, k) == if k.subleaf == 0 && 0x8000_0002 <= k.leaf <= 0x8000_0004 {
            Some(CpuidEntry { flags: lookup(s, k)->Some_0.flags, result: brand_result(b, k.leaf - 0x8000_0002) })
        } else {
            lookup(s, k)
        },
{
    let k2 = CpuidKey { leaf: 0x8000_0002, subleaf: 0 };
    let k3 = CpuidKey { leaf: 0x8000_0003, subleaf: 0 };
    let k4 = CpuidKey { leaf: 0x8000_0004, subleaf: 0 };
    lemma_find_from(s, k2, 0);
    let i = find_key(s, k2)->0;
    let s1 = set_result_at(s, i, brand_result(b, 0));
    lemma_lookup_after_set(s, i, brand_result(b, 0));
    assert(lookup(s1, k3) == lookup(s, k3));
    lemma_find_from(s1, k3, 0);
    let j = find_key(s1, k3)->0;
    let s2 = set_result_at(s1, j, brand_result(b, 1));
    lemma_lookup_after_set(s1, j, brand_result(b, 1));
    assert(lookup(s2, k4) == lookup(s, k4));
    lemma_find_from(s2, k4, 0);
    let m = find_key(s2, k4)->0;
    lemma_lookup_after_set(s2, m, brand_result(b, 2));
    let s3 = set_result_at(s2, m, brand_result(b, 2));
    assert forall|k: CpuidKey| #[trigger] lookup(s3, k) == if k.subleaf == 0 && 0x8000_0002 <= k.leaf <= 0x8000_0004 {
        Some(CpuidEntry { flags: lookup(s, k)->Some_0.flags, result: brand_result(b, k.leaf - 0x8000_0002) })
    } else {
        lookup(s, k)
    } by {
        assert(lookup(s3, k) == if k == k4 { Some(CpuidEntry { flags: s2[m].1.flags, result: brand_result(b, 2) }) } else { lookup(s2, k) });
        assert(lookup(s2, k) == if k == k3 { Some(CpuidEntry { flags: s1[j].1.flags, result: brand_result(b, 1) }) } else { lookup(s1, k) });
        assert(lookup(s1, k) == if k == k2 { Some(CpuidEntry { flags: s[i].1.flags, result: brand_result(b, 0) }) } else { lookup(s, k) });
    }
}

} // verus!
