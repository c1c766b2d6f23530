//! Cache and TLB descriptors of leaf 0x2 and their meanings.

use super::{CCpuidResult, Leaf};
use vstd::prelude::*;

verus! {

/// Leaf 0x2: the four registers, each as its four bytes (least significant first).
pub type Leaf2 = Leaf<[u8; 4], [u8; 4], [u8; 4], [u8; 4]>;

/// Error of decoding leaf 0x2: a descriptor byte of unknown meaning.
#[derive(Clone, Copy, Debug, PartialEq, Eq)]
pub struct UnknownKeyword(pub u8);

/// The meaning of a cache and TLB descriptor byte of leaf 0x2, if it has one.
pub open spec fn keyword(b: u8) -> Option<&'static str> {
    match b {
        0u8 => Some("Null descriptor, this byte contains no information"),
        1u8 => Some("Instruction TLB: 4 KByte pages, 4-way set associative, 32 entries"),
        2u8 => Some("Instruction TLB: 4 MByte pages, fully associative, 2 entries"),
        3u8 => Some("Data TLB: 4 KByte pages, 4-way set associative, 64 entries"),
        4u8 => Some("Data TLB: 4 MByte pages, 4-way set associative, 8 entries"),
        5u8 => Some("Data TLB1: 4 MByte pages, 4-way set associative, 32 entries"),
        6u8 => Some("1st-level instruction cache: 8 KBytes, 4-way set associative, 32 byte line size"),
        8u8 => Some("1st-level instruction cache: 16 KBytes, 4-way set associative, 32 byte line size"),
        9u8 => Some("1st-level instruction cache: 32KBytes, 4-way set associative, 64 byte line size"),
        10u8 => Some("1st-level data cache: 8 KBytes, 2-way set associative, 32 byte line size"),
        11u8 => Some("Instruction TLB: 4 MByte pages, 4-way set associative, 4 entries"),
        12u8 => Some("1st-level data cache: 16 KBytes, 4-way set associative, 32 byte line size"),
        13u8 => Some("1st-level data cache: 16 KBytes, 4-way set associative, 64 byte line size"),
        14u8 => Some("1st-level data cache: 24 KBytes, 6-way set associative, 64 byte line size"),
        29u8 => Some("2nd-level cache: 128 KBytes, 2-way set associative, 64 byte line size"),
        33u8 => Some("2nd-level cache: 256 KBytes, 8-way set associative, 64 byte line size"),
        34u8 => Some("3rd-level cache: 512 KBytes, 4-way set associative, 64 byte line size, 2 lines per sector"),
        35u8 => Some("3rd-level cache: 1 MBytes, 8-way set associative, 64 byte line size, 2 lines per sector"),
        36u8 => Some("2nd-level cache: 1 MBytes, 16-way set associative, 64 byte line size"),
        37u8 => Some("3rd-level cache: 2 MBytes, 8-way set associative, 64 byte line size, 2 lines per sector"),
        41u8 => Some("3rd-level cache: 4 MBytes, 8-way set associative, 64 byte line size, 2 lines per sector"),
        44u8 => Some("1st-level data cache: 32 KBytes, 8-way set associative, 64 byte line size"),
        48u8 => Some("1st-level instruction cache: 32 KBytes, 8-way set associative, 64 byte line size"),
        64u8 => Some("No 2nd-level cache or, if processor contains a valid 2nd-level cache, no 3rd-level cache"),
        65u8 => Some("2nd-level cache: 128 KBytes, 4-way set associative, 32 byte line size"),
        66u8 => Some("2nd-level cache: 256 KBytes, 4-way set associative, 32 byte line size"),
        67u8 => Some("2nd-level cache: 512 KBytes, 4-way set associative, 32 byte line size"),
        68u8 => Some("2nd-level cache: 1 MByte, 4-way set associative, 32 byte line size"),
        69u8 => Some("2nd-level cache: 2 MByte, 4-way set associative, 32 byte line size"),
        70u8 => Some("3rd-level cache: 4 MByte, 4-way set associative, 64 byte line size"),
        71u8 => Some("3rd-level cache: 8 MByte, 8-way set associative, 64 byte line size"),
        72u8 => Some("2nd-level cache: 3MByte, 12-way set associative, 64 byte line size"),
        73u8 => Some("3rd-level cache: 4MB, 16-way set associative, 64-byte line size (Intel Xeon processor MP, Family 0FH, Model 06H);\n2nd-level cache: 4 MByte, 16-way set associative, 64 byte line size"),
        74u8 => Some("3rd-level cache: 6MByte, 12-way set associative, 64 byte line size"),
        75u8 => Some("3rd-level cache: 8MByte, 16-way set associative, 64 byte line size"),
        76u8 => Some("3rd-level cache: 12MByte, 12-way set associative, 64 byte line size"),
        77u8 => Some("3rd-level cache: 16MByte, 16-way set associative, 64 byte line size"),
        78u8 => Some("2nd-level cache: 6MByte, 24-way set associative, 64 byte line size"),
        79u8 => Some("Instruction TLB: 4 KByte pages, 32 entries"),
        80u8 => Some("Instruction TLB: 4 KByte and 2-MByte or 4-MByte pages, 64 entries"),
        81u8 => Some("Instruction TLB: 4 KByte and 2-MByte or 4-MByte pages, 128 entries"),
        82u8 => Some("Instruction TLB: 4 KByte and 2-MByte or 4-MByte pages, 256 entries"),
        85u8 => Some("Instruction TLB: 2-MByte or 4-MByte pages, fully associative, 7 entries"),
        86u8 => Some("Data TLB0: 4 MByte pages, 4-way set associative, 16 entries"),
        87u8 => Some("Data TLB0: 4 KByte pages, 4-way associative, 16 entries"),
        89u8 => Some("Data TLB0: 4 KByte pages, fully associative, 16 entries"),
        90u8 => Some("Data TLB0: 2 MByte or 4 MByte pages, 4-way set associative, 32 entries"),
        91u8 => Some("Data TLB: 4 KByte and 4 MByte pages, 64 entries"),
        92u8 => Some("Data TLB: 4 KByte and 4 MByte pages, 128 entries"),
        93u8 => Some("Data TLB: 4 KByte and 4 MByte pages, 256 entries"),
        96u8 => Some("1st-level data cache: 16 KByte, 8-way set associative, 64 byte line size"),
        97u8 => Some("Instruction TLB: 4 KByte pages, fully associative, 48 entries"),
        99u8 => Some("Data TLB: 2 MByte or 4 MByte pages, 4-way set associative, 32 entries and a separate array with 1 GByte pages, 4-way set associative, 4 entries"),
        100u8 => Some("Data TLB: 4 KByte pages, 4-way set associative, 512 entries"),
        102u8 => Some("1st-level data cache: 8 KByte, 4-way set associative, 64 byte line size"),
        103u8 => Some("1st-level data cache: 16 KByte, 4-way set associative, 64 byte line size"),
        104u8 => Some("1st-level data cache: 32 KByte, 4-way set associative, 64 byte line size"),
        106u8 => Some("uTLB: 4 KByte pages, 8-way set associative, 64 entries"),
        107u8 => Some("DTLB: 4 KByte pages, 8-way set associative, 256 entries"),
        108u8 => Some("DTLB: 2M/4M pages, 8-way set associative, 128 entries"),
        109u8 => Some("DTLB: 1 GByte pages, fully associative, 16 entries"),
        112u8 => Some("Trace cache: 12 K-μop, 8-way set associative"),
        113u8 => Some("Trace cache: 16 K-μop, 8-way set associative"),
        114u8 => Some("Trace cache: 32 K-μop, 8-way set associative"),
        118u8 => Some("Instruction TLB: 2M/4M pages, fully associative, 8 entries"),
        120u8 => Some("2nd-level cache: 1 MByte, 4-way set associative, 64byte line size"),
        121u8 => Some("2nd-level cache: 128 KByte, 8-way set associative, 64 byte line size, 2 lines per sector"),
        122u8 => Some("2nd-level cache: 256 KByte, 8-way set associative, 64 byte line size, 2 lines per sector"),
        123u8 => Some("2nd-level cache: 512 KByte, 8-way set associative, 64 byte line size, 2 lines per sector"),
        124u8 => Some("2nd-level cache: 1 MByte, 8-way set associative, 64 byte line size, 2 lines per sector"),
        125u8 => Some("2nd-level cache: 2 MByte, 8-way set associative, 64byte line size"),
        127u8 => Some("2nd-level cache: 512 KByte, 2-way set associative, 64-byte line size"),
        128u8 => Some("2nd-level cache: 512 KByte, 8-way set associative, 64-byte line size"),
        130u8 => Some("2nd-level cache: 256 KByte, 8-way set associative, 32 byte line size"),
        131u8 => Some("2nd-level cache: 512 KByte, 8-way set associative, 32 byte line size"),
        132u8 => Some("2nd-level cache: 1 MByte, 8-way set associative, 32 byte line size"),
        133u8 => Some("2nd-level cache: 2 MByte, 8-way set associative, 32 byte line size"),
        134u8 => Some("2nd-level cache: 512 KByte, 4-way set associative, 64 byte line size"),
        135u8 => Some("2nd-level cache: 1 MByte, 8-way set associative, 64 byte line size"),
        160u8 => Some("DTLB: 4k pages, fully associative, 32 entries"),
        176u8 => Some("Instruction TLB: 4 KByte pages, 4-way set associative, 128 entries"),
        177u8 => Some("Instruction TLB: 2M pages, 4-way, 8 entries or 4M pages, 4-way, 4 entries"),
        178u8 => Some("Instruction TLB: 4KByte pages, 4-way set associative, 64 entries"),
        179u8 => Some("Data TLB: 4 KByte pages, 4-way set associative, 128 entries"),
        180u8 => Some("Data TLB1: 4 KByte pages, 4-way associative, 256 entries"),
        181u8 => Some("Instruction TLB: 4KByte pages, 8-way set associative, 64 entries"),
        182u8 => Some("Instruction TLB: 4KByte pages, 8-way set associative, 128 entries"),
        186u8 => Some("Data TLB1: 4 KByte pages, 4-way associative, 64 entries"),
        192u8 => Some("Data TLB: 4 KByte and 4 MByte pages, 4-way associative, 8 entries"),
        193u8 => Some("Shared 2nd-Level TLB: 4 KByte / 2 MByte pages, 8-way associative, 1024 entries"),
        194u8 => Some("DTLB: 4 KByte/2 MByte pages, 4-way associative, 16 entries"),
        195u8 => Some("Shared 2nd-Level TLB: 4 KByte / 2 MByte pages, 6-way associative, 1536 entries. Also 1GBbyte pages, 4-way, 16 entries."),
        196u8 => Some("DTLB: 2M/4M Byte pages, 4-way associative, 32 entries"),
        202u8 => Some("Shared 2nd-Level TLB: 4 KByte pages, 4-way associative, 512 entries"),
        208u8 => Some("3rd-level cache: 512 KByte, 4-way set associative, 64 byte line size"),
        209u8 => Some("3rd-level cache: 1 MByte, 4-way set associative, 64 byte line size"),
        210u8 => Some("3rd-level cache: 2 MByte, 4-way set associative, 64 byte line size"),
        214u8 => Some("3rd-level cache: 1 MByte, 8-way set associative, 64 byte line size"),
        215u8 => Some("3rd-level cache: 2 MByte, 8-way set associative, 64 byte line size"),
        216u8 => Some("3rd-level cache: 4 MByte, 8-way set associative, 64 byte line size"),
        220u8 => Some("3rd-level cache: 1.5 MByte, 12-way set associative, 64 byte line size"),
        221u8 => Some("3rd-level cache: 3 MByte, 12-way set associative, 64 byte line size"),
        222u8 => Some("3rd-level cache: 6 MByte, 12-way set associative, 64 byte line size"),
        226u8 => Some("3rd-level cache: 2 MByte, 16-way set associative, 64 byte line size"),
        227u8 => Some("3rd-level cache: 4 MByte, 16-way set associative, 64 byte line size"),
        228u8 => Some("3rd-level cache: 8 MByte, 16-way set associative, 64 byte line size"),
        234u8 => Some("3rd-level cache: 12MByte, 24-way set associative, 64 byte line size"),
        235u8 => Some("3rd-level cache: 18MByte, 24-way set associative, 64 byte line size"),
        236u8 => Some("3rd-level cache: 24MByte, 24-way set associative, 64 byte line size"),
        240u8 => Some("64-Byte prefetching"),
        241u8 => Some("128-Byte prefetching"),
        254u8 => Some("CPUID leaf 2 does not report TLB descriptor information; use CPUID leaf 18H to query TLB and other address translation parameters."),
        255u8 => Some("CPUID leaf 2 does not report cache descriptor information, use CPUID leaf 4 to query cache parameters"),
        _ => None,
    }
}

/// The meaning of a cache and TLB descriptor byte of leaf 0x2, if it has one.
pub fn lookup_keyword(b: u8) -> (r: Option<&'static str>)
    ensures
        r == keyword(b),
{
    match b {
        0u8 => Some("Null descriptor, this byte contains no information"),
        1u8 => Some("Instruction TLB: 4 KByte pages, 4-way set associative, 32 entries"),
        2u8 => Some("Instruction TLB: 4 MByte pages, fully associative, 2 entries"),
        3u8 => Some("Data TLB: 4 KByte pages, 4-way set associative, 64 entries"),
        4u8 => Some("Data TLB: 4 MByte pages, 4-way set associative, 8 entries"),
        5u8 => Some("Data TLB1: 4 MByte pages, 4-way set associative, 32 entries"),
        6u8 => Some("1st-level instruction cache: 8 KBytes, 4-way set associative, 32 byte line size"),
        8u8 => Some("1st-level instruction cache: 16 KBytes, 4-way set associative, 32 byte line size"),
        9u8 => Some("1st-level instruction cache: 32KBytes, 4-way set associative, 64 byte line size"),
        10u8 => Some("1st-level data cache: 8 KBytes, 2-way set associative, 32 byte line size"),
        11u8 => Some("Instruction TLB: 4 MByte pages, 4-way set associative, 4 entries"),
        12u8 => Some("1st-level data cache: 16 KBytes, 4-way set associative, 32 byte line size"),
        13u8 => Some("1st-level data cache: 16 KBytes, 4-way set associative, 64 byte line size"),
        14u8 => Some("1st-level data cache: 24 KBytes, 6-way set associative, 64 byte line size"),
        29u8 => Some("2nd-level cache: 128 KBytes, 2-way set associative, 64 byte line size"),
        33u8 => Some("2nd-level cache: 256 KBytes, 8-way set associative, 64 byte line size"),
        34u8 => Some("3rd-level cache: 512 KBytes, 4-way set associative, 64 byte line size, 2 lines per sector"),
        35u8 => Some("3rd-level cache: 1 MBytes, 8-way set associative, 64 byte line size, 2 lines per sector"),
        36u8 => Some("2nd-level cache: 1 MBytes, 16-way set associative, 64 byte line size"),
        37u8 => Some("3rd-level cache: 2 MBytes, 8-way set associative, 64 byte line size, 2 lines per sector"),
        41u8 => Some("3rd-level cache: 4 MBytes, 8-way set associative, 64 byte line size, 2 lines per sector"),
        44u8 => Some("1st-level data cache: 32 KBytes, 8-way set associative, 64 byte line size"),
        48u8 => Some("1st-level instruction cache: 32 KBytes, 8-way set associative, 64 byte line size"),
        64u8 => Some("No 2nd-level cache or, if processor contains a valid 2nd-level cache, no 3rd-level cache"),
        65u8 => Some("2nd-level cache: 128 KBytes, 4-way set associative, 32 byte line size"),
        66u8 => Some("2nd-level cache: 256 KBytes, 4-way set associative, 32 byte line size"),
        67u8 => Some("2nd-level cache: 512 KBytes, 4-way set associative, 32 byte line size"),
        68u8 => Some("2nd-level cache: 1 MByte, 4-way set associative, 32 byte line size"),
        69u8 => Some("2nd-level cache: 2 MByte, 4-way set associative, 32 byte line size"),
        70u8 => Some("3rd-level cache: 4 MByte, 4-way set associative, 64 byte line size"),
        71u8 => Some("3rd-level cache: 8 MByte, 8-way set associative, 64 byte line size"),
        72u8 => Some("2nd-level cache: 3MByte, 12-way set associative, 64 byte line size"),
        73u8 => Some("3rd-level cache: 4MB, 16-way set associative, 64-byte line size (Intel Xeon processor MP, Family 0FH, Model 06H);\n2nd-level cache: 4 MByte, 16-way set associative, 64 byte line size"),
        74u8 => Some("3rd-level cache: 6MByte, 12-way set associative, 64 byte line size"),
        75u8 => Some("3rd-level cache: 8MByte, 16-way set associative, 64 byte line size"),
        76u8 => Some("3rd-level cache: 12MByte, 12-way set associative, 64 byte line size"),
        77u8 => Some("3rd-level cache: 16MByte, 16-way set associative, 64 byte line size"),
        78u8 => Some("2nd-level cache: 6MByte, 24-way set associative, 64 byte line size"),
        79u8 => Some("Instruction TLB: 4 KByte pages, 32 entries"),
        80u8 => Some("Instruction TLB: 4 KByte and 2-MByte or 4-MByte pages, 64 entries"),
        81u8 => Some("Instruction TLB: 4 KByte and 2-MByte or 4-MByte pages, 128 entries"),
        82u8 => Some("Instruction TLB: 4 KByte and 2-MByte or 4-MByte pages, 256 entries"),
        85u8 => Some("Instruction TLB: 2-MByte or 4-MByte pages, fully associative, 7 entries"),
        86u8 => Some("Data TLB0: 4 MByte pages, 4-way set associative, 16 entries"),
        87u8 => Some("Data TLB0: 4 KByte pages, 4-way associative, 16 entries"),
        89u8 => Some("Data TLB0: 4 KByte pages, fully associative, 16 entries"),
        90u8 => Some("Data TLB0: 2 MByte or 4 MByte pages, 4-way set associative, 32 entries"),
        91u8 => Some("Data TLB: 4 KByte and 4 MByte pages, 64 entries"),
        92u8 => Some("Data TLB: 4 KByte and 4 MByte pages, 128 entries"),
        93u8 => Some("Data TLB: 4 KByte and 4 MByte pages, 256 entries"),
        96u8 => Some("1st-level data cache: 16 KByte, 8-way set associative, 64 byte line size"),
        97u8 => Some("Instruction TLB: 4 KByte pages, fully associative, 48 entries"),
        99u8 => Some("Data TLB: 2 MByte or 4 MByte pages, 4-way set associative, 32 entries and a separate array with 1 GByte pages, 4-way set associative, 4 entries"),
        100u8 => Some("Data TLB: 4 KByte pages, 4-way set associative, 512 entries"),
        102u8 => Some("1st-level data cache: 8 KByte, 4-way set associative, 64 byte line size"),
        103u8 => Some("1st-level data cache: 16 KByte, 4-way set associative, 64 byte line size"),
        104u8 => Some("1st-level data cache: 32 KByte, 4-way set associative, 64 byte line size"),
        106u8 => Some("uTLB: 4 KByte pages, 8-way set associative, 64 entries"),
        107u8 => Some("DTLB: 4 KByte pages, 8-way set associative, 256 entries"),
        108u8 => Some("DTLB: 2M/4M pages, 8-way set associative, 128 entries"),
        109u8 => Some("DTLB: 1 GByte pages, fully associative, 16 entries"),
        112u8 => Some("Trace cache: 12 K-μop, 8-way set associative"),
        113u8 => Some("Trace cache: 16 K-μop, 8-way set associative"),
        114u8 => Some("Trace cache: 32 K-μop, 8-way set associative"),
        118u8 => Some("Instruction TLB: 2M/4M pages, fully associative, 8 entries"),
        120u8 => Some("2nd-level cache: 1 MByte, 4-way set associative, 64byte line size"),
        121u8 => Some("2nd-level cache: 128 KByte, 8-way set associative, 64 byte line size, 2 lines per sector"),
        122u8 => Some("2nd-level cache: 256 KByte, 8-way set associative, 64 byte line size, 2 lines per sector"),
        123u8 => Some("2nd-level cache: 512 KByte, 8-way set associative, 64 byte line size, 2 lines per sector"),
        124u8 => Some("2nd-level cache: 1 MByte, 8-way set associative, 64 byte line size, 2 lines per sector"),
        125u8 => Some("2nd-level cache: 2 MByte, 8-way set associative, 64byte line size"),
        127u8 => Some("2nd-level cache: 512 KByte, 2-way set associative, 64-byte line size"),
        128u8 => Some("2nd-level cache: 512 KByte, 8-way set associative, 64-byte line size"),
        130u8 => Some("2nd-level cache: 256 KByte, 8-way set associative, 32 byte line size"),
        131u8 => Some("2nd-level cache: 512 KByte, 8-way set associative, 32 byte line size"),
        132u8 => Some("2nd-level cache: 1 MByte, 8-way set associative, 32 byte line size"),
        133u8 => Some("2nd-level cache: 2 MByte, 8-way set associative, 32 byte line size"),
        134u8 => Some("2nd-level cache: 512 KByte, 4-way set associative, 64 byte line size"),
        135u8 => Some("2nd-level cache: 1 MByte, 8-way set associative, 64 byte line size"),
        160u8 => Some("DTLB: 4k pages, fully associative, 32 entries"),
        176u8 => Some("Instruction TLB: 4 KByte pages, 4-way set associative, 128 entries"),
        177u8 => Some("Instruction TLB: 2M pages, 4-way, 8 entries or 4M pages, 4-way, 4 entries"),
        178u8 => Some("Instruction TLB: 4KByte pages, 4-way set associative, 64 entries"),
        179u8 => Some("Data TLB: 4 KByte pages, 4-way set associative, 128 entries"),
        180u8 => Some("Data TLB1: 4 KByte pages, 4-way associative, 256 entries"),
        181u8 => Some("Instruction TLB: 4KByte pages, 8-way set associative, 64 entries"),
        182u8 => Some("Instruction TLB: 4KByte pages, 8-way set associative, 128 entries"),
        186u8 => Some("Data TLB1: 4 KByte pages, 4-way associative, 64 entries"),
        192u8 => Some("Data TLB: 4 KByte and 4 MByte pages, 4-way associative, 8 entries"),
        193u8 => Some("Shared 2nd-Level TLB: 4 KByte / 2 MByte pages, 8-way associative, 1024 entries"),
        194u8 => Some("DTLB: 4 KByte/2 MByte pages, 4-way associative, 16 entries"),
        195u8 => Some("Shared 2nd-Level TLB: 4 KByte / 2 MByte pages, 6-way associative, 1536 entries. Also 1GBbyte pages, 4-way, 16 entries."),
        196u8 => Some("DTLB: 2M/4M Byte pages, 4-way associative, 32 entries"),
        202u8 => Some("Shared 2nd-Level TLB: 4 KByte pages, 4-way associative, 512 entries"),
        208u8 => Some("3rd-level cache: 512 KByte, 4-way set associative, 64 byte line size"),
        209u8 => Some("3rd-level cache: 1 MByte, 4-way set associative, 64 byte line size"),
        210u8 => Some("3rd-level cache: 2 MByte, 4-way set associative, 64 byte line size"),
        214u8 => Some("3rd-level cache: 1 MByte, 8-way set associative, 64 byte line size"),
        215u8 => Some("3rd-level cache: 2 MByte, 8-way set associative, 64 byte line size"),
        216u8 => Some("3rd-level cache: 4 MByte, 8-way set associative, 64 byte line size"),
        220u8 => Some("3rd-level cache: 1.5 MByte, 12-way set associative, 64 byte line size"),
        221u8 => Some("3rd-level cache: 3 MByte, 12-way set associative, 64 byte line size"),
        222u8 => Some("3rd-level cache: 6 MByte, 12-way set associative, 64 byte line size"),
        226u8 => Some("3rd-level cache: 2 MByte, 16-way set associative, 64 byte line size"),
        227u8 => Some("3rd-level cache: 4 MByte, 16-way set associative, 64 byte line size"),
        228u8 => Some("3rd-level cache: 8 MByte, 16-way set associative, 64 byte line size"),
        234u8 => Some("3rd-level cache: 12MByte, 24-way set associative, 64 byte line size"),
        235u8 => Some("3rd-level cache: 18MByte, 24-way set associative, 64 byte line size"),
        236u8 => Some("3rd-level cache: 24MByte, 24-way set associative, 64 byte line size"),
        240u8 => Some("64-Byte prefetching"),
        241u8 => Some("128-Byte prefetching"),
        254u8 => Some("CPUID leaf 2 does not report TLB descriptor information; use CPUID leaf 18H to query TLB and other address translation parameters."),
        255u8 => Some("CPUID leaf 2 does not report cache descriptor information, use CPUID leaf 4 to query cache parameters"),
        _ => None,
    }
}

/// The meanings of descriptor bytes, in order; the first byte without a meaning makes it
/// an error.
pub open spec fn decode_bytes(bs: Seq<u8>) -> Result<Seq<&'static str>, UnknownKeyword>
    decreases bs.len(),
{
    if bs.len() == 0 {
        Ok(Seq::empty())
    } else {
        match keyword(bs[0]) {
            None => Err(UnknownKeyword(bs[0])),
            Some(k) => match decode_bytes(bs.drop_first()) {
                Ok(rest) => Ok(seq![k] + rest),
                Err(e) => Err(e),
            },
        }
    }
}

/// The meanings of the descriptors of a register: none when its most significant bit is
/// set (it holds no one-byte descriptors), else those of its bytes from `first` on.
pub open spec fn register_keywords(reg: Seq<u8>, first: int) -> Result<Seq<&'static str>, UnknownKeyword> {
    if reg[3] & 0x80 != 0 {
        Ok(Seq::empty())
    } else {
        decode_bytes(reg.subrange(first, 4))
    }
}

/// The meanings of all descriptors of leaf 0x2, register after register; the least
/// significant byte of EAX (always 01h) is not a descriptor.
pub open spec fn leaf2_keywords(l: Leaf2) -> Result<Seq<&'static str>, UnknownKeyword> {
    match register_keywords(l.eax@, 1) {
        Err(e) => Err(e),
        Ok(a) => match register_keywords(l.ebx@, 0) {
            Err(e) => Err(e),
            Ok(b) => match register_keywords(l.ecx@, 0) {
                Err(e) => Err(e),
                Ok(c) => match register_keywords(l.edx@, 0) {
                    Err(e) => Err(e),
                    Ok(d) => Ok(a + b + c + d),
                },
            },
        },
    }
}

proof fn lemma_decode_push(bs: Seq<u8>, n: int)
    requires
        0 <= n < bs.len(),
        decode_bytes(bs.subrange(0, n)) is Ok,
    ensures
        decode_bytes(bs.subrange(0, n + 1)) == match keyword(bs[n]) {
            None => Err(UnknownKeyword(bs[n])),
            Some(k) => Ok(decode_bytes(bs.subrange(0, n))->Ok_0.push(k)),
        },
    decreases n,
{
    let p = bs.subrange(0, n);
    let q = bs.subrange(0, n + 1);
    assert(q[0] == bs[0]);
    if n == 0 {
        assert(p =~= Seq::<u8>::empty());
        assert(q.drop_first() =~= Seq::<u8>::empty());
        assert(decode_bytes(Seq::<u8>::empty()) == Ok::<Seq<&'static str>, UnknownKeyword>(Seq::empty()));
        if let Some(k) = keyword(bs[0]) {
            assert(seq![k] + Seq::<&'static str>::empty() =~= Seq::<&'static str>::empty().push(k));
        }
    } else {
        let t = bs.drop_first();
        assert(p[0] == bs[0]);
        assert(p.drop_first() =~= t.subrange(0, n - 1));
        assert(q.drop_first() =~= t.subrange(0, n));
        let k0 = keyword(bs[0])->Some_0;
        assert(keyword(bs[0]) is Some);
        assert(decode_bytes(t.subrange(0, n - 1)) is Ok);
        lemma_decode_push(t, n - 1);
        assert(t[n - 1] == bs[n]);
        let x = decode_bytes(t.subrange(0, n - 1))->Ok_0;
        assert(decode_bytes(p) == Ok::<Seq<&'static str>, UnknownKeyword>(seq![k0] + x));
        match keyword(bs[n]) {
            Some(k) => {
                assert(decode_bytes(t.subrange(0, n)) == Ok::<Seq<&'static str>, UnknownKeyword>(x.push(k)));
                assert(seq![k0] + x.push(k) =~= (seq![k0] + x).push(k));
            },
            None => {},
        }
    }
}

/// Decodes the descriptor bytes of a register from position `first` on.
fn decode_register(reg: &[u8; 4], first: usize) -> (r: Result<Vec<&'static str>, UnknownKeyword>)
    requires
        first <= 1,
    ensures
        match register_keywords(reg@, first as int) {
            Ok(ks) => r matches Ok(v) && v@ == ks,
            Err(e) => r == Err::<Vec<&'static str>, UnknownKeyword>(e),
        },
{
    let mut v: Vec<&'static str> = Vec::new();
    if reg[3] & 0x80 != 0 {
        return Ok(v);
    }
    let ghost bs = reg@.subrange(first as int, 4);
    let mut i: usize = first;
    while i < 4
        invariant
            first <= i <= 4,
            first <= 1,
            reg@[3] & 0x80 == 0,
            bs == reg@.subrange(first as int, 4),
            decode_bytes(bs.subrange(0, i - first)) == Ok::<Seq<&'static str>, UnknownKeyword>(v@),
        decreases 4 - i,
    {
        proof {
            lemma_decode_push(bs, i - first);
            assert(bs[i - first] == reg@[i as int]);
        }
        match lookup_keyword(reg[i]) {
            Some(k) => v.push(k),
            None => {
                proof {
                    lemma_decode_prefix_err(bs, i - first + 1);
                }
                return Err(UnknownKeyword(reg[i]));
            },
        }
        i = i + 1;
    }
    assert(bs.subrange(0, 4 - first) =~= bs);
    Ok(v)
}

/// An error among the first bytes is the error of all of them.
proof fn lemma_decode_prefix_err(bs: Seq<u8>, n: int)
    requires
        0 <= n <= bs.len(),
        decode_bytes(bs.subrange(0, n)) is Err,
    ensures
        decode_bytes(bs) == decode_bytes(bs.subrange(0, n)),
    decreases n,
{
    if n > 0 {
        let t = bs.drop_first();
        assert(bs.subrange(0, n).drop_first() =~= t.subrange(0, n - 1));
        assert(bs.subrange(0, n)[0] == bs[0]);
        if keyword(bs[0]) is Some {
            lemma_decode_prefix_err(t, n - 1);
        }
    }
}

fn append(v: &mut Vec<&'static str>, w: Vec<&'static str>)
    ensures
        final(v)@ == old(v)@ + w@,
{
    let mut i: usize = 0;
    while i < w.len()
        invariant
            0 <= i <= w.len(),
            v@ == old(v)@ + w@.subrange(0, i as int),
        decreases w.len() - i,
    {
        v.push(w[i]);
        i = i + 1;
        assert(v@ =~= old(v)@ + w@.subrange(0, i as int));
    }
    assert(w@.subrange(0, w@.len() as int) =~= w@);
}

/// Decodes the cache and TLB descriptors of leaf 0x2 into their meanings.
pub fn leaf2_descriptors(leaf: &Leaf2) -> (r: Result<Vec<&'static str>, UnknownKeyword>)
    ensures
        match leaf2_keywords(*leaf) {
            Ok(ks) => r matches Ok(v) && v@ == ks,
            Err(e) => r == Err::<Vec<&'static str>, UnknownKeyword>(e),
        },
{
    let mut v = match decode_register(&leaf.eax, 1) {
        Ok(a) => a,
        Err(e) => return Err(e),
    };
    match decode_register(&leaf.ebx, 0) {
        Ok(b) => append(&mut v, b),
        Err(e) => return Err(e),
    }
    match decode_register(&leaf.ecx, 0) {
        Ok(c) => append(&mut v, c),
        Err(e) => return Err(e),
    }
    match decode_register(&leaf.edx, 0) {
        Ok(d) => append(&mut v, d),
        Err(e) => return Err(e),
    }
    Ok(v)
}

/// The meanings of the descriptors of a register: `None` when its most significant bit is
/// set (it holds no one-byte descriptors), else those of its bytes from `first` on.
pub open spec fn register_descriptors(reg: Seq<u8>, first: int) -> Result<Option<Seq<&'static str>>, UnknownKeyword> {
    if reg[3] & 0x80 != 0 {
        Ok(None)
    } else {
        match decode_bytes(reg.subrange(first, 4)) {
            Ok(ks) => Ok(Some(ks)),
            Err(e) => Err(e),
        }
    }
}

/// The meanings of the descriptors of leaf 0x2, register by register (see
/// [`register_descriptors`]); the first unknown descriptor, in register order, is the error.
pub open spec fn leaf2_register_descriptors(l: Leaf2) -> Result<
    (
        Option<Seq<&'static str>>,
        Option<Seq<&'static str>>,
        Option<Seq<&'static str>>,
        Option<Seq<&'static str>>,
    ),
    UnknownKeyword,
> {
    match register_descriptors(l.eax@, 1) {
        Err(e) => Err(e),
        Ok(a) => match register_descriptors(l.ebx@, 0) {
            Err(e) => Err(e),
            Ok(b) => match register_descriptors(l.ecx@, 0) {
                Err(e) => Err(e),
                Ok(c) => match register_descriptors(l.edx@, 0) {
                    Err(e) => Err(e),
                    Ok(d) => Ok((a, b, c, d)),
                },
            },
        },
    }
}

/// The meanings of a register, none where it holds no one-byte descriptors.
pub open spec fn flat(o: Option<Seq<&'static str>>) -> Seq<&'static str> {
    match o {
        Some(ks) => ks,
        None => Seq::empty(),
    }
}

/// The descriptors of leaf 0x2 in one list are those register by register, one register
/// after the other, and the same unknown descriptor fails both.
pub proof fn lemma_descriptors_flattened(l: Leaf2)
    ensures
        leaf2_keywords(l) == match leaf2_register_descriptors(l) {
            Ok((a, b, c, d)) => Ok::<Seq<&'static str>, UnknownKeyword>(
                flat(a) + flat(b) + flat(c) + flat(d),
            ),
            Err(e) => Err(e),
        },
{
    if let Ok((a, b, c, d)) = leaf2_register_descriptors(l) {
        assert(register_keywords(l.eax@, 1) == Ok::<Seq<&'static str>, UnknownKeyword>(flat(a)));
        assert(register_keywords(l.ebx@, 0) == Ok::<Seq<&'static str>, UnknownKeyword>(flat(b)));
        assert(register_keywords(l.ecx@, 0) == Ok::<Seq<&'static str>, UnknownKeyword>(flat(c)));
        assert(register_keywords(l.edx@, 0) == Ok::<Seq<&'static str>, UnknownKeyword>(flat(d)));
    }
}

/// A successful decoding gives one meaning per byte.
proof fn lemma_decode_len(bs: Seq<u8>)
    ensures
        decode_bytes(bs) matches Ok(ks) ==> ks.len() == bs.len(),
    decreases bs.len(),
{
    if bs.len() > 0 {
        lemma_decode_len(bs.drop_first());
    }
}

/// The meanings of an optional array, as a sequence.
pub open spec fn opt_seq<const N: usize>(a: Option<[&'static str; N]>) -> Option<Seq<&'static str>> {
    match a {
        Some(x) => Some(x@),
        None => None,
    }
}

/// Decodes the three descriptors of EAX (its least significant byte is not one).
fn eax_descriptors(reg: &[u8; 4]) -> (r: Result<Option<[&'static str; 3]>, UnknownKeyword>)
    ensures
        match register_descriptors(reg@, 1) {
            Ok(o) => r matches Ok(x) && opt_seq(x) == o,
            Err(e) => r == Err::<Option<[&'static str; 3]>, UnknownKeyword>(e),
        },
{
    if reg[3] & 0x80 != 0 {
        return Ok(None);
    }
    let v = match decode_register(reg, 1) {
        Ok(v) => v,
        Err(e) => return Err(e),
    };
    proof {
        lemma_decode_len(reg@.subrange(1, 4));
    }
    let a = [v[0], v[1], v[2]];
    assert(a@ =~= v@);
    Ok(Some(a))
}

/// Decodes the four descriptors of EBX, ECX or EDX.
fn full_descriptors(reg: &[u8; 4]) -> (r: Result<Option<[&'static str; 4]>, UnknownKeyword>)
    ensures
        match register_descriptors(reg@, 0) {
            Ok(o) => r matches Ok(x) && opt_seq(x) == o,
            Err(e) => r == Err::<Option<[&'static str; 4]>, UnknownKeyword>(e),
        },
{
    if reg[3] & 0x80 != 0 {
        return Ok(None);
    }
    let v = match decode_register(reg, 0) {
        Ok(v) => v,
        Err(e) => return Err(e),
    };
    proof {
        lemma_decode_len(reg@.subrange(0, 4));
    }
    let a = [v[0], v[1], v[2], v[3]];
    assert(a@ =~= v@);
    Ok(Some(a))
}

/// Decodes the cache and TLB descriptors of leaf 0x2 register by register: for each, `None`
/// when it holds no one-byte descriptors, else the meanings of its descriptors.
pub fn leaf2_registers(leaf: &Leaf2) -> (r: Result<
    (
        Option<[&'static str; 3]>,
        Option<[&'static str; 4]>,
        Option<[&'static str; 4]>,
        Option<[&'static str; 4]>,
    ),
    UnknownKeyword,
>)
    ensures
        match leaf2_register_descriptors(*leaf) {
            Ok((a, b, c, d)) => r matches Ok((x, y, z, w)) && opt_seq(x) == a && opt_seq(y) == b
                && opt_seq(z) == c && opt_seq(w) == d,
            Err(e) => r is Err && r->Err_0 == e,
        },
{
    let a = match eax_descriptors(&leaf.eax) {
        Ok(a) => a,
        Err(e) => return Err(e),
    };
    let b = match full_descriptors(&leaf.ebx) {
        Ok(b) => b,
        Err(e) => return Err(e),
    };
    let c = match full_descriptors(&leaf.ecx) {
        Ok(c) => c,
        Err(e) => return Err(e),
    };
    let d = match full_descriptors(&leaf.edx) {
        Ok(d) => d,
        Err(e) => return Err(e),
    };
    Ok((a, b, c, d))
}

/// The bytes of a register, least significant first.
pub open spec fn register_bytes(x: u32) -> Seq<u8> {
    super::le_bytes(x)
}

/// Leaf 0x2 of the registers of an entry.
pub fn leaf2_of(r: &CCpuidResult) -> (l: Leaf2)
    ensures
        l.eax@ == super::le_bytes(r.eax),
        l.ebx@ == super::le_bytes(r.ebx),
        l.ecx@ == super::le_bytes(r.ecx),
        l.edx@ == super::le_bytes(r.edx),
{
    Leaf {
        eax: super::register_bytes(r.eax),
        ebx: super::register_bytes(r.ebx),
        ecx: super::register_bytes(r.ecx),
        edx: super::register_bytes(r.edx),
    }
}

} // verus!
