//! Whether one Intel CPUID supports another: a process that started under the CPUID `other`
//! may go on under the CPUID `self` when every feature it could see is still offered and
//! every size or count it could rely on is at least as large.
//!
//! Feature flags are compared as sets: only the bits that the Intel Software Developer's
//! Manual (volume 2A, instruction CPUID) defines as feature flags of a register take part;
//! reserved bits and bits that hold numbers are ignored.

use super::intel::{
    IntelCpuid, IntelCpuidNotSupported, Leaf10NotSupported, Leaf10Subleaf0NotSupported,
    Leaf10Subleaf1NotSupported, Leaf10Subleaf3NotSupported, Leaf14NotSupported,
    Leaf14Subleaf0NotSupported, Leaf18NotSupported, Leaf18Subleaf0NotSupported,
    Leaf19NotSupported, Leaf1CNotSupported, Leaf20NotSupported, Leaf5NotSupported,
    Leaf6NotSupported, Leaf7NotSupported, Leaf7Subleaf0NotSupported, Leaf7Subleaf1NotSupported,
    Leaf80000000NotSupported, Leaf80000001NotSupported, Leaf80000007NotSupported,
    Leaf80000008NotSupported, LeafANotSupported, LeafFNotSupported, LeafFSubleaf0NotSupported,
    LeafFSubleaf1NotSupported,
};
use super::{
    Cpuid, CpuidNotSupported, entries_get, leaf0_supports, lookup, CCpuidResult, CpuidEntry, CpuidKey, Entries, Leaf,
    Leaf0NotSupported, Leaf1NotSupported,
};
use crate::bit_fields::{get, get_range};
use vstd::prelude::*;

verus! {

// ---------------------------------------------------------------------------------------------
// Feature flags
// ---------------------------------------------------------------------------------------------

/// Whether the feature flags of `a` that `flags` selects include those of `b`.
pub open spec fn flags_cover(a: u32, b: u32, flags: u32) -> bool {
    a & b & flags == b & flags
}

/// Checks whether the feature flags of `a` that `flags` selects include those of `b`.
fn covers(a: u32, b: u32, flags: u32) -> (r: bool)
    ensures
        r == flags_cover(a, b, flags),
{
    a & b & flags == b & flags
}

/// Leaf 0x1 ECX: bits 0-15 and 17-30 are feature flags.
pub const LEAF1_ECX_FLAGS: u32 = 0x7ffe_ffff;

/// Leaf 0x1 ECX bit 24: TSC deadline timer.
pub const LEAF1_ECX_TSC_DEADLINE: u32 = 0x0100_0000;

/// Leaf 0x1 ECX bit 27: OSXSAVE.
pub const LEAF1_ECX_OSXSAVE: u32 = 0x0800_0000;

/// Leaf 0x1 EDX: every bit but 10, 20 and 30 is a feature flag.
pub const LEAF1_EDX_FLAGS: u32 = 0xbfef_fbff;

/// Leaf 0x1 EDX bit 28: HTT.
pub const LEAF1_EDX_HTT: u32 = 0x1000_0000;

/// Leaf 0x5 ECX: bits 0 and 1 are feature flags.
pub const LEAF5_ECX_FLAGS: u32 = 0x0000_0003;

/// Leaf 0x6 EAX: bits 0-2, 4-11, 13-20, 23 and 24 are feature flags.
pub const LEAF6_EAX_FLAGS: u32 = 0x019f_eff7;

/// Leaf 0x6 ECX: bits 0 and 3 are feature flags.
pub const LEAF6_ECX_FLAGS: u32 = 0x0000_0009;

/// Leaf 0x7 subleaf 0 EBX: every bit but 22 is a feature flag.
pub const LEAF7_SUBLEAF0_EBX_FLAGS: u32 = 0xffbf_ffff;

/// Leaf 0x7 subleaf 0 ECX: every bit but 15, 17-21 (a number) and 26 is a feature flag.
pub const LEAF7_SUBLEAF0_ECX_FLAGS: u32 = 0xfbc1_7fff;

/// Leaf 0x7 subleaf 0 ECX bit 4: OSPKE.
pub const LEAF7_SUBLEAF0_ECX_OSPKE: u32 = 0x0000_0010;

/// Leaf 0x7 subleaf 0 EDX: every bit but 0, 6, 7, 12, 17 and 21 is a feature flag.
pub const LEAF7_SUBLEAF0_EDX_FLAGS: u32 = 0xffdd_ef3e;

/// Leaf 0x7 subleaf 1 EAX: bits 4, 5, 10, 11, 12, 22 and 26 are feature flags.
pub const LEAF7_SUBLEAF1_EAX_FLAGS: u32 = 0x0440_1c30;

/// Leaf 0x7 subleaf 1 EBX: bit 0 is a feature flag.
pub const LEAF7_SUBLEAF1_EBX_FLAGS: u32 = 0x0000_0001;

/// Leaf 0xA EBX: bits 0-7 are flags (of events that are not available).
pub const LEAFA_EBX_FLAGS: u32 = 0x0000_00ff;

/// Leaf 0xF subleaf 0 EDX: bit 1 is a feature flag.
pub const LEAFF_SUBLEAF0_EDX_FLAGS: u32 = 0x0000_0002;

/// Leaf 0xF subleaf 1 EDX: bits 0-2 are feature flags.
pub const LEAFF_SUBLEAF1_EDX_FLAGS: u32 = 0x0000_0007;

/// Leaf 0x10 subleaf 0 EBX: bits 1-3 are feature flags.
pub const LEAF10_SUBLEAF0_EBX_FLAGS: u32 = 0x0000_000e;

/// Leaf 0x10 subleaf 1 ECX: bit 2 is a feature flag.
pub const LEAF10_SUBLEAF1_ECX_FLAGS: u32 = 0x0000_0004;

/// Leaf 0x10 subleaf 3 ECX: bit 2 is a feature flag.
pub const LEAF10_SUBLEAF3_ECX_FLAGS: u32 = 0x0000_0004;

/// Leaf 0x14 subleaf 0 EBX: bits 0-8 are feature flags.
pub const LEAF14_SUBLEAF0_EBX_FLAGS: u32 = 0x0000_01ff;

/// Leaf 0x14 subleaf 0 ECX: bits 0-3 and 31 are feature flags.
pub const LEAF14_SUBLEAF0_ECX_FLAGS: u32 = 0x8000_000f;

/// Leaf 0x18 subleaf 0 EBX: bits 0-3 are feature flags.
pub const LEAF18_SUBLEAF0_EBX_FLAGS: u32 = 0x0000_000f;

/// Leaf 0x19 EAX: bits 0-2 are feature flags.
pub const LEAF19_EAX_FLAGS: u32 = 0x0000_0007;

/// Leaf 0x19 EBX: bits 0, 2 and 4 are feature flags.
pub const LEAF19_EBX_FLAGS: u32 = 0x0000_0015;

/// Leaf 0x19 ECX: bits 0 and 1 are feature flags.
pub const LEAF19_ECX_FLAGS: u32 = 0x0000_0003;

/// Leaf 0x1C EAX: bits 0-7, 30 and 31 are feature flags.
pub const LEAF1C_EAX_FLAGS: u32 = 0xc000_00ff;

/// Leaf 0x1C EBX: bits 0-2 are feature flags.
pub const LEAF1C_EBX_FLAGS: u32 = 0x0000_0007;

/// Leaf 0x1C ECX: bits 0-2 are feature flags.
pub const LEAF1C_ECX_FLAGS: u32 = 0x0000_0007;

/// Leaf 0x20 EBX: bit 0 is a feature flag.
pub const LEAF20_EBX_FLAGS: u32 = 0x0000_0001;

/// Leaf 0x80000001 ECX: bits 0, 5 and 8 are feature flags.
pub const LEAF80000001_ECX_FLAGS: u32 = 0x0000_0121;

/// Leaf 0x80000001 EDX: bits 11, 20, 26, 27 and 29 are feature flags.
pub const LEAF80000001_EDX_FLAGS: u32 = 0x2c10_0800;

/// Leaf 0x80000007 EDX: bit 8 is a feature flag.
pub const LEAF80000007_EDX_FLAGS: u32 = 0x0000_0100;

/// Leaf 0x80000008 EBX: bit 9 is a feature flag.
pub const LEAF80000008_EBX_FLAGS: u32 = 0x0000_0200;

// ---------------------------------------------------------------------------------------------
// Leaves 0x1, 0x5 and 0x6
// ---------------------------------------------------------------------------------------------

/// Leaf 0x1 of `a` supports that of `b`: the CLFLUSH line size (EBX bits 8-15) and the
/// number of addressable logical processor IDs (EBX bits 16-23) are at least `b`'s, and the
/// ECX and EDX feature flags include `b`'s, TSC deadline, OSXSAVE and HTT aside.
pub open spec fn leaf1_verdict(a: CCpuidResult, b: CCpuidResult) -> Result<(), Leaf1NotSupported> {
    let ecx_mask = !(LEAF1_ECX_TSC_DEADLINE | LEAF1_ECX_OSXSAVE);
    let edx_mask = !LEAF1_EDX_HTT;
    if get_range(a.ebx, 8, 8) < get_range(b.ebx, 8, 8) {
        Err(Leaf1NotSupported::CLFlush)
    } else if get_range(a.ebx, 16, 8) < get_range(b.ebx, 16, 8) {
        Err(Leaf1NotSupported::MaxAddressableLogicalProcessorIds)
    } else if !flags_cover(a.ecx & ecx_mask, b.ecx & ecx_mask, LEAF1_ECX_FLAGS) {
        Err(Leaf1NotSupported::Ecx)
    } else if !flags_cover(a.edx & edx_mask, b.edx & edx_mask, LEAF1_EDX_FLAGS) {
        Err(Leaf1NotSupported::Edx)
    } else {
        Ok(())
    }
}

/// Checks whether leaf 0x1 `a` supports leaf 0x1 `b`.
pub fn leaf1_supports(a: &CCpuidResult, b: &CCpuidResult) -> (r: Result<(), Leaf1NotSupported>)
    ensures
        r == leaf1_verdict(*a, *b),
{
    if get(a.ebx, 8, 8) < get(b.ebx, 8, 8) {
        return Err(Leaf1NotSupported::CLFlush);
    }
    if get(a.ebx, 16, 8) < get(b.ebx, 16, 8) {
        return Err(Leaf1NotSupported::MaxAddressableLogicalProcessorIds);
    }
    let ecx_mask = !(LEAF1_ECX_TSC_DEADLINE | LEAF1_ECX_OSXSAVE);
    if !covers(a.ecx & ecx_mask, b.ecx & ecx_mask, LEAF1_ECX_FLAGS) {
        return Err(Leaf1NotSupported::Ecx);
    }
    let edx_mask = !LEAF1_EDX_HTT;
    if !covers(a.edx & edx_mask, b.edx & edx_mask, LEAF1_EDX_FLAGS) {
        return Err(Leaf1NotSupported::Edx);
    }
    Ok(())
}

/// Leaf 0x5 of `a` supports that of `b`: the smallest monitor line size (EAX bits 0-15) is
/// at most `b`'s, the largest (EBX bits 0-15) at least `b`'s, and the ECX flags include
/// `b`'s.
pub open spec fn leaf5_verdict(a: CCpuidResult, b: CCpuidResult) -> Result<(), Leaf5NotSupported> {
    if get_range(a.eax, 0, 16) > get_range(b.eax, 0, 16) {
        Err(Leaf5NotSupported::SmallestMonitorLineSize)
    } else if get_range(a.ebx, 0, 16) < get_range(b.ebx, 0, 16) {
        Err(Leaf5NotSupported::LargestMonitorLineSize)
    } else if !flags_cover(a.ecx, b.ecx, LEAF5_ECX_FLAGS) {
        Err(Leaf5NotSupported::Ecx)
    } else {
        Ok(())
    }
}

/// Checks whether leaf 0x5 `a` supports leaf 0x5 `b`.
pub fn leaf5_supports(a: &CCpuidResult, b: &CCpuidResult) -> (r: Result<(), Leaf5NotSupported>)
    ensures
        r == leaf5_verdict(*a, *b),
{
    if get(a.eax, 0, 16) > get(b.eax, 0, 16) {
        return Err(Leaf5NotSupported::SmallestMonitorLineSize);
    }
    if get(a.ebx, 0, 16) < get(b.ebx, 0, 16) {
        return Err(Leaf5NotSupported::LargestMonitorLineSize);
    }
    if !covers(a.ecx, b.ecx, LEAF5_ECX_FLAGS) {
        return Err(Leaf5NotSupported::Ecx);
    }
    Ok(())
}

/// Leaf 0x6 of `a` supports that of `b`: the EAX flags include `b`'s, the number of interrupt
/// thresholds (EBX bits 0-3) and of thread director classes (ECX bits 8-15) are at least
/// `b`'s, and the ECX flags include `b`'s.
pub open spec fn leaf6_verdict(a: CCpuidResult, b: CCpuidResult) -> Result<(), Leaf6NotSupported> {
    if !flags_cover(a.eax, b.eax, LEAF6_EAX_FLAGS) {
        Err(Leaf6NotSupported::Eax)
    } else if get_range(a.ebx, 0, 4) < get_range(b.ebx, 0, 4) {
        Err(Leaf6NotSupported::NumberOfInterruptThresholdsInDigitalThermalSensor)
    } else if get_range(a.ecx, 8, 8) < get_range(b.ecx, 8, 8) {
        Err(Leaf6NotSupported::IntelThreadDirectorClasses)
    } else if !flags_cover(a.ecx, b.ecx, LEAF6_ECX_FLAGS) {
        Err(Leaf6NotSupported::Ecx)
    } else {
        Ok(())
    }
}

/// Checks whether leaf 0x6 `a` supports leaf 0x6 `b`.
pub fn leaf6_supports(a: &CCpuidResult, b: &CCpuidResult) -> (r: Result<(), Leaf6NotSupported>)
    ensures
        r == leaf6_verdict(*a, *b),
{
    if !covers(a.eax, b.eax, LEAF6_EAX_FLAGS) {
        return Err(Leaf6NotSupported::Eax);
    }
    if get(a.ebx, 0, 4) < get(b.ebx, 0, 4) {
        return Err(Leaf6NotSupported::NumberOfInterruptThresholdsInDigitalThermalSensor);
    }
    if get(a.ecx, 8, 8) < get(b.ecx, 8, 8) {
        return Err(Leaf6NotSupported::IntelThreadDirectorClasses);
    }
    if !covers(a.ecx, b.ecx, LEAF6_ECX_FLAGS) {
        return Err(Leaf6NotSupported::Ecx);
    }
    Ok(())
}

// ---------------------------------------------------------------------------------------------
// Leaf 0x7
// ---------------------------------------------------------------------------------------------

/// Subleaf 0 of leaf 0x7 of `a` supports that of `b`: the largest subleaf (EAX) is at least
/// `b`'s and the EBX, ECX (OSPKE aside) and EDX feature flags include `b`'s. Each error
/// carries the two register values compared.
pub open spec fn leaf7_subleaf0_verdict(a: CCpuidResult, b: CCpuidResult) -> Result<
    (),
    Leaf7Subleaf0NotSupported,
> {
    let ecx_mask = !LEAF7_SUBLEAF0_ECX_OSPKE;
    if a.eax < b.eax {
        Err(Leaf7Subleaf0NotSupported::MaxInputValueSubleaf(a.eax, b.eax))
    } else if !flags_cover(a.ebx, b.ebx, LEAF7_SUBLEAF0_EBX_FLAGS) {
        Err(Leaf7Subleaf0NotSupported::Ebx(a.ebx, b.ebx))
    } else if !flags_cover(a.ecx & ecx_mask, b.ecx & ecx_mask, LEAF7_SUBLEAF0_ECX_FLAGS) {
        Err(Leaf7Subleaf0NotSupported::Ecx(a.ecx, b.ecx))
    } else if !flags_cover(a.edx, b.edx, LEAF7_SUBLEAF0_EDX_FLAGS) {
        Err(Leaf7Subleaf0NotSupported::Edx(a.edx, b.edx))
    } else {
        Ok(())
    }
}

/// Checks whether subleaf 0 of leaf 0x7 `a` supports that of `b`.
pub fn leaf7_subleaf0_supports(a: &CCpuidResult, b: &CCpuidResult) -> (r: Result<
    (),
    Leaf7Subleaf0NotSupported,
>)
    ensures
        r == leaf7_subleaf0_verdict(*a, *b),
{
    if a.eax < b.eax {
        return Err(Leaf7Subleaf0NotSupported::MaxInputValueSubleaf(a.eax, b.eax));
    }
    if !covers(a.ebx, b.ebx, LEAF7_SUBLEAF0_EBX_FLAGS) {
        return Err(Leaf7Subleaf0NotSupported::Ebx(a.ebx, b.ebx));
    }
    let ecx_mask = !LEAF7_SUBLEAF0_ECX_OSPKE;
    if !covers(a.ecx & ecx_mask, b.ecx & ecx_mask, LEAF7_SUBLEAF0_ECX_FLAGS) {
        return Err(Leaf7Subleaf0NotSupported::Ecx(a.ecx, b.ecx));
    }
    if !covers(a.edx, b.edx, LEAF7_SUBLEAF0_EDX_FLAGS) {
        return Err(Leaf7Subleaf0NotSupported::Edx(a.edx, b.edx));
    }
    Ok(())
}

/// Subleaf 1 of leaf 0x7 of `a` supports that of `b`: the EAX and EBX feature flags
/// include `b`'s.
pub open spec fn leaf7_subleaf1_verdict(a: CCpuidResult, b: CCpuidResult) -> Result<
    (),
    Leaf7Subleaf1NotSupported,
> {
    if !flags_cover(a.eax, b.eax, LEAF7_SUBLEAF1_EAX_FLAGS) {
        Err(Leaf7Subleaf1NotSupported::Eax)
    } else if !flags_cover(a.ebx, b.ebx, LEAF7_SUBLEAF1_EBX_FLAGS) {
        Err(Leaf7Subleaf1NotSupported::Ebx)
    } else {
        Ok(())
    }
}

/// Checks whether subleaf 1 of leaf 0x7 `a` supports that of `b`.
pub fn leaf7_subleaf1_supports(a: &CCpuidResult, b: &CCpuidResult) -> (r: Result<
    (),
    Leaf7Subleaf1NotSupported,
>)
    ensures
        r == leaf7_subleaf1_verdict(*a, *b),
{
    if !covers(a.eax, b.eax, LEAF7_SUBLEAF1_EAX_FLAGS) {
        return Err(Leaf7Subleaf1NotSupported::Eax);
    }
    if !covers(a.ebx, b.ebx, LEAF7_SUBLEAF1_EBX_FLAGS) {
        return Err(Leaf7Subleaf1NotSupported::Ebx);
    }
    Ok(())
}

/// Leaf 0x7 of `a` (its subleaves 0 and 1, each possibly missing) supports that of `b`: each
/// subleaf that `b` has, `a` has too and it supports `b`'s; subleaf 0 is checked first.
pub open spec fn leaf7_verdict(
    a0: Option<CCpuidResult>,
    a1: Option<CCpuidResult>,
    b0: Option<CCpuidResult>,
    b1: Option<CCpuidResult>,
) -> Result<(), Leaf7NotSupported> {
    match (a0, b0) {
        (None, Some(_)) => Err(Leaf7NotSupported::MissingSubleaf0),
        (Some(x), Some(y)) if leaf7_subleaf0_verdict(x, y) is Err => Err(
            Leaf7NotSupported::Subleaf0(leaf7_subleaf0_verdict(x, y)->Err_0),
        ),
        _ => match (a1, b1) {
            (None, Some(_)) => Err(Leaf7NotSupported::MissingSubleaf1),
            (Some(x), Some(y)) if leaf7_subleaf1_verdict(x, y) is Err => Err(
                Leaf7NotSupported::Subleaf1(leaf7_subleaf1_verdict(x, y)->Err_0),
            ),
            _ => Ok(()),
        },
    }
}

/// Checks whether leaf 0x7 of one CPUID (subleaves `a0` and `a1`) supports that of another
/// (subleaves `b0` and `b1`).
fn leaf7_supports(
    a0: Option<CCpuidResult>,
    a1: Option<CCpuidResult>,
    b0: Option<CCpuidResult>,
    b1: Option<CCpuidResult>,
) -> (r: Result<(), Leaf7NotSupported>)
    ensures
        r == leaf7_verdict(a0, a1, b0, b1),
{
    match (a0, b0) {
        (_, None) => {},
        (None, Some(_)) => return Err(Leaf7NotSupported::MissingSubleaf0),
        (Some(x), Some(y)) => match leaf7_subleaf0_supports(&x, &y) {
            Ok(()) => {},
            Err(e) => return Err(Leaf7NotSupported::Subleaf0(e)),
        },
    }
    match (a1, b1) {
        (_, None) => {},
        (None, Some(_)) => return Err(Leaf7NotSupported::MissingSubleaf1),
        (Some(x), Some(y)) => match leaf7_subleaf1_supports(&x, &y) {
            Ok(()) => {},
            Err(e) => return Err(Leaf7NotSupported::Subleaf1(e)),
        },
    }
    Ok(())
}

// ---------------------------------------------------------------------------------------------
// Leaves 0xA and 0xF
// ---------------------------------------------------------------------------------------------

/// Leaf 0xA of `a` supports that of `b`: the EBX flags include `b`'s.
pub open spec fn leafa_verdict(a: CCpuidResult, b: CCpuidResult) -> Result<(), LeafANotSupported> {
    if !flags_cover(a.ebx, b.ebx, LEAFA_EBX_FLAGS) {
        Err(LeafANotSupported::Ebx)
    } else {
        Ok(())
    }
}

/// Checks whether leaf 0xA `a` supports leaf 0xA `b`.
pub fn leafa_supports(a: &CCpuidResult, b: &CCpuidResult) -> (r: Result<(), LeafANotSupported>)
    ensures
        r == leafa_verdict(*a, *b),
{
    if !covers(a.ebx, b.ebx, LEAFA_EBX_FLAGS) {
        return Err(LeafANotSupported::Ebx);
    }
    Ok(())
}

/// Subleaf 0 of leaf 0xF of `a` supports that of `b`: the largest RMID (EBX) is at least
/// `b`'s and the EDX flags include `b`'s.
pub open spec fn leaff_subleaf0_verdict(a: CCpuidResult, b: CCpuidResult) -> Result<
    (),
    LeafFSubleaf0NotSupported,
> {
    if a.ebx < b.ebx {
        Err(LeafFSubleaf0NotSupported::MaxRmidRange)
    } else if !flags_cover(a.edx, b.edx, LEAFF_SUBLEAF0_EDX_FLAGS) {
        Err(LeafFSubleaf0NotSupported::Edx)
    } else {
        Ok(())
    }
}

/// Checks whether subleaf 0 of leaf 0xF `a` supports that of `b`.
pub fn leaff_subleaf0_supports(a: &CCpuidResult, b: &CCpuidResult) -> (r: Result<
    (),
    LeafFSubleaf0NotSupported,
>)
    ensures
        r == leaff_subleaf0_verdict(*a, *b),
{
    if a.ebx < b.ebx {
        return Err(LeafFSubleaf0NotSupported::MaxRmidRange);
    }
    if !covers(a.edx, b.edx, LEAFF_SUBLEAF0_EDX_FLAGS) {
        return Err(LeafFSubleaf0NotSupported::Edx);
    }
    Ok(())
}

/// Subleaf 1 of leaf 0xF of `a` supports that of `b`: the largest RMID of the resource (ECX)
/// is at least `b`'s and the EDX flags include `b`'s.
pub open spec fn leaff_subleaf1_verdict(a: CCpuidResult, b: CCpuidResult) -> Result<
    (),
    LeafFSubleaf1NotSupported,
> {
    if a.ecx < b.ecx {
        Err(LeafFSubleaf1NotSupported::RmidMax)
    } else if !flags_cover(a.edx, b.edx, LEAFF_SUBLEAF1_EDX_FLAGS) {
        Err(LeafFSubleaf1NotSupported::Edx)
    } else {
        Ok(())
    }
}

/// Checks whether subleaf 1 of leaf 0xF `a` supports that of `b`.
pub fn leaff_subleaf1_supports(a: &CCpuidResult, b: &CCpuidResult) -> (r: Result<
    (),
    LeafFSubleaf1NotSupported,
>)
    ensures
        r == leaff_subleaf1_verdict(*a, *b),
{
    if a.ecx < b.ecx {
        return Err(LeafFSubleaf1NotSupported::RmidMax);
    }
    if !covers(a.edx, b.edx, LEAFF_SUBLEAF1_EDX_FLAGS) {
        return Err(LeafFSubleaf1NotSupported::Edx);
    }
    Ok(())
}

/// Leaf 0xF of `a` (subleaves 0 and 1, each possibly missing) supports that of `b`: each
/// subleaf that `b` has, `a` has too and it supports `b`'s; subleaf 0 is checked first.
pub open spec fn leaff_verdict(
    a0: Option<CCpuidResult>,
    a1: Option<CCpuidResult>,
    b0: Option<CCpuidResult>,
    b1: Option<CCpuidResult>,
) -> Result<(), LeafFNotSupported> {
    match (a0, b0) {
        (None, Some(_)) => Err(LeafFNotSupported::MissingSubleaf0),
        (Some(x), Some(y)) if leaff_subleaf0_verdict(x, y) is Err => Err(
            LeafFNotSupported::Subleaf0(leaff_subleaf0_verdict(x, y)->Err_0),
        ),
        _ => match (a1, b1) {
            (None, Some(_)) => Err(LeafFNotSupported::MissingSubleaf1),
            (Some(x), Some(y)) if leaff_subleaf1_verdict(x, y) is Err => Err(
                LeafFNotSupported::Subleaf1(leaff_subleaf1_verdict(x, y)->Err_0),
            ),
            _ => Ok(()),
        },
    }
}

/// Checks whether leaf 0xF of one CPUID (subleaves `a0` and `a1`) supports that of another
/// (subleaves `b0` and `b1`).
fn leaff_supports(
    a0: Option<CCpuidResult>,
    a1: Option<CCpuidResult>,
    b0: Option<CCpuidResult>,
    b1: Option<CCpuidResult>,
) -> (r: Result<(), LeafFNotSupported>)
    ensures
        r == leaff_verdict(a0, a1, b0, b1),
{
    match (a0, b0) {
        (_, None) => {},
        (None, Some(_)) => return Err(LeafFNotSupported::MissingSubleaf0),
        (Some(x), Some(y)) => match leaff_subleaf0_supports(&x, &y) {
            Ok(()) => {},
            Err(e) => return Err(LeafFNotSupported::Subleaf0(e)),
        },
    }
    match (a1, b1) {
        (_, None) => {},
        (None, Some(_)) => return Err(LeafFNotSupported::MissingSubleaf1),
        (Some(x), Some(y)) => match leaff_subleaf1_supports(&x, &y) {
            Ok(()) => {},
            Err(e) => return Err(LeafFNotSupported::Subleaf1(e)),
        },
    }
    Ok(())
}

// ---------------------------------------------------------------------------------------------
// Leaf 0x10
// ---------------------------------------------------------------------------------------------

/// Subleaf 0 of leaf 0x10 of `a` supports that of `b`: the EBX flags include `b`'s.
pub open spec fn leaf10_subleaf0_verdict(a: CCpuidResult, b: CCpuidResult) -> Result<
    (),
    Leaf10Subleaf0NotSupported,
> {
    if !flags_cover(a.ebx, b.ebx, LEAF10_SUBLEAF0_EBX_FLAGS) {
        Err(Leaf10Subleaf0NotSupported::Ebx)
    } else {
        Ok(())
    }
}

/// Subleaf 1 of leaf 0x10 of `a` supports that of `b`: the ECX flags include `b`'s.
pub open spec fn leaf10_subleaf1_verdict(a: CCpuidResult, b: CCpuidResult) -> Result<
    (),
    Leaf10Subleaf1NotSupported,
> {
    if !flags_cover(a.ecx, b.ecx, LEAF10_SUBLEAF1_ECX_FLAGS) {
        Err(Leaf10Subleaf1NotSupported::Ecx)
    } else {
        Ok(())
    }
}

/// Subleaf 3 of leaf 0x10 of `a` supports that of `b`: the ECX flags include `b`'s.
pub open spec fn leaf10_subleaf3_verdict(a: CCpuidResult, b: CCpuidResult) -> Result<
    (),
    Leaf10Subleaf3NotSupported,
> {
    if !flags_cover(a.ecx, b.ecx, LEAF10_SUBLEAF3_ECX_FLAGS) {
        Err(Leaf10Subleaf3NotSupported::Ecx)
    } else {
        Ok(())
    }
}

/// Leaf 0x10 of `a` (subleaves 0, 1 and 3, each possibly missing; subleaf 2 is not checked)
/// supports that of `b`: each of these subleaves that `b` has, `a` has too and it supports
/// `b`'s, checked in increasing subleaf order.
pub open spec fn leaf10_verdict(
    a0: Option<CCpuidResult>,
    a1: Option<CCpuidResult>,
    a3: Option<CCpuidResult>,
    b0: Option<CCpuidResult>,
    b1: Option<CCpuidResult>,
    b3: Option<CCpuidResult>,
) -> Result<(), Leaf10NotSupported> {
    match (a0, b0) {
        (None, Some(_)) => Err(Leaf10NotSupported::MissingSubleaf0),
        (Some(x), Some(y)) if leaf10_subleaf0_verdict(x, y) is Err => Err(
            Leaf10NotSupported::Subleaf0(leaf10_subleaf0_verdict(x, y)->Err_0),
        ),
        _ => match (a1, b1) {
            (None, Some(_)) => Err(Leaf10NotSupported::MissingSubleaf1),
            (Some(x), Some(y)) if leaf10_subleaf1_verdict(x, y) is Err => Err(
                Leaf10NotSupported::Subleaf1(leaf10_subleaf1_verdict(x, y)->Err_0),
            ),
            _ => match (a3, b3) {
                (None, Some(_)) => Err(Leaf10NotSupported::MissingSubleaf3),
                (Some(x), Some(y)) if leaf10_subleaf3_verdict(x, y) is Err => Err(
                    Leaf10NotSupported::Subleaf3(leaf10_subleaf3_verdict(x, y)->Err_0),
                ),
                _ => Ok(()),
            },
        },
    }
}

/// Checks whether leaf 0x10 of one CPUID (subleaves `a0`, `a1`, `a3`) supports that of
/// another (subleaves `b0`, `b1`, `b3`).
fn leaf10_supports(
    a0: Option<CCpuidResult>,
    a1: Option<CCpuidResult>,
    a3: Option<CCpuidResult>,
    b0: Option<CCpuidResult>,
    b1: Option<CCpuidResult>,
    b3: Option<CCpuidResult>,
) -> (r: Result<(), Leaf10NotSupported>)
    ensures
        r == leaf10_verdict(a0, a1, a3, b0, b1, b3),
{
    match (a0, b0) {
        (_, None) => {},
        (None, Some(_)) => return Err(Leaf10NotSupported::MissingSubleaf0),
        (Some(x), Some(y)) => if !covers(x.ebx, y.ebx, LEAF10_SUBLEAF0_EBX_FLAGS) {
            return Err(Leaf10NotSupported::Subleaf0(Leaf10Subleaf0NotSupported::Ebx));
        },
    }
    match (a1, b1) {
        (_, None) => {},
        (None, Some(_)) => return Err(Leaf10NotSupported::MissingSubleaf1),
        (Some(x), Some(y)) => if !covers(x.ecx, y.ecx, LEAF10_SUBLEAF1_ECX_FLAGS) {
            return Err(Leaf10NotSupported::Subleaf1(Leaf10Subleaf1NotSupported::Ecx));
        },
    }
    match (a3, b3) {
        (_, None) => {},
        (None, Some(_)) => return Err(Leaf10NotSupported::MissingSubleaf3),
        (Some(x), Some(y)) => if !covers(x.ecx, y.ecx, LEAF10_SUBLEAF3_ECX_FLAGS) {
            return Err(Leaf10NotSupported::Subleaf3(Leaf10Subleaf3NotSupported::Ecx));
        },
    }
    Ok(())
}

// ---------------------------------------------------------------------------------------------
// Leaves 0x14 and 0x18
// ---------------------------------------------------------------------------------------------

/// Subleaf 0 of leaf 0x14 of `a` supports that of `b`: the largest subleaf (EAX) is at least
/// `b`'s and the EBX and ECX flags include `b`'s.
pub open spec fn leaf14_subleaf0_verdict(a: CCpuidResult, b: CCpuidResult) -> Result<
    (),
    Leaf14Subleaf0NotSupported,
> {
    if a.eax < b.eax {
        Err(Leaf14Subleaf0NotSupported::MaxSubleaf)
    } else if !flags_cover(a.ebx, b.ebx, LEAF14_SUBLEAF0_EBX_FLAGS) {
        Err(Leaf14Subleaf0NotSupported::Ebx)
    } else if !flags_cover(a.ecx, b.ecx, LEAF14_SUBLEAF0_ECX_FLAGS) {
        Err(Leaf14Subleaf0NotSupported::Ecx)
    } else {
        Ok(())
    }
}

/// Leaf 0x14 of `a` (subleaf 0, possibly missing; subleaf 1 is not checked) supports that of
/// `b`: if `b` has subleaf 0, `a` has it too and it supports `b`'s.
pub open spec fn leaf14_verdict(a0: Option<CCpuidResult>, b0: Option<CCpuidResult>) -> Result<
    (),
    Leaf14NotSupported,
> {
    match (a0, b0) {
        (None, Some(_)) => Err(Leaf14NotSupported::MissingSubleaf0),
        (Some(x), Some(y)) if leaf14_subleaf0_verdict(x, y) is Err => Err(
            Leaf14NotSupported::Subleaf0(leaf14_subleaf0_verdict(x, y)->Err_0),
        ),
        _ => Ok(()),
    }
}

/// Checks whether leaf 0x14 of one CPUID (subleaf `a0`) supports that of another (subleaf
/// `b0`).
fn leaf14_supports(a0: Option<CCpuidResult>, b0: Option<CCpuidResult>) -> (r: Result<
    (),
    Leaf14NotSupported,
>)
    ensures
        r == leaf14_verdict(a0, b0),
{
    match (a0, b0) {
        (_, None) => Ok(()),
        (None, Some(_)) => Err(Leaf14NotSupported::MissingSubleaf0),
        (Some(x), Some(y)) => {
            if x.eax < y.eax {
                return Err(Leaf14NotSupported::Subleaf0(Leaf14Subleaf0NotSupported::MaxSubleaf));
            }
            if !covers(x.ebx, y.ebx, LEAF14_SUBLEAF0_EBX_FLAGS) {
                return Err(Leaf14NotSupported::Subleaf0(Leaf14Subleaf0NotSupported::Ebx));
            }
            if !covers(x.ecx, y.ecx, LEAF14_SUBLEAF0_ECX_FLAGS) {
                return Err(Leaf14NotSupported::Subleaf0(Leaf14Subleaf0NotSupported::Ecx));
            }
            Ok(())
        },
    }
}

/// Subleaf 0 of leaf 0x18 of `a` supports that of `b`: the largest subleaf (EAX) is at least
/// `b`'s and the EBX flags include `b`'s.
pub open spec fn leaf18_subleaf0_verdict(a: CCpuidResult, b: CCpuidResult) -> Result<
    (),
    Leaf18Subleaf0NotSupported,
> {
    if a.eax < b.eax {
        Err(Leaf18Subleaf0NotSupported::MaxSubleaf)
    } else if !flags_cover(a.ebx, b.ebx, LEAF18_SUBLEAF0_EBX_FLAGS) {
        Err(Leaf18Subleaf0NotSupported::Ebx)
    } else {
        Ok(())
    }
}

/// Leaf 0x18 of `a` (subleaf 0, possibly missing; subleaf 1 is not checked) supports that of
/// `b`: if `b` has subleaf 0, `a` has it too and it supports `b`'s.
pub open spec fn leaf18_verdict(a0: Option<CCpuidResult>, b0: Option<CCpuidResult>) -> Result<
    (),
    Leaf18NotSupported,
> {
    match (a0, b0) {
        (None, Some(_)) => Err(Leaf18NotSupported::MissingSubleaf0),
        (Some(x), Some(y)) if leaf18_subleaf0_verdict(x, y) is Err => Err(
            Leaf18NotSupported::Subleaf0(leaf18_subleaf0_verdict(x, y)->Err_0),
        ),
        _ => Ok(()),
    }
}

/// Checks whether leaf 0x18 of one CPUID (subleaf `a0`) supports that of another (subleaf
/// `b0`).
fn leaf18_supports(a0: Option<CCpuidResult>, b0: Option<CCpuidResult>) -> (r: Result<
    (),
    Leaf18NotSupported,
>)
    ensures
        r == leaf18_verdict(a0, b0),
{
    match (a0, b0) {
        (_, None) => Ok(()),
        (None, Some(_)) => Err(Leaf18NotSupported::MissingSubleaf0),
        (Some(x), Some(y)) => {
            if x.eax < y.eax {
                return Err(Leaf18NotSupported::Subleaf0(Leaf18Subleaf0NotSupported::MaxSubleaf));
            }
            if !covers(x.ebx, y.ebx, LEAF18_SUBLEAF0_EBX_FLAGS) {
                return Err(Leaf18NotSupported::Subleaf0(Leaf18Subleaf0NotSupported::Ebx));
            }
            Ok(())
        },
    }
}

// ---------------------------------------------------------------------------------------------
// Leaves 0x19, 0x1C and 0x20
// ---------------------------------------------------------------------------------------------

/// Leaf 0x19 of `a` supports that of `b`: the EAX, EBX and ECX flags include `b`'s.
pub open spec fn leaf19_verdict(a: CCpuidResult, b: CCpuidResult) -> Result<(), Leaf19NotSupported> {
    if !flags_cover(a.eax, b.eax, LEAF19_EAX_FLAGS) {
        Err(Leaf19NotSupported::Eax)
    } else if !flags_cover(a.ebx, b.ebx, LEAF19_EBX_FLAGS) {
        Err(Leaf19NotSupported::Ebx)
    } else if !flags_cover(a.ecx, b.ecx, LEAF19_ECX_FLAGS) {
        Err(Leaf19NotSupported::Ecx)
    } else {
        Ok(())
    }
}

/// Checks whether leaf 0x19 `a` supports leaf 0x19 `b`.
pub fn leaf19_supports(a: &CCpuidResult, b: &CCpuidResult) -> (r: Result<(), Leaf19NotSupported>)
    ensures
        r == leaf19_verdict(*a, *b),
{
    if !covers(a.eax, b.eax, LEAF19_EAX_FLAGS) {
        return Err(Leaf19NotSupported::Eax);
    }
    if !covers(a.ebx, b.ebx, LEAF19_EBX_FLAGS) {
        return Err(Leaf19NotSupported::Ebx);
    }
    if !covers(a.ecx, b.ecx, LEAF19_ECX_FLAGS) {
        return Err(Leaf19NotSupported::Ecx);
    }
    Ok(())
}

/// Leaf 0x1C of `a` supports that of `b`: the EAX, EBX and ECX flags include `b`'s.
pub open spec fn leaf1c_verdict(a: CCpuidResult, b: CCpuidResult) -> Result<(), Leaf1CNotSupported> {
    if !flags_cover(a.eax, b.eax, LEAF1C_EAX_FLAGS) {
        Err(Leaf1CNotSupported::Eax)
    } else if !flags_cover(a.ebx, b.ebx, LEAF1C_EBX_FLAGS) {
        Err(Leaf1CNotSupported::Ebx)
    } else if !flags_cover(a.ecx, b.ecx, LEAF1C_ECX_FLAGS) {
        Err(Leaf1CNotSupported::Ecx)
    } else {
        Ok(())
    }
}

/// Checks whether leaf 0x1C `a` supports leaf 0x1C `b`.
pub fn leaf1c_supports(a: &CCpuidResult, b: &CCpuidResult) -> (r: Result<(), Leaf1CNotSupported>)
    ensures
        r == leaf1c_verdict(*a, *b),
{
    if !covers(a.eax, b.eax, LEAF1C_EAX_FLAGS) {
        return Err(Leaf1CNotSupported::Eax);
    }
    if !covers(a.ebx, b.ebx, LEAF1C_EBX_FLAGS) {
        return Err(Leaf1CNotSupported::Ebx);
    }
    if !covers(a.ecx, b.ecx, LEAF1C_ECX_FLAGS) {
        return Err(Leaf1CNotSupported::Ecx);
    }
    Ok(())
}

/// Leaf 0x20 of `a` supports that of `b`: the largest subleaf (EAX) is at least `b`'s and
/// the EBX flags include `b`'s.
pub open spec fn leaf20_verdict(a: CCpuidResult, b: CCpuidResult) -> Result<(), Leaf20NotSupported> {
    if a.eax < b.eax {
        Err(Leaf20NotSupported::MaxSubleaves)
    } else if !flags_cover(a.ebx, b.ebx, LEAF20_EBX_FLAGS) {
        Err(Leaf20NotSupported::Ebx)
    } else {
        Ok(())
    }
}

/// Checks whether leaf 0x20 `a` supports leaf 0x20 `b`.
pub fn leaf20_supports(a: &CCpuidResult, b: &CCpuidResult) -> (r: Result<(), Leaf20NotSupported>)
    ensures
        r == leaf20_verdict(*a, *b),
{
    if a.eax < b.eax {
        return Err(Leaf20NotSupported::MaxSubleaves);
    }
    if !covers(a.ebx, b.ebx, LEAF20_EBX_FLAGS) {
        return Err(Leaf20NotSupported::Ebx);
    }
    Ok(())
}

// ---------------------------------------------------------------------------------------------
// Extended leaves
// ---------------------------------------------------------------------------------------------

/// Leaf 0x80000000 of `a` supports that of `b`: the largest extended leaf (EAX) is at least
/// `b`'s.
pub open spec fn leaf80000000_verdict(a: CCpuidResult, b: CCpuidResult) -> Result<
    (),
    Leaf80000000NotSupported,
> {
    if a.eax < b.eax {
        Err(Leaf80000000NotSupported::MaxExtendedFunctionInput)
    } else {
        Ok(())
    }
}

/// Checks whether leaf 0x80000000 `a` supports leaf 0x80000000 `b`.
pub fn leaf80000000_supports(a: &CCpuidResult, b: &CCpuidResult) -> (r: Result<
    (),
    Leaf80000000NotSupported,
>)
    ensures
        r == leaf80000000_verdict(*a, *b),
{
    if a.eax < b.eax {
        return Err(Leaf80000000NotSupported::MaxExtendedFunctionInput);
    }
    Ok(())
}

/// Leaf 0x80000001 of `a` supports that of `b`: the ECX and EDX flags include `b`'s.
pub open spec fn leaf80000001_verdict(a: CCpuidResult, b: CCpuidResult) -> Result<
    (),
    Leaf80000001NotSupported,
> {
    if !flags_cover(a.ecx, b.ecx, LEAF80000001_ECX_FLAGS) {
        Err(Leaf80000001NotSupported::Ecx)
    } else if !flags_cover(a.edx, b.edx, LEAF80000001_EDX_FLAGS) {
        Err(Leaf80000001NotSupported::Edx)
    } else {
        Ok(())
    }
}

/// Checks whether leaf 0x80000001 `a` supports leaf 0x80000001 `b`.
pub fn leaf80000001_supports(a: &CCpuidResult, b: &CCpuidResult) -> (r: Result<
    (),
    Leaf80000001NotSupported,
>)
    ensures
        r == leaf80000001_verdict(*a, *b),
{
    if !covers(a.ecx, b.ecx, LEAF80000001_ECX_FLAGS) {
        return Err(Leaf80000001NotSupported::Ecx);
    }
    if !covers(a.edx, b.edx, LEAF80000001_EDX_FLAGS) {
        return Err(Leaf80000001NotSupported::Edx);
    }
    Ok(())
}

/// Leaf 0x80000007 of `a` supports that of `b`: the EDX flags include `b`'s.
pub open spec fn leaf80000007_verdict(a: CCpuidResult, b: CCpuidResult) -> Result<
    (),
    Leaf80000007NotSupported,
> {
    if !flags_cover(a.edx, b.edx, LEAF80000007_EDX_FLAGS) {
        Err(Leaf80000007NotSupported::Edx)
    } else {
        Ok(())
    }
}

/// Checks whether leaf 0x80000007 `a` supports leaf 0x80000007 `b`.
pub fn leaf80000007_supports(a: &CCpuidResult, b: &CCpuidResult) -> (r: Result<
    (),
    Leaf80000007NotSupported,
>)
    ensures
        r == leaf80000007_verdict(*a, *b),
{
    if !covers(a.edx, b.edx, LEAF80000007_EDX_FLAGS) {
        return Err(Leaf80000007NotSupported::Edx);
    }
    Ok(())
}

/// Leaf 0x80000008 of `a` supports that of `b`: the physical (EAX bits 0-7) and linear (EAX
/// bits 8-15) address widths are at least `b`'s and the EBX flags include `b`'s.
pub open spec fn leaf80000008_verdict(a: CCpuidResult, b: CCpuidResult) -> Result<
    (),
    Leaf80000008NotSupported,
> {
    if get_range(a.eax, 0, 8) < get_range(b.eax, 0, 8) {
        Err(Leaf80000008NotSupported::PhysicalAddressBits)
    } else if get_range(a.eax, 8, 8) < get_range(b.eax, 8, 8) {
        Err(Leaf80000008NotSupported::LinearAddressBits)
    } else if !flags_cover(a.ebx, b.ebx, LEAF80000008_EBX_FLAGS) {
        Err(Leaf80000008NotSupported::Ebx)
    } else {
        Ok(())
    }
}

/// Checks whether leaf 0x80000008 `a` supports leaf 0x80000008 `b`.
pub fn leaf80000008_supports(a: &CCpuidResult, b: &CCpuidResult) -> (r: Result<
    (),
    Leaf80000008NotSupported,
>)
    ensures
        r == leaf80000008_verdict(*a, *b),
{
    if get(a.eax, 0, 8) < get(b.eax, 0, 8) {
        return Err(Leaf80000008NotSupported::PhysicalAddressBits);
    }
    if get(a.eax, 8, 8) < get(b.eax, 8, 8) {
        return Err(Leaf80000008NotSupported::LinearAddressBits);
    }
    if !covers(a.ebx, b.ebx, LEAF80000008_EBX_FLAGS) {
        return Err(Leaf80000008NotSupported::Ebx);
    }
    Ok(())
}

// ---------------------------------------------------------------------------------------------
// Whole CPUIDs
// ---------------------------------------------------------------------------------------------

/// The registers of the entry for leaf `leaf`, subleaf `subleaf`, if there is one.
pub open spec fn result_at(s: Seq<(CpuidKey, CpuidEntry)>, leaf: u32, subleaf: u32) -> Option<
    CCpuidResult,
> {
    match lookup(s, CpuidKey { leaf, subleaf }) {
        Some(e) => Some(e.result),
        None => None,
    }
}

/// Reads the registers of the entry for leaf `leaf`, subleaf `subleaf`.
fn result_of(entries: &Entries, leaf: u32, subleaf: u32) -> (r: Option<CCpuidResult>)
    ensures
        r == result_at(entries@, leaf, subleaf),
{
    match entries_get(entries, &CpuidKey::subleaf(leaf, subleaf)) {
        Some(e) => Some(e.result),
        None => None,
    }
}

/// The first failure of two checks made in turn.
pub open spec fn first_failure(
    first: Result<(), IntelCpuidNotSupported>,
    then: Result<(), IntelCpuidNotSupported>,
) -> Result<(), IntelCpuidNotSupported> {
    if first is Err {
        first
    } else {
        then
    }
}

/// Leaf 0x0 of CPUID `s` supports that of CPUID `t`: both have it and it supports the
/// other's, or neither has it.
pub open spec fn leaf0_step(s: Seq<(CpuidKey, CpuidEntry)>, t: Seq<(CpuidKey, CpuidEntry)>) -> Result<
    (),
    IntelCpuidNotSupported,
> {
    match (result_at(s, 0x0, 0), result_at(t, 0x0, 0)) {
        (None, None) => Ok(()),
        (Some(a), Some(b)) => match leaf0_supports(a, b) {
            Ok(()) => Ok(()),
            Err(e) => Err(IntelCpuidNotSupported::Leaf0(e)),
        },
        _ => Err(IntelCpuidNotSupported::MissingLeaf0),
    }
}

/// Leaf 0x1 of CPUID `s` supports that of CPUID `t`: both have it and it supports the
/// other's, or neither has it.
pub open spec fn leaf1_step(s: Seq<(CpuidKey, CpuidEntry)>, t: Seq<(CpuidKey, CpuidEntry)>) -> Result<
    (),
    IntelCpuidNotSupported,
> {
    match (result_at(s, 0x1, 0), result_at(t, 0x1, 0)) {
        (None, None) => Ok(()),
        (Some(a), Some(b)) => match leaf1_verdict(a, b) {
            Ok(()) => Ok(()),
            Err(e) => Err(IntelCpuidNotSupported::Leaf1(e)),
        },
        _ => Err(IntelCpuidNotSupported::MissingLeaf1),
    }
}

/// Leaf 0x5 of CPUID `s` supports that of CPUID `t`: both have it and it supports the
/// other's, or neither has it.
pub open spec fn leaf5_step(s: Seq<(CpuidKey, CpuidEntry)>, t: Seq<(CpuidKey, CpuidEntry)>) -> Result<
    (),
    IntelCpuidNotSupported,
> {
    match (result_at(s, 0x5, 0), result_at(t, 0x5, 0)) {
        (None, None) => Ok(()),
        (Some(a), Some(b)) => match leaf5_verdict(a, b) {
            Ok(()) => Ok(()),
            Err(e) => Err(IntelCpuidNotSupported::Leaf5(e)),
        },
        _ => Err(IntelCpuidNotSupported::MissingLeaf5),
    }
}

/// Leaf 0x6 of CPUID `s` supports that of CPUID `t`: both have it and it supports the
/// other's, or neither has it.
pub open spec fn leaf6_step(s: Seq<(CpuidKey, CpuidEntry)>, t: Seq<(CpuidKey, CpuidEntry)>) -> Result<
    (),
    IntelCpuidNotSupported,
> {
    match (result_at(s, 0x6, 0), result_at(t, 0x6, 0)) {
        (None, None) => Ok(()),
        (Some(a), Some(b)) => match leaf6_verdict(a, b) {
            Ok(()) => Ok(()),
            Err(e) => Err(IntelCpuidNotSupported::Leaf6(e)),
        },
        _ => Err(IntelCpuidNotSupported::MissingLeaf6),
    }
}

/// Leaf 0xA of CPUID `s` supports that of CPUID `t`: both have it and it supports the
/// other's, or neither has it.
pub open spec fn leafa_step(s: Seq<(CpuidKey, CpuidEntry)>, t: Seq<(CpuidKey, CpuidEntry)>) -> Result<
    (),
    IntelCpuidNotSupported,
> {
    match (result_at(s, 0xA, 0), result_at(t, 0xA, 0)) {
        (None, None) => Ok(()),
        (Some(a), Some(b)) => match leafa_verdict(a, b) {
            Ok(()) => Ok(()),
            Err(e) => Err(IntelCpuidNotSupported::LeafA(e)),
        },
        _ => Err(IntelCpuidNotSupported::MissingLeafA),
    }
}

/// Leaf 0x19 of CPUID `s` supports that of CPUID `t`: both have it and it supports the
/// other's, or neither has it.
pub open spec fn leaf19_step(s: Seq<(CpuidKey, CpuidEntry)>, t: Seq<(CpuidKey, CpuidEntry)>) -> Result<
    (),
    IntelCpuidNotSupported,
> {
    match (result_at(s, 0x19, 0), result_at(t, 0x19, 0)) {
        (None, None) => Ok(()),
        (Some(a), Some(b)) => match leaf19_verdict(a, b) {
            Ok(()) => Ok(()),
            Err(e) => Err(IntelCpuidNotSupported::Leaf19(e)),
        },
        _ => Err(IntelCpuidNotSupported::MissingLeaf19),
    }
}

/// Leaf 0x1C of CPUID `s` supports that of CPUID `t`: both have it and it supports the
/// other's, or neither has it.
pub open spec fn leaf1c_step(s: Seq<(CpuidKey, CpuidEntry)>, t: Seq<(CpuidKey, CpuidEntry)>) -> Result<
    (),
    IntelCpuidNotSupported,
> {
    match (result_at(s, 0x1C, 0), result_at(t, 0x1C, 0)) {
        (None, None) => Ok(()),
        (Some(a), Some(b)) => match leaf1c_verdict(a, b) {
            Ok(()) => Ok(()),
            Err(e) => Err(IntelCpuidNotSupported::Leaf1C(e)),
        },
        _ => Err(IntelCpuidNotSupported::MissingLeaf1C),
    }
}

/// Leaf 0x20 of CPUID `s` supports that of CPUID `t`: both have it and it supports the
/// other's, or neither has it.
pub open spec fn leaf20_step(s: Seq<(CpuidKey, CpuidEntry)>, t: Seq<(CpuidKey, CpuidEntry)>) -> Result<
    (),
    IntelCpuidNotSupported,
> {
    match (result_at(s, 0x20, 0), result_at(t, 0x20, 0)) {
        (None, None) => Ok(()),
        (Some(a), Some(b)) => match leaf20_verdict(a, b) {
            Ok(()) => Ok(()),
            Err(e) => Err(IntelCpuidNotSupported::Leaf20(e)),
        },
        _ => Err(IntelCpuidNotSupported::MissingLeaf20),
    }
}

/// Leaf 0x8000_0000 of CPUID `s` supports that of CPUID `t`: both have it and it supports the
/// other's, or neither has it.
pub open spec fn leaf80000000_step(s: Seq<(CpuidKey, CpuidEntry)>, t: Seq<(CpuidKey, CpuidEntry)>) -> Result<
    (),
    IntelCpuidNotSupported,
> {
    match (result_at(s, 0x8000_0000, 0), result_at(t, 0x8000_0000, 0)) {
        (None, None) => Ok(()),
        (Some(a), Some(b)) => match leaf80000000_verdict(a, b) {
            Ok(()) => Ok(()),
            Err(e) => Err(IntelCpuidNotSupported::Leaf80000000(e)),
        },
        _ => Err(IntelCpuidNotSupported::MissingLeaf80000000),
    }
}

/// Leaf 0x8000_0001 of CPUID `s` supports that of CPUID `t`: both have it and it supports the
/// other's, or neither has it.
pub open spec fn leaf80000001_step(s: Seq<(CpuidKey, CpuidEntry)>, t: Seq<(CpuidKey, CpuidEntry)>) -> Result<
    (),
    IntelCpuidNotSupported,
> {
    match (result_at(s, 0x8000_0001, 0), result_at(t, 0x8000_0001, 0)) {
        (None, None) => Ok(()),
        (Some(a), Some(b)) => match leaf80000001_verdict(a, b) {
            Ok(()) => Ok(()),
            Err(e) => Err(IntelCpuidNotSupported::Leaf80000001(e)),
        },
        _ => Err(IntelCpuidNotSupported::MissingLeaf80000001),
    }
}

/// Leaf 0x8000_0007 of CPUID `s` supports that of CPUID `t`: both have it and it supports the
/// other's, or neither has it.
pub open spec fn leaf80000007_step(s: Seq<(CpuidKey, CpuidEntry)>, t: Seq<(CpuidKey, CpuidEntry)>) -> Result<
    (),
    IntelCpuidNotSupported,
> {
    match (result_at(s, 0x8000_0007, 0), result_at(t, 0x8000_0007, 0)) {
        (None, None) => Ok(()),
        (Some(a), Some(b)) => match leaf80000007_verdict(a, b) {
            Ok(()) => Ok(()),
            Err(e) => Err(IntelCpuidNotSupported::Leaf80000007(e)),
        },
        _ => Err(IntelCpuidNotSupported::MissingLeaf80000007),
    }
}

/// Leaf 0x8000_0008 of CPUID `s` supports that of CPUID `t`: both have it and it supports the
/// other's, or neither has it.
pub open spec fn leaf80000008_step(s: Seq<(CpuidKey, CpuidEntry)>, t: Seq<(CpuidKey, CpuidEntry)>) -> Result<
    (),
    IntelCpuidNotSupported,
> {
    match (result_at(s, 0x8000_0008, 0), result_at(t, 0x8000_0008, 0)) {
        (None, None) => Ok(()),
        (Some(a), Some(b)) => match leaf80000008_verdict(a, b) {
            Ok(()) => Ok(()),
            Err(e) => Err(IntelCpuidNotSupported::Leaf80000008(e)),
        },
        _ => Err(IntelCpuidNotSupported::MissingLeaf80000008),
    }
}

/// Leaf 0x7 of CPUID `s` supports that of CPUID `t`.
pub open spec fn leaf7_step(s: Seq<(CpuidKey, CpuidEntry)>, t: Seq<(CpuidKey, CpuidEntry)>) -> Result<
    (),
    IntelCpuidNotSupported,
> {
    match leaf7_verdict(result_at(s, 0x7, 0), result_at(s, 0x7, 1), result_at(t, 0x7, 0), result_at(t, 0x7, 1)) {
        Ok(()) => Ok(()),
        Err(e) => Err(IntelCpuidNotSupported::Leaf7(e)),
    }
}

/// Leaf 0xF of CPUID `s` supports that of CPUID `t`.
pub open spec fn leaff_step(s: Seq<(CpuidKey, CpuidEntry)>, t: Seq<(CpuidKey, CpuidEntry)>) -> Result<
    (),
    IntelCpuidNotSupported,
> {
    match leaff_verdict(result_at(s, 0xF, 0), result_at(s, 0xF, 1), result_at(t, 0xF, 0), result_at(t, 0xF, 1)) {
        Ok(()) => Ok(()),
        Err(e) => Err(IntelCpuidNotSupported::LeafF(e)),
    }
}

/// Leaf 0x10 of CPUID `s` supports that of CPUID `t`.
pub open spec fn leaf10_step(s: Seq<(CpuidKey, CpuidEntry)>, t: Seq<(CpuidKey, CpuidEntry)>) -> Result<
    (),
    IntelCpuidNotSupported,
> {
    match leaf10_verdict(
        result_at(s, 0x10, 0),
        result_at(s, 0x10, 1),
        result_at(s, 0x10, 3),
        result_at(t, 0x10, 0),
        result_at(t, 0x10, 1),
        result_at(t, 0x10, 3),
    ) {
        Ok(()) => Ok(()),
        Err(e) => Err(IntelCpuidNotSupported::Leaf10(e)),
    }
}

/// Leaf 0x14 of CPUID `s` supports that of CPUID `t`.
pub open spec fn leaf14_step(s: Seq<(CpuidKey, CpuidEntry)>, t: Seq<(CpuidKey, CpuidEntry)>) -> Result<
    (),
    IntelCpuidNotSupported,
> {
    match leaf14_verdict(result_at(s, 0x14, 0), result_at(t, 0x14, 0)) {
        Ok(()) => Ok(()),
        Err(e) => Err(IntelCpuidNotSupported::Leaf14(e)),
    }
}

/// Leaf 0x18 of CPUID `s` supports that of CPUID `t`.
pub open spec fn leaf18_step(s: Seq<(CpuidKey, CpuidEntry)>, t: Seq<(CpuidKey, CpuidEntry)>) -> Result<
    (),
    IntelCpuidNotSupported,
> {
    match leaf18_verdict(result_at(s, 0x18, 0), result_at(t, 0x18, 0)) {
        Ok(()) => Ok(()),
        Err(e) => Err(IntelCpuidNotSupported::Leaf18(e)),
    }
}

/// The basic leaves 0x0, 0x1, 0x5, 0x6, 0x7 and 0xA of CPUID `s` support those of `t`; the
/// first failure in that order is reported.
pub open spec fn basic_leaves_verdict(s: Seq<(CpuidKey, CpuidEntry)>, t: Seq<(CpuidKey, CpuidEntry)>) -> Result<
    (),
    IntelCpuidNotSupported,
> {
    first_failure(
        leaf0_step(s, t),
        first_failure(
            leaf1_step(s, t),
            first_failure(
                leaf5_step(s, t),
                first_failure(leaf6_step(s, t), first_failure(leaf7_step(s, t), leafa_step(s, t))),
            ),
        ),
    )
}

/// The leaves 0xF, 0x10, 0x14, 0x18, 0x19, 0x1C and 0x20 of CPUID `s` support those of `t`;
/// the first failure in that order is reported.
pub open spec fn resource_leaves_verdict(s: Seq<(CpuidKey, CpuidEntry)>, t: Seq<(CpuidKey, CpuidEntry)>) -> Result<
    (),
    IntelCpuidNotSupported,
> {
    first_failure(
        leaff_step(s, t),
        first_failure(
            leaf10_step(s, t),
            first_failure(
                leaf14_step(s, t),
                first_failure(
                    leaf18_step(s, t),
                    first_failure(
                        leaf19_step(s, t),
                        first_failure(leaf1c_step(s, t), leaf20_step(s, t)),
                    ),
                ),
            ),
        ),
    )
}

/// The extended leaves 0x80000000, 0x80000001, 0x80000007 and 0x80000008 of CPUID `s`
/// support those of `t`; the first failure in that order is reported.
pub open spec fn extended_leaves_verdict(s: Seq<(CpuidKey, CpuidEntry)>, t: Seq<(CpuidKey, CpuidEntry)>) -> Result<
    (),
    IntelCpuidNotSupported,
> {
    first_failure(
        leaf80000000_step(s, t),
        first_failure(
            leaf80000001_step(s, t),
            first_failure(leaf80000007_step(s, t), leaf80000008_step(s, t)),
        ),
    )
}

/// CPUID `s` supports CPUID `t`: a process from an environment with CPUID `t` could continue
/// in one with CPUID `s`. The leaves are checked in increasing order and the first failure is
/// reported.
pub open spec fn intel_verdict(s: Seq<(CpuidKey, CpuidEntry)>, t: Seq<(CpuidKey, CpuidEntry)>) -> Result<
    (),
    IntelCpuidNotSupported,
> {
    first_failure(
        basic_leaves_verdict(s, t),
        first_failure(resource_leaves_verdict(s, t), extended_leaves_verdict(s, t)),
    )
}

/// Checks leaf 0x0 of `s` against leaf 0x0 of `t`.
fn check_leaf0(s: &Entries, t: &Entries) -> (r: Result<(), IntelCpuidNotSupported>)
    ensures
        r == leaf0_step(s@, t@),
{
    match (result_of(s, 0x0, 0), result_of(t, 0x0, 0)) {
        (None, None) => Ok(()),
        (Some(a), Some(b)) => {
            let x = Leaf { eax: a.eax, ebx: a.ebx, ecx: a.ecx, edx: a.edx };
            let y = Leaf { eax: b.eax, ebx: b.ebx, ecx: b.ecx, edx: b.edx };
            match x.supports(&y) {
                Ok(()) => Ok(()),
                Err(e) => Err(IntelCpuidNotSupported::Leaf0(e)),
            }
        },
        _ => Err(IntelCpuidNotSupported::MissingLeaf0),
    }
}

/// Checks leaf 0x1 of `s` against leaf 0x1 of `t`.
fn check_leaf1(s: &Entries, t: &Entries) -> (r: Result<(), IntelCpuidNotSupported>)
    ensures
        r == leaf1_step(s@, t@),
{
    match (result_of(s, 0x1, 0), result_of(t, 0x1, 0)) {
        (None, None) => Ok(()),
        (Some(a), Some(b)) => match leaf1_supports(&a, &b) {
            Ok(()) => Ok(()),
            Err(e) => Err(IntelCpuidNotSupported::Leaf1(e)),
        },
        _ => Err(IntelCpuidNotSupported::MissingLeaf1),
    }
}

/// Checks leaf 0x5 of `s` against leaf 0x5 of `t`.
fn check_leaf5(s: &Entries, t: &Entries) -> (r: Result<(), IntelCpuidNotSupported>)
    ensures
        r == leaf5_step(s@, t@),
{
    match (result_of(s, 0x5, 0), result_of(t, 0x5, 0)) {
        (None, None) => Ok(()),
        (Some(a), Some(b)) => match leaf5_supports(&a, &b) {
            Ok(()) => Ok(()),
            Err(e) => Err(IntelCpuidNotSupported::Leaf5(e)),
        },
        _ => Err(IntelCpuidNotSupported::MissingLeaf5),
    }
}

/// Checks leaf 0x6 of `s` against leaf 0x6 of `t`.
fn check_leaf6(s: &Entries, t: &Entries) -> (r: Result<(), IntelCpuidNotSupported>)
    ensures
        r == leaf6_step(s@, t@),
{
    match (result_of(s, 0x6, 0), result_of(t, 0x6, 0)) {
        (None, None) => Ok(()),
        (Some(a), Some(b)) => match leaf6_supports(&a, &b) {
            Ok(()) => Ok(()),
            Err(e) => Err(IntelCpuidNotSupported::Leaf6(e)),
        },
        _ => Err(IntelCpuidNotSupported::MissingLeaf6),
    }
}

/// Checks leaf 0xA of `s` against leaf 0xA of `t`.
fn check_leafa(s: &Entries, t: &Entries) -> (r: Result<(), IntelCpuidNotSupported>)
    ensures
        r == leafa_step(s@, t@),
{
    match (result_of(s, 0xA, 0), result_of(t, 0xA, 0)) {
        (None, None) => Ok(()),
        (Some(a), Some(b)) => match leafa_supports(&a, &b) {
            Ok(()) => Ok(()),
            Err(e) => Err(IntelCpuidNotSupported::LeafA(e)),
        },
        _ => Err(IntelCpuidNotSupported::MissingLeafA),
    }
}

/// Checks leaf 0x19 of `s` against leaf 0x19 of `t`.
fn check_leaf19(s: &Entries, t: &Entries) -> (r: Result<(), IntelCpuidNotSupported>)
    ensures
        r == leaf19_step(s@, t@),
{
    match (result_of(s, 0x19, 0), result_of(t, 0x19, 0)) {
        (None, None) => Ok(()),
        (Some(a), Some(b)) => match leaf19_supports(&a, &b) {
            Ok(()) => Ok(()),
            Err(e) => Err(IntelCpuidNotSupported::Leaf19(e)),
        },
        _ => Err(IntelCpuidNotSupported::MissingLeaf19),
    }
}

/// Checks leaf 0x1C of `s` against leaf 0x1C of `t`.
fn check_leaf1c(s: &Entries, t: &Entries) -> (r: Result<(), IntelCpuidNotSupported>)
    ensures
        r == leaf1c_step(s@, t@),
{
    match (result_of(s, 0x1C, 0), result_of(t, 0x1C, 0)) {
        (None, None) => Ok(()),
        (Some(a), Some(b)) => match leaf1c_supports(&a, &b) {
            Ok(()) => Ok(()),
            Err(e) => Err(IntelCpuidNotSupported::Leaf1C(e)),
        },
        _ => Err(IntelCpuidNotSupported::MissingLeaf1C),
    }
}

/// Checks leaf 0x20 of `s` against leaf 0x20 of `t`.
fn check_leaf20(s: &Entries, t: &Entries) -> (r: Result<(), IntelCpuidNotSupported>)
    ensures
        r == leaf20_step(s@, t@),
{
    match (result_of(s, 0x20, 0), result_of(t, 0x20, 0)) {
        (None, None) => Ok(()),
        (Some(a), Some(b)) => match leaf20_supports(&a, &b) {
            Ok(()) => Ok(()),
            Err(e) => Err(IntelCpuidNotSupported::Leaf20(e)),
        },
        _ => Err(IntelCpuidNotSupported::MissingLeaf20),
    }
}

/// Checks leaf 0x8000_0000 of `s` against leaf 0x8000_0000 of `t`.
fn check_leaf80000000(s: &Entries, t: &Entries) -> (r: Result<(), IntelCpuidNotSupported>)
    ensures
        r == leaf80000000_step(s@, t@),
{
    match (result_of(s, 0x8000_0000, 0), result_of(t, 0x8000_0000, 0)) {
        (None, None) => Ok(()),
        (Some(a), Some(b)) => match leaf80000000_supports(&a, &b) {
            Ok(()) => Ok(()),
            Err(e) => Err(IntelCpuidNotSupported::Leaf80000000(e)),
        },
        _ => Err(IntelCpuidNotSupported::MissingLeaf80000000),
    }
}

/// Checks leaf 0x8000_0001 of `s` against leaf 0x8000_0001 of `t`.
fn check_leaf80000001(s: &Entries, t: &Entries) -> (r: Result<(), IntelCpuidNotSupported>)
    ensures
        r == leaf80000001_step(s@, t@),
{
    match (result_of(s, 0x8000_0001, 0), result_of(t, 0x8000_0001, 0)) {
        (None, None) => Ok(()),
        (Some(a), Some(b)) => match leaf80000001_supports(&a, &b) {
            Ok(()) => Ok(()),
            Err(e) => Err(IntelCpuidNotSupported::Leaf80000001(e)),
        },
        _ => Err(IntelCpuidNotSupported::MissingLeaf80000001),
    }
}

/// Checks leaf 0x8000_0007 of `s` against leaf 0x8000_0007 of `t`.
fn check_leaf80000007(s: &Entries, t: &Entries) -> (r: Result<(), IntelCpuidNotSupported>)
    ensures
        r == leaf80000007_step(s@, t@),
{
    match (result_of(s, 0x8000_0007, 0), result_of(t, 0x8000_0007, 0)) {
        (None, None) => Ok(()),
        (Some(a), Some(b)) => match leaf80000007_supports(&a, &b) {
            Ok(()) => Ok(()),
            Err(e) => Err(IntelCpuidNotSupported::Leaf80000007(e)),
        },
        _ => Err(IntelCpuidNotSupported::MissingLeaf80000007),
    }
}

/// Checks leaf 0x8000_0008 of `s` against leaf 0x8000_0008 of `t`.
fn check_leaf80000008(s: &Entries, t: &Entries) -> (r: Result<(), IntelCpuidNotSupported>)
    ensures
        r == leaf80000008_step(s@, t@),
{
    match (result_of(s, 0x8000_0008, 0), result_of(t, 0x8000_0008, 0)) {
        (None, None) => Ok(()),
        (Some(a), Some(b)) => match leaf80000008_supports(&a, &b) {
            Ok(()) => Ok(()),
            Err(e) => Err(IntelCpuidNotSupported::Leaf80000008(e)),
        },
        _ => Err(IntelCpuidNotSupported::MissingLeaf80000008),
    }
}

/// Checks leaf 0x7 of `s` against leaf 0x7 of `t`.
fn check_leaf7(s: &Entries, t: &Entries) -> (r: Result<(), IntelCpuidNotSupported>)
    ensures
        r == leaf7_step(s@, t@),
{
    match leaf7_supports(
        result_of(s, 0x7, 0),
        result_of(s, 0x7, 1),
        result_of(t, 0x7, 0),
        result_of(t, 0x7, 1),
    ) {
        Ok(()) => Ok(()),
        Err(e) => Err(IntelCpuidNotSupported::Leaf7(e)),
    }
}

/// Checks leaf 0xF of `s` against leaf 0xF of `t`.
fn check_leaff(s: &Entries, t: &Entries) -> (r: Result<(), IntelCpuidNotSupported>)
    ensures
        r == leaff_step(s@, t@),
{
    match leaff_supports(
        result_of(s, 0xF, 0),
        result_of(s, 0xF, 1),
        result_of(t, 0xF, 0),
        result_of(t, 0xF, 1),
    ) {
        Ok(()) => Ok(()),
        Err(e) => Err(IntelCpuidNotSupported::LeafF(e)),
    }
}

/// Checks leaf 0x10 of `s` against leaf 0x10 of `t`.
fn check_leaf10(s: &Entries, t: &Entries) -> (r: Result<(), IntelCpuidNotSupported>)
    ensures
        r == leaf10_step(s@, t@),
{
    match leaf10_supports(
        result_of(s, 0x10, 0),
        result_of(s, 0x10, 1),
        result_of(s, 0x10, 3),
        result_of(t, 0x10, 0),
        result_of(t, 0x10, 1),
        result_of(t, 0x10, 3),
    ) {
        Ok(()) => Ok(()),
        Err(e) => Err(IntelCpuidNotSupported::Leaf10(e)),
    }
}

/// Checks leaf 0x14 of `s` against leaf 0x14 of `t`.
fn check_leaf14(s: &Entries, t: &Entries) -> (r: Result<(), IntelCpuidNotSupported>)
    ensures
        r == leaf14_step(s@, t@),
{
    match leaf14_supports(result_of(s, 0x14, 0), result_of(t, 0x14, 0)) {
        Ok(()) => Ok(()),
        Err(e) => Err(IntelCpuidNotSupported::Leaf14(e)),
    }
}

/// Checks leaf 0x18 of `s` against leaf 0x18 of `t`.
fn check_leaf18(s: &Entries, t: &Entries) -> (r: Result<(), IntelCpuidNotSupported>)
    ensures
        r == leaf18_step(s@, t@),
{
    match leaf18_supports(result_of(s, 0x18, 0), result_of(t, 0x18, 0)) {
        Ok(()) => Ok(()),
        Err(e) => Err(IntelCpuidNotSupported::Leaf18(e)),
    }
}

/// Checks the basic leaves of `s` against those of `t`.
fn check_basic_leaves(s: &Entries, t: &Entries) -> (r: Result<(), IntelCpuidNotSupported>)
    ensures
        r == basic_leaves_verdict(s@, t@),
{
    check_leaf0(s, t)?;
    check_leaf1(s, t)?;
    check_leaf5(s, t)?;
    check_leaf6(s, t)?;
    check_leaf7(s, t)?;
    check_leafa(s, t)
}

/// Checks the leaves 0xF to 0x20 of `s` against those of `t`.
fn check_resource_leaves(s: &Entries, t: &Entries) -> (r: Result<(), IntelCpuidNotSupported>)
    ensures
        r == resource_leaves_verdict(s@, t@),
{
    check_leaff(s, t)?;
    check_leaf10(s, t)?;
    check_leaf14(s, t)?;
    check_leaf18(s, t)?;
    check_leaf19(s, t)?;
    check_leaf1c(s, t)?;
    check_leaf20(s, t)
}

/// Checks the extended leaves of `s` against those of `t`.
fn check_extended_leaves(s: &Entries, t: &Entries) -> (r: Result<(), IntelCpuidNotSupported>)
    ensures
        r == extended_leaves_verdict(s@, t@),
{
    check_leaf80000000(s, t)?;
    check_leaf80000001(s, t)?;
    check_leaf80000007(s, t)?;
    check_leaf80000008(s, t)
}

impl IntelCpuid {
    /// Checks whether this CPUID supports `other`: whether a process from an environment
    /// with CPUID `other` could continue in an environment with this CPUID.
    pub fn supports(&self, other: &Self) -> (r: Result<(), IntelCpuidNotSupported>)
        ensures
            r == intel_verdict(self.0@, other.0@),
    {
        check_basic_leaves(&self.0, &other.0)?;
        check_resource_leaves(&self.0, &other.0)?;
        check_extended_leaves(&self.0, &other.0)
    }
}

/// CPUID `a` supports CPUID `b`: both are Intel and the first supports the second, or both
/// are AMD (whose features are not compared); CPUIDs of different manufacturers are
/// incompatible.
pub open spec fn cpuid_verdict(a: Cpuid, b: Cpuid) -> Result<(), CpuidNotSupported> {
    match (a, b) {
        (Cpuid::Intel(x), Cpuid::Intel(y)) => match intel_verdict(x.0@, y.0@) {
            Ok(()) => Ok(()),
            Err(e) => Err(CpuidNotSupported::Intel(e)),
        },
        (Cpuid::Amd(_), Cpuid::Amd(_)) => Ok(()),
        _ => Err(CpuidNotSupported::Incompatible),
    }
}

impl Cpuid {
    /// Checks whether this CPUID supports `other`: whether a process from an environment
    /// with CPUID `other` could continue in an environment with this CPUID.
    pub fn supports(&self, other: &Self) -> (r: Result<(), CpuidNotSupported>)
        ensures
            r == cpuid_verdict(*self, *other),
    {
        match (self, other) {
            (Cpuid::Intel(a), Cpuid::Intel(b)) => match a.supports(b) {
                Ok(()) => Ok(()),
                Err(e) => Err(CpuidNotSupported::Intel(e)),
            },
            (Cpuid::Amd(a), Cpuid::Amd(b)) => match a.supports(b) {
                Ok(()) => Ok(()),
                Err(e) => Err(CpuidNotSupported::Amd(e)),
            },
            _ => Err(CpuidNotSupported::Incompatible),
        }
    }
}

// ---------------------------------------------------------------------------------------------
// Laws
// ---------------------------------------------------------------------------------------------

/// Every set of feature flags includes itself.
proof fn lemma_cover_reflexive()
    ensures
        forall|a: u32, m: u32| #[trigger] flags_cover(a, a, m),
{
    assert forall|a: u32, m: u32| #[trigger] flags_cover(a, a, m) by {
        assert(a & a & m == a & m) by (bit_vector);
    }
}

/// Inclusion of feature flags is transitive.
proof fn lemma_cover_transitive()
    ensures
        forall|a: u32, b: u32, c: u32, m: u32|
            #![trigger flags_cover(a, b, m), flags_cover(b, c, m)]
            flags_cover(a, b, m) && flags_cover(b, c, m) ==> flags_cover(a, c, m),
{
    assert forall|a: u32, b: u32, c: u32, m: u32|
        flags_cover(a, b, m) && flags_cover(b, c, m) implies flags_cover(a, c, m) by {
        assert(a & b & m == b & m && b & c & m == c & m ==> a & c & m == c & m) by (bit_vector);
    }
}

/// Every Intel CPUID supports itself.
pub proof fn lemma_intel_supports_itself(s: Seq<(CpuidKey, CpuidEntry)>)
    ensures
        intel_verdict(s, s) is Ok,
{
    lemma_cover_reflexive();
}

/// Each leaf's check is transitive: if leaf `a` supports leaf `b` and `b` supports `c`, then
/// `a` supports `c`.
proof fn lemma_leaf_checks_transitive()
    ensures
        forall|a: CCpuidResult, b: CCpuidResult, c: CCpuidResult|
            #![trigger leaf0_supports(a, b), leaf0_supports(b, c)]
            leaf0_supports(a, b) is Ok && leaf0_supports(b, c) is Ok ==> leaf0_supports(a, c) is Ok,
        forall|a: CCpuidResult, b: CCpuidResult, c: CCpuidResult|
            #![trigger leaf1_verdict(a, b), leaf1_verdict(b, c)]
            leaf1_verdict(a, b) is Ok && leaf1_verdict(b, c) is Ok ==> leaf1_verdict(a, c) is Ok,
        forall|a: CCpuidResult, b: CCpuidResult, c: CCpuidResult|
            #![trigger leaf5_verdict(a, b), leaf5_verdict(b, c)]
            leaf5_verdict(a, b) is Ok && leaf5_verdict(b, c) is Ok ==> leaf5_verdict(a, c) is Ok,
        forall|a: CCpuidResult, b: CCpuidResult, c: CCpuidResult|
            #![trigger leaf6_verdict(a, b), leaf6_verdict(b, c)]
            leaf6_verdict(a, b) is Ok && leaf6_verdict(b, c) is Ok ==> leaf6_verdict(a, c) is Ok,
        forall|a: CCpuidResult, b: CCpuidResult, c: CCpuidResult|
            #![trigger leafa_verdict(a, b), leafa_verdict(b, c)]
            leafa_verdict(a, b) is Ok && leafa_verdict(b, c) is Ok ==> leafa_verdict(a, c) is Ok,
        forall|a: CCpuidResult, b: CCpuidResult, c: CCpuidResult|
            #![trigger leaf7_subleaf0_verdict(a, b), leaf7_subleaf0_verdict(b, c)]
            leaf7_subleaf0_verdict(a, b) is Ok && leaf7_subleaf0_verdict(b, c) is Ok ==> leaf7_subleaf0_verdict(a, c) is Ok,
        forall|a: CCpuidResult, b: CCpuidResult, c: CCpuidResult|
            #![trigger leaf7_subleaf1_verdict(a, b), leaf7_subleaf1_verdict(b, c)]
            leaf7_subleaf1_verdict(a, b) is Ok && leaf7_subleaf1_verdict(b, c) is Ok ==> leaf7_subleaf1_verdict(a, c) is Ok,
        forall|a: CCpuidResult, b: CCpuidResult, c: CCpuidResult|
            #![trigger leaff_subleaf0_verdict(a, b), leaff_subleaf0_verdict(b, c)]
            leaff_subleaf0_verdict(a, b) is Ok && leaff_subleaf0_verdict(b, c) is Ok ==> leaff_subleaf0_verdict(a, c) is Ok,
        forall|a: CCpuidResult, b: CCpuidResult, c: CCpuidResult|
            #![trigger leaff_subleaf1_verdict(a, b), leaff_subleaf1_verdict(b, c)]
            leaff_subleaf1_verdict(a, b) is Ok && leaff_subleaf1_verdict(b, c) is Ok ==> leaff_subleaf1_verdict(a, c) is Ok,
        forall|a: CCpuidResult, b: CCpuidResult, c: CCpuidResult|
            #![trigger leaf10_subleaf0_verdict(a, b), leaf10_subleaf0_verdict(b, c)]
            leaf10_subleaf0_verdict(a, b) is Ok && leaf10_subleaf0_verdict(b, c) is Ok ==> leaf10_subleaf0_verdict(a, c) is Ok,
        forall|a: CCpuidResult, b: CCpuidResult, c: CCpuidResult|
            #![trigger leaf10_subleaf1_verdict(a, b), leaf10_subleaf1_verdict(b, c)]
            leaf10_subleaf1_verdict(a, b) is Ok && leaf10_subleaf1_verdict(b, c) is Ok ==> leaf10_subleaf1_verdict(a, c) is Ok,
        forall|a: CCpuidResult, b: CCpuidResult, c: CCpuidResult|
            #![trigger leaf10_subleaf3_verdict(a, b), leaf10_subleaf3_verdict(b, c)]
            leaf10_subleaf3_verdict(a, b) is Ok && leaf10_subleaf3_verdict(b, c) is Ok ==> leaf10_subleaf3_verdict(a, c) is Ok,
        forall|a: CCpuidResult, b: CCpuidResult, c: CCpuidResult|
            #![trigger leaf14_subleaf0_verdict(a, b), leaf14_subleaf0_verdict(b, c)]
            leaf14_subleaf0_verdict(a, b) is Ok && leaf14_subleaf0_verdict(b, c) is Ok ==> leaf14_subleaf0_verdict(a, c) is Ok,
        forall|a: CCpuidResult, b: CCpuidResult, c: CCpuidResult|
            #![trigger leaf18_subleaf0_verdict(a, b), leaf18_subleaf0_verdict(b, c)]
            leaf18_subleaf0_verdict(a, b) is Ok && leaf18_subleaf0_verdict(b, c) is Ok ==> leaf18_subleaf0_verdict(a, c) is Ok,
        forall|a: CCpuidResult, b: CCpuidResult, c: CCpuidResult|
            #![trigger leaf19_verdict(a, b), leaf19_verdict(b, c)]
            leaf19_verdict(a, b) is Ok && leaf19_verdict(b, c) is Ok ==> leaf19_verdict(a, c) is Ok,
        forall|a: CCpuidResult, b: CCpuidResult, c: CCpuidResult|
            #![trigger leaf1c_verdict(a, b), leaf1c_verdict(b, c)]
            leaf1c_verdict(a, b) is Ok && leaf1c_verdict(b, c) is Ok ==> leaf1c_verdict(a, c) is Ok,
        forall|a: CCpuidResult, b: CCpuidResult, c: CCpuidResult|
            #![trigger leaf20_verdict(a, b), leaf20_verdict(b, c)]
            leaf20_verdict(a, b) is Ok && leaf20_verdict(b, c) is Ok ==> leaf20_verdict(a, c) is Ok,
        forall|a: CCpuidResult, b: CCpuidResult, c: CCpuidResult|
            #![trigger leaf80000000_verdict(a, b), leaf80000000_verdict(b, c)]
            leaf80000000_verdict(a, b) is Ok && leaf80000000_verdict(b, c) is Ok ==> leaf80000000_verdict(a, c) is Ok,
        forall|a: CCpuidResult, b: CCpuidResult, c: CCpuidResult|
            #![trigger leaf80000001_verdict(a, b), leaf80000001_verdict(b, c)]
            leaf80000001_verdict(a, b) is Ok && leaf80000001_verdict(b, c) is Ok ==> leaf80000001_verdict(a, c) is Ok,
        forall|a: CCpuidResult, b: CCpuidResult, c: CCpuidResult|
            #![trigger leaf80000007_verdict(a, b), leaf80000007_verdict(b, c)]
            leaf80000007_verdict(a, b) is Ok && leaf80000007_verdict(b, c) is Ok ==> leaf80000007_verdict(a, c) is Ok,
        forall|a: CCpuidResult, b: CCpuidResult, c: CCpuidResult|
            #![trigger leaf80000008_verdict(a, b), leaf80000008_verdict(b, c)]
            leaf80000008_verdict(a, b) is Ok && leaf80000008_verdict(b, c) is Ok ==> leaf80000008_verdict(a, c) is Ok,
{
    lemma_cover_transitive();
}

/// Each step of the comparison of the basic leaves of two Intel CPUIDs is transitive.
proof fn lemma_basic_steps_transitive(
    s: Seq<(CpuidKey, CpuidEntry)>,
    t: Seq<(CpuidKey, CpuidEntry)>,
    u: Seq<(CpuidKey, CpuidEntry)>,
)
    ensures
        leaf0_step(s, t) is Ok && leaf0_step(t, u) is Ok ==> leaf0_step(s, u) is Ok,
        leaf1_step(s, t) is Ok && leaf1_step(t, u) is Ok ==> leaf1_step(s, u) is Ok,
        leaf5_step(s, t) is Ok && leaf5_step(t, u) is Ok ==> leaf5_step(s, u) is Ok,
        leaf6_step(s, t) is Ok && leaf6_step(t, u) is Ok ==> leaf6_step(s, u) is Ok,
        leaf7_step(s, t) is Ok && leaf7_step(t, u) is Ok ==> leaf7_step(s, u) is Ok,
        leafa_step(s, t) is Ok && leafa_step(t, u) is Ok ==> leafa_step(s, u) is Ok,
{
    lemma_leaf_checks_transitive();
}

/// Each step of the comparison of the resource leaves of two Intel CPUIDs is transitive.
proof fn lemma_resource_steps_transitive(
    s: Seq<(CpuidKey, CpuidEntry)>,
    t: Seq<(CpuidKey, CpuidEntry)>,
    u: Seq<(CpuidKey, CpuidEntry)>,
)
    ensures
        leaff_step(s, t) is Ok && leaff_step(t, u) is Ok ==> leaff_step(s, u) is Ok,
        leaf10_step(s, t) is Ok && leaf10_step(t, u) is Ok ==> leaf10_step(s, u) is Ok,
        leaf14_step(s, t) is Ok && leaf14_step(t, u) is Ok ==> leaf14_step(s, u) is Ok,
        leaf18_step(s, t) is Ok && leaf18_step(t, u) is Ok ==> leaf18_step(s, u) is Ok,
        leaf19_step(s, t) is Ok && leaf19_step(t, u) is Ok ==> leaf19_step(s, u) is Ok,
        leaf1c_step(s, t) is Ok && leaf1c_step(t, u) is Ok ==> leaf1c_step(s, u) is Ok,
        leaf20_step(s, t) is Ok && leaf20_step(t, u) is Ok ==> leaf20_step(s, u) is Ok,
{
    lemma_leaf_checks_transitive();
}

/// Each step of the comparison of the extended leaves of two Intel CPUIDs is transitive.
proof fn lemma_extended_steps_transitive(
    s: Seq<(CpuidKey, CpuidEntry)>,
    t: Seq<(CpuidKey, CpuidEntry)>,
    u: Seq<(CpuidKey, CpuidEntry)>,
)
    ensures
        leaf80000000_step(s, t) is Ok && leaf80000000_step(t, u) is Ok ==> leaf80000000_step(s, u) is Ok,
        leaf80000001_step(s, t) is Ok && leaf80000001_step(t, u) is Ok ==> leaf80000001_step(s, u) is Ok,
        leaf80000007_step(s, t) is Ok && leaf80000007_step(t, u) is Ok ==> leaf80000007_step(s, u) is Ok,
        leaf80000008_step(s, t) is Ok && leaf80000008_step(t, u) is Ok ==> leaf80000008_step(s, u) is Ok,
{
    lemma_leaf_checks_transitive();
}

/// Support between Intel CPUIDs is transitive: if `s` supports `t` and `t` supports `u`, then
/// `s` supports `u`.
pub proof fn lemma_intel_supports_transitive(
    s: Seq<(CpuidKey, CpuidEntry)>,
    t: Seq<(CpuidKey, CpuidEntry)>,
    u: Seq<(CpuidKey, CpuidEntry)>,
)
    requires
        intel_verdict(s, t) is Ok,
        intel_verdict(t, u) is Ok,
    ensures
        intel_verdict(s, u) is Ok,
{
    lemma_basic_steps_transitive(s, t, u);
    lemma_resource_steps_transitive(s, t, u);
    lemma_extended_steps_transitive(s, t, u);
}

/// Every CPUID supports itself.
pub proof fn lemma_cpuid_supports_itself(c: Cpuid)
    ensures
        cpuid_verdict(c, c) is Ok,
{
    if let Cpuid::Intel(x) = c {
        lemma_intel_supports_itself(x.0@);
    }
}

/// Support between CPUIDs is transitive: if `a` supports `b` and `b` supports `c`, then `a`
/// supports `c`.
pub proof fn lemma_cpuid_supports_transitive(a: Cpuid, b: Cpuid, c: Cpuid)
    requires
        cpuid_verdict(a, b) is Ok,
        cpuid_verdict(b, c) is Ok,
    ensures
        cpuid_verdict(a, c) is Ok,
{
    if let (Cpuid::Intel(x), Cpuid::Intel(y), Cpuid::Intel(z)) = (a, b, c) {
        lemma_intel_supports_transitive(x.0@, y.0@, z.0@);
    }
}

// ---------------------------------------------------------------------------------------------
// Leaves made of subleaves
// ---------------------------------------------------------------------------------------------

/// The registers a possibly missing reference points to.
pub open spec fn deref_opt(r: Option<&CCpuidResult>) -> Option<CCpuidResult> {
    match r {
        Some(x) => Some(*x),
        None => None,
    }
}

/// Copies the registers a possibly missing reference points to.
fn copied(r: Option<&CCpuidResult>) -> (c: Option<CCpuidResult>)
    ensures
        c == deref_opt(r),
{
    match r {
        Some(x) => Some(*x),
        None => None,
    }
}

/// Leaf 0x7 of a CPUID: its subleaves 0 and 1, each possibly missing.
#[derive(Debug, Clone, Copy, PartialEq, Eq)]
pub struct Leaf7<'a>(pub Option<&'a CCpuidResult>, pub Option<&'a CCpuidResult>);

/// Leaf 0xF of a CPUID: its subleaves 0 and 1, each possibly missing.
#[derive(Debug, Clone, Copy, PartialEq, Eq)]
pub struct LeafF<'a>(pub Option<&'a CCpuidResult>, pub Option<&'a CCpuidResult>);

/// Leaf 0x10 of a CPUID: its subleaves 0 to 3, each possibly missing.
#[derive(Debug, Clone, Copy, PartialEq, Eq)]
pub struct Leaf10<'a>(
    pub Option<&'a CCpuidResult>,
    pub Option<&'a CCpuidResult>,
    pub Option<&'a CCpuidResult>,
    pub Option<&'a CCpuidResult>,
);

/// Leaf 0x14 of a CPUID: its subleaves 0 and 1, each possibly missing.
#[derive(Debug, Clone, Copy, PartialEq, Eq)]
pub struct Leaf14<'a>(pub Option<&'a CCpuidResult>, pub Option<&'a CCpuidResult>);

impl Leaf7<'_> {
    /// Checks whether this leaf 0x7 supports `other` (see [`leaf7_verdict`]).
    pub fn supports(&self, other: &Self) -> (r: Result<(), Leaf7NotSupported>)
        ensures
            r == leaf7_verdict(
                deref_opt(self.0),
                deref_opt(self.1),
                deref_opt(other.0),
                deref_opt(other.1),
            ),
    {
        leaf7_supports(copied(self.0), copied(self.1), copied(other.0), copied(other.1))
    }
}

impl LeafF<'_> {
    /// Checks whether this leaf 0xF supports `other` (see [`leaff_verdict`]).
    pub fn supports(&self, other: &Self) -> (r: Result<(), LeafFNotSupported>)
        ensures
            r == leaff_verdict(
                deref_opt(self.0),
                deref_opt(self.1),
                deref_opt(other.0),
                deref_opt(other.1),
            ),
    {
        leaff_supports(copied(self.0), copied(self.1), copied(other.0), copied(other.1))
    }
}

impl Leaf10<'_> {
    /// Checks whether this leaf 0x10 supports `other` (see [`leaf10_verdict`]); subleaf 2 is
    /// not compared.
    pub fn supports(&self, other: &Self) -> (r: Result<(), Leaf10NotSupported>)
        ensures
            r == leaf10_verdict(
                deref_opt(self.0),
                deref_opt(self.1),
                deref_opt(self.3),
                deref_opt(other.0),
                deref_opt(other.1),
                deref_opt(other.3),
            ),
    {
        leaf10_supports(
            copied(self.0),
            copied(self.1),
            copied(self.3),
            copied(other.0),
            copied(other.1),
            copied(other.3),
        )
    }
}

impl Leaf14<'_> {
    /// Checks whether this leaf 0x14 supports `other` (see [`leaf14_verdict`]); subleaf 1 is
    /// not compared.
    pub fn supports(&self, other: &Self) -> (r: Result<(), Leaf14NotSupported>)
        ensures
            r == leaf14_verdict(deref_opt(self.0), deref_opt(other.0)),
    {
        leaf14_supports(copied(self.0), copied(other.0))
    }
}

/// Leaf 0x80000001 of `a` supports that of `b` exactly when `a` offers every extended
/// feature `b` offers: no ECX or EDX feature flag set in `b` is clear in `a`. A missing ECX
/// flag is reported first, then a missing EDX one.
pub proof fn lemma_leaf80000001_features(a: CCpuidResult, b: CCpuidResult)
    ensures
        leaf80000001_verdict(a, b) == (if b.ecx & LEAF80000001_ECX_FLAGS & !a.ecx != 0 {
            Err::<(), Leaf80000001NotSupported>(Leaf80000001NotSupported::Ecx)
        } else if b.edx & LEAF80000001_EDX_FLAGS & !a.edx != 0 {
            Err(Leaf80000001NotSupported::Edx)
        } else {
            Ok(())
        }),
{
    let (ac, bc, ad, bd) = (a.ecx, b.ecx, a.edx, b.edx);
    let fc = LEAF80000001_ECX_FLAGS;
    let fd = LEAF80000001_EDX_FLAGS;
    assert((ac & bc & fc == bc & fc) == (bc & fc & !ac == 0)) by (bit_vector);
    assert((ad & bd & fd == bd & fd) == (bd & fd & !ad == 0)) by (bit_vector);
}

} // verus!
