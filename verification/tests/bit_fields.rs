use firecracker::bit_fields::{
    checked_add_assign, checked_assign, checked_sub_assign, get, set_flag, CheckedAddAssignError,
    CheckedAssignError, CheckedSubAssignError,
};

#[test]
fn assign_and_read_back() {
    let mut x: u32 = 0xffff_ffff;
    assert_eq!(checked_assign(&mut x, 8, 8, 0x12), Ok(()));
    assert_eq!(x, 0xffff_12ff);
    assert_eq!(get(x, 8, 8), 0x12);
    assert_eq!(checked_assign(&mut x, 8, 8, 0x100), Err(CheckedAssignError));
    assert_eq!(x, 0xffff_12ff);
    assert_eq!(checked_assign(&mut x, 0, 32, 7), Ok(()));
    assert_eq!(x, 7);
}

#[test]
fn add_and_sub() {
    let mut x: u32 = 0;
    assert_eq!(checked_add_assign(&mut x, 4, 4, 9), Ok(()));
    assert_eq!(get(x, 4, 4), 9);
    assert_eq!(checked_add_assign(&mut x, 4, 4, 7), Err(CheckedAddAssignError::Overflow));
    assert_eq!(checked_add_assign(&mut x, 4, 4, 16), Err(CheckedAddAssignError::OutOfRange));
    assert_eq!(checked_sub_assign(&mut x, 4, 4, 10), Err(CheckedSubAssignError::Underflow));
    assert_eq!(checked_sub_assign(&mut x, 4, 4, 20), Err(CheckedSubAssignError::OutOfRange));
    assert_eq!(checked_sub_assign(&mut x, 4, 4, 9), Ok(()));
    assert_eq!(x, 0);
}

#[test]
fn flags() {
    let mut x: u32 = 0;
    set_flag(&mut x, 31, true);
    set_flag(&mut x, 3, true);
    assert_eq!(x, 0x8000_0008);
    set_flag(&mut x, 31, false);
    assert_eq!(x, 8);
}
