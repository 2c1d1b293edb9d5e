//! The CLINT register model and the return-pair helpers.

use d1_see::binary::{SbiRet, RET_ERR_INVALID_PARAM, RET_ERR_NOT_SUPPORTED, RET_SUCCESS};
use d1_see::clint::{msip, mtimecmp, ssip, ClintState};

#[test]
fn clint_triggers_set_and_clear() {
    let mut c = ClintState { msip: false, ssip: false, mtimecmp: 0 };
    msip::set(&mut c);
    assert!(c.msip && !c.ssip);
    ssip::set(&mut c);
    assert!(c.msip && c.ssip);
    msip::clear(&mut c);
    assert!(!c.msip && c.ssip);
    ssip::clear(&mut c);
    assert!(!c.msip && !c.ssip);
    mtimecmp::write(&mut c, 0xABCD_EF01_2345_6789);
    assert_eq!(c.mtimecmp, 0xABCD_EF01_2345_6789);
    assert!(!c.msip && !c.ssip);
}

#[test]
fn return_pair_helpers() {
    assert_eq!(SbiRet::success(9), SbiRet { error: RET_SUCCESS, value: 9 });
    assert_eq!(SbiRet::not_supported(), SbiRet { error: RET_ERR_NOT_SUPPORTED, value: 0 });
    assert_eq!(SbiRet::invalid_param(), SbiRet { error: RET_ERR_INVALID_PARAM, value: 0 });
    assert!(SbiRet::success(9).is_ok());
    assert!(!SbiRet::not_supported().is_ok());
    assert_eq!(RET_ERR_NOT_SUPPORTED, (-2isize) as usize);
    assert_eq!(RET_ERR_INVALID_PARAM, (-3isize) as usize);
}
