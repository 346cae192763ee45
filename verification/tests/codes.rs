use flashdb_rs::dispatch::{dispatch_status, vtable_result_code, MediumOp};
use flashdb_rs::error::{
    Error, FDB_ERASE_ERR, FDB_INIT_FAILED, FDB_KV_NAME_ERR, FDB_KV_NAME_EXIST, FDB_NO_ERR,
    FDB_PART_NOT_FOUND, FDB_READ_ERR, FDB_SAVED_FULL, FDB_WRITE_ERR,
};
use flashdb_rs::time::{current_timestamp, FlashDBTime};

#[test]
fn error_codes_map_to_errors() {
    assert_eq!(Error::from_code(FDB_NO_ERR), Error::NoError);
    assert_eq!(Error::from_code(FDB_ERASE_ERR), Error::EraseError);
    assert_eq!(Error::from_code(FDB_READ_ERR), Error::ReadError);
    assert_eq!(Error::from_code(FDB_WRITE_ERR), Error::WriteError);
    assert_eq!(Error::from_code(FDB_PART_NOT_FOUND), Error::PartNotFound);
    assert_eq!(Error::from_code(FDB_KV_NAME_ERR), Error::KvNameError);
    assert_eq!(Error::from_code(FDB_KV_NAME_EXIST), Error::KvNameExist);
    assert_eq!(Error::from_code(FDB_SAVED_FULL), Error::SavedFull);
    assert_eq!(Error::from_code(FDB_INIT_FAILED), Error::InitFailed);
    // An unrecognized code maps to a generic unknown kind, not a panic.
    assert_eq!(Error::from_code(1234), Error::UnknownError);
}

#[test]
fn convert_splits_on_success_code() {
    assert_eq!(Error::convert(FDB_NO_ERR), Ok(()));
    assert_eq!(Error::convert(FDB_READ_ERR), Err(Error::ReadError));
    assert_eq!(Error::convert(77), Err(Error::UnknownError));
}

#[test]
fn check_and_return_carries_the_value() {
    assert_eq!(Error::check_and_return(FDB_NO_ERR, 42), Ok(42));
    assert_eq!(Error::check_and_return(FDB_SAVED_FULL, 42), Err(Error::SavedFull));
}

#[test]
fn vtable_codes_are_two_state() {
    assert_eq!(vtable_result_code(true), 0);
    assert_eq!(vtable_result_code(false), -1);
}

#[test]
fn dispatch_status_names_the_failed_operation() {
    assert_eq!(dispatch_status(0, MediumOp::Read), FDB_NO_ERR);
    assert_eq!(dispatch_status(0, MediumOp::Write), FDB_NO_ERR);
    assert_eq!(dispatch_status(0, MediumOp::Erase), FDB_NO_ERR);
    assert_eq!(dispatch_status(-1, MediumOp::Read), FDB_READ_ERR);
    assert_eq!(dispatch_status(-1, MediumOp::Write), FDB_WRITE_ERR);
    assert_eq!(dispatch_status(-1, MediumOp::Erase), FDB_ERASE_ERR);
    assert_eq!(dispatch_status(7, MediumOp::Read), FDB_READ_ERR);
}

#[test]
fn timestamps_round_trip_and_never_go_negative() {
    let t = FlashDBTime::from_raw(1686451200);
    assert_eq!(t.as_raw(), 1686451200);
    assert_eq!(FlashDBTime::from_raw(-5).as_raw(), -5);
    assert!(FlashDBTime::now().as_raw() >= 0);
    assert!(current_timestamp() >= 0);
}
