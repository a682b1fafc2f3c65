use odbc2parquet::batch_size_limit::{BatchSizeLimit, EffectiveRows, FileSizeLimit};
use odbc2parquet::error::ExportError;

#[test]
fn no_caps_leave_the_choice_to_the_driver() {
    let limit = BatchSizeLimit::new(None, None);
    assert_eq!(limit.effective_rows(100), Ok(EffectiveRows::DriverDefault));
}

#[test]
fn row_cap_alone_is_taken_as_given() {
    let limit = BatchSizeLimit::new(Some(1000), None);
    assert_eq!(limit.effective_rows(1 << 20), Ok(EffectiveRows::Rows(1000)));
}

#[test]
fn byte_cap_alone_divides_by_the_row_footprint() {
    let limit = BatchSizeLimit::new(None, Some(1000));
    assert_eq!(limit.effective_rows(300), Ok(EffectiveRows::Rows(3)));
}

#[test]
fn both_caps_take_the_smaller() {
    let limit = BatchSizeLimit::new(Some(5), Some(1000));
    assert_eq!(limit.effective_rows(300), Ok(EffectiveRows::Rows(3)));
    assert_eq!(limit.effective_rows(100), Ok(EffectiveRows::Rows(5)));
}

#[test]
fn row_larger_than_byte_cap_is_rejected() {
    let both = BatchSizeLimit::new(Some(5), Some(1000));
    assert_eq!(both.effective_rows(1001), Err(ExportError::InvalidConfiguration));
    let bytes_only = BatchSizeLimit::new(None, Some(1000));
    assert_eq!(bytes_only.effective_rows(1001), Err(ExportError::InvalidConfiguration));
    assert_eq!(bytes_only.effective_rows(1000), Ok(EffectiveRows::Rows(1)));
}

#[test]
fn zero_row_cap_is_raised_to_one() {
    let limit = BatchSizeLimit::new(Some(0), None);
    assert_eq!(limit.effective_rows(8), Ok(EffectiveRows::Rows(1)));
}

#[test]
fn file_size_limit_axes() {
    let none = FileSizeLimit::new(0, None);
    assert!(!none.output_is_splitted());
    assert!(!none.should_start_new_file(7, u64::MAX));
    let groups = FileSizeLimit::new(2, None);
    assert!(groups.output_is_splitted());
    assert!(!groups.should_start_new_file(1, 1 << 40));
    assert!(groups.should_start_new_file(2, 0));
    let bytes = FileSizeLimit::new(0, Some(4096));
    assert!(bytes.output_is_splitted());
    assert!(!bytes.should_start_new_file(100, 4095));
    assert!(bytes.should_start_new_file(1, 4096));
}
