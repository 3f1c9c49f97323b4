use elega_core::text::log_storage_amount;
use elega_core::text::log_total_stored_in_storage;
use elega_core::text::usize_to_string;

#[test]
fn decimal_rendering_is_exact() {
    assert_eq!(usize_to_string(0), "0");
    assert_eq!(usize_to_string(7), "7");
    assert_eq!(usize_to_string(10), "10");
    assert_eq!(usize_to_string(48), "48");
    assert_eq!(usize_to_string(40960), "40960");
    assert_eq!(usize_to_string(1234567890), "1234567890");
}

#[test]
fn storage_amount_phrase_is_exact() {
    assert_eq!(log_storage_amount(8, 0), "8 bytes stored at 0 in temporary storage\n");
    assert_eq!(log_storage_amount(40, 8), "40 bytes stored at 8 in temporary storage\n");
}

#[test]
fn total_stored_phrase_is_exact() {
    assert_eq!(
        log_total_stored_in_storage(48),
        "Total stored in temporary storage: 48\n"
    );
    assert_eq!(log_total_stored_in_storage(0), "Total stored in temporary storage: 0\n");
}
