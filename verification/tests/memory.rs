use abiv2::memory::{element_address, mapping_ptr, TRANSACTION_ACCOUNTS_ADDRESS, TRANSACTION_ACCOUNTS_PAYLOAD_ADDRESS};
use abiv2::sysvar;
use abiv2::hint::{likely, unlikely};
use abiv2::Volatile;

#[test]
fn element_and_mapping_addresses() {
    assert_eq!(element_address::<u64>(TRANSACTION_ACCOUNTS_ADDRESS, 3), TRANSACTION_ACCOUNTS_ADDRESS + 24);
    assert_eq!(mapping_ptr(TRANSACTION_ACCOUNTS_PAYLOAD_ADDRESS, 2), 0xA_0000_0000);
    assert_eq!(sysvar::address(5), TRANSACTION_ACCOUNTS_PAYLOAD_ADDRESS + 4083 * 0x1_0000_0000);
}

#[test]
fn hints_return_their_argument() {
    assert!(likely(true));
    assert!(!likely(false));
    assert!(unlikely(true));
    assert!(!unlikely(false));
}

#[test]
fn volatile_reads_what_was_written() {
    let mut v = Volatile::new(3u64);
    assert_eq!(v.get(), 3);
    v.set(8);
    assert_eq!(v.get(), 8);
}
