use abiv2::account::Account;

#[test]
fn test_readonly_account_flags() {
    let view = Account::readonly(42);

    assert_eq!(view.transaction_index(), 42);
    assert!(!view.is_signer());
    assert!(!view.is_writable());
}

#[test]
fn test_readonly_signer_account_flags() {
    let view = Account::readonly_signer(42);

    assert_eq!(view.transaction_index(), 42);
    assert!(view.is_signer());
    assert!(!view.is_writable());
}

#[test]
fn test_writable_account_flags() {
    let view = Account::writable(420);

    assert_eq!(view.transaction_index(), 420);
    assert!(!view.is_signer());
    assert!(view.is_writable());
}

#[test]
fn test_writable_signer_account_flags() {
    let view = Account::writable_signer(420);

    assert_eq!(view.transaction_index(), 420);
    assert!(view.is_signer());
    assert!(view.is_writable());
}

#[test]
fn new_packs_every_flag_combination() {
    for index in [0u16, 1, 255, 4087, u16::MAX] {
        for signer in [false, true] {
            for writable in [false, true] {
                let account = Account::new(index, signer, writable);
                assert_eq!(account.transaction_index(), index);
                assert_eq!(account.is_signer(), signer);
                assert_eq!(account.is_writable(), writable);
            }
        }
    }
}

#[test]
fn constructors_agree_with_new() {
    let pairs = [
        (Account::readonly(7), Account::new(7, false, false)),
        (Account::readonly_signer(7), Account::new(7, true, false)),
        (Account::writable(7), Account::new(7, false, true)),
        (Account::writable_signer(7), Account::new(7, true, true)),
    ];
    for (a, b) in pairs {
        assert_eq!(a.transaction_index(), b.transaction_index());
        assert_eq!(a.is_signer(), b.is_signer());
        assert_eq!(a.is_writable(), b.is_writable());
    }
}
