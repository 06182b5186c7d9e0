use gitjobs_server::db::{has_timed_out, TxRegistry, TX_CLIENT_NOT_FOUND, TXS_CLIENT_TIMEOUT_NANOS};

const SEC: i128 = 1_000_000_000;

#[test]
fn timeout_is_ten_seconds() {
    assert_eq!(TXS_CLIENT_TIMEOUT_NANOS, 10 * SEC);
    assert!(!has_timed_out(0, 10 * SEC));
    assert!(has_timed_out(0, 10 * SEC + 1));
    assert!(!has_timed_out(5 * SEC, 0));
    assert!(has_timed_out(i128::MIN, i128::MAX));
    assert!(!has_timed_out(i128::MAX, i128::MIN));
}

#[test]
fn begun_transaction_client_is_taken_back_once() {
    let mut reg: TxRegistry<&str> = TxRegistry::new();
    let a = reg.begin("client-a", 0);
    let b = reg.begin("client-b", 0);
    assert_ne!(a, b);
    assert!(reg.contains(a));
    assert_eq!(reg.take(a), Ok("client-a"));
    assert!(!reg.contains(a));
    let err = reg.take(a).unwrap_err();
    assert_eq!(err.message(), TX_CLIENT_NOT_FOUND);
    assert_eq!(reg.take(b), Ok("client-b"));
}

#[test]
fn cleaner_discards_only_timed_out_clients() {
    let mut reg: TxRegistry<u32> = TxRegistry::new();
    reg.track(1, 10, 0);
    reg.track(2, 20, 5 * SEC);
    reg.track(3, 30, 12 * SEC);
    let mut expired = reg.timed_out_clients(16 * SEC);
    expired.sort();
    assert_eq!(expired, vec![1, 2]);
    reg.discard_timed_out(15 * SEC);
    assert!(!reg.contains(1));
    assert!(reg.contains(2));
    assert!(reg.contains(3));
    reg.discard_timed_out(100 * SEC);
    assert!(!reg.contains(2));
    assert!(!reg.contains(3));
    assert!(reg.take(3).is_err());
}

#[test]
fn kept_client_is_read_without_being_taken() {
    let mut reg: TxRegistry<&str> = TxRegistry::new();
    reg.track(7, "client-7", 0);
    assert_eq!(reg.get(7), Ok(&"client-7"));
    assert!(reg.contains(7));
    assert_eq!(reg.get(8).unwrap_err().message(), TX_CLIENT_NOT_FOUND);
    assert_eq!(reg.take(7), Ok("client-7"));
    assert!(reg.get(7).is_err());
}
