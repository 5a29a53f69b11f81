use machine::amount::U256;
use machine::client::{EngineClient, HeaderRecord, MemoryClient, TransactionRecord};
use machine::log_details::{
    enrich, timestamp, value, LocalizedLogEntry, LogDetails, LogEntry, LogType,
};

fn entry() -> LogEntry {
    LogEntry { address: [4u8; 20], topics: vec![[5u8; 32]], data: vec![1, 2, 3] }
}

fn localized(transaction_hash: [u8; 32], block_hash: [u8; 32]) -> LocalizedLogEntry {
    LocalizedLogEntry {
        entry: entry(),
        block_hash,
        block_number: 12,
        transaction_hash,
        transaction_index: 1,
        log_index: 2,
        transaction_log_index: 0,
    }
}

fn client() -> MemoryClient {
    let mut c = MemoryClient::new();
    c.insert_transaction([0x11u8; 32], TransactionRecord { value: U256::from_u64(1000) });
    c.insert_header([0x22u8; 32], HeaderRecord { timestamp: 1_600_000_000 });
    c
}

#[test]
fn mined_log_enrichment() {
    let c = client();
    let log = LogDetails::from(localized([0x11u8; 32], [0x22u8; 32]));
    let out = enrich(&c, log);
    assert_eq!(out.value, Some(U256::from_u64(1000)));
    assert_eq!(out.timestamp, Some(1_600_000_000));
    assert_eq!(out.log_type, LogType::Mined);
    assert_eq!(out.log_type.as_str(), "mined");
}

#[test]
fn pending_log_enrichment() {
    let c = client();
    let log = LogDetails::from(entry());
    let out = enrich(&c, log);
    assert_eq!(out.value, None);
    assert_eq!(out.timestamp, None);
    assert_eq!(out.log_type, LogType::Pending);
    assert_eq!(out.log_type.as_str(), "pending");
}

#[test]
fn unresolvable_link() {
    let c = client();
    let log = LogDetails::from(localized([0x33u8; 32], [0x22u8; 32]));
    assert_eq!(value(&c, &log), None);
    assert_eq!(timestamp(&c, &log), Some(1_600_000_000));
    let out = enrich(&c, log);
    assert_eq!(out.value, None);
    assert_eq!(out.timestamp, Some(1_600_000_000));
    assert_eq!(out.log_type, LogType::Mined);
}

#[test]
fn conversions_copy_fields() {
    let mined = LogDetails::from(localized([0x11u8; 32], [0x22u8; 32]));
    assert_eq!(mined.address, [4u8; 20]);
    assert_eq!(mined.topics, vec![[5u8; 32]]);
    assert_eq!(mined.data, vec![1, 2, 3]);
    assert_eq!(mined.block_hash, Some([0x22u8; 32]));
    assert_eq!(mined.block_number, Some(U256::from_u64(12)));
    assert_eq!(mined.transaction_hash, Some([0x11u8; 32]));
    assert_eq!(mined.transaction_index, Some(U256::from_u64(1)));
    assert_eq!(mined.log_index, Some(U256::from_u64(2)));
    assert_eq!(mined.transaction_log_index, Some(U256::from_u64(0)));
    assert_eq!(mined.value, None);
    assert_eq!(mined.timestamp, None);
    let pending = LogDetails::from(entry());
    assert_eq!(pending.address, [4u8; 20]);
    assert_eq!(pending.block_hash, None);
    assert_eq!(pending.transaction_hash, None);
    assert_eq!(pending.log_index, None);
}

#[test]
fn client_first_record_wins() {
    let mut c = client();
    c.insert_transaction([0x11u8; 32], TransactionRecord { value: U256::from_u64(5) });
    assert_eq!(c.transaction(&[0x11u8; 32]), Some(TransactionRecord { value: U256::from_u64(1000) }));
    assert_eq!(c.block_header(&[0x23u8; 32]), None);
}
