use machine::amount::U256;
use machine::block::{LiveBlock, SimpleBlock, Transactions};
use machine::header::{Address, Header, ScoredHeader, SimpleHeader};
use machine::machine::{MachineError, SimpleMachine, WithBalances};

fn sample_header(number: u64) -> SimpleHeader {
    SimpleHeader::new([7u8; 32], [3u8; 20], number, 1_600_000_000, U256::from_u64(131_072))
}

#[test]
fn hashes_are_deterministic() {
    let mut h = sample_header(42);
    h.set_seal(vec![vec![1, 2, 3], vec![4]]);
    assert_eq!(h.bare_hash(), h.bare_hash());
    assert_eq!(h.hash(), h.hash());
    let copy = h.clone();
    assert_eq!(h.bare_hash(), copy.bare_hash());
    assert_eq!(h.hash(), copy.hash());
}

#[test]
fn bare_hash_ignores_seal() {
    let mut a = sample_header(42);
    let mut b = sample_header(42);
    a.set_seal(vec![vec![1, 2, 3]]);
    b.set_seal(vec![vec![1, 2, 4]]);
    assert_eq!(a.bare_hash(), b.bare_hash());
    assert_ne!(a.hash(), b.hash());
    let empty = sample_header(42);
    assert_eq!(empty.bare_hash(), a.bare_hash());
    assert_ne!(empty.hash(), a.hash());
}

#[test]
fn seal_split_changes_hash() {
    let mut a = sample_header(1);
    let mut b = sample_header(1);
    a.set_seal(vec![vec![1, 2], vec![3]]);
    b.set_seal(vec![vec![1], vec![2, 3]]);
    assert_ne!(a.hash(), b.hash());
}

#[test]
fn bare_hash_is_keccak_of_fields() {
    let h = sample_header(5);
    let bytes = h.encode_bare();
    assert_eq!(bytes.len(), 32 + 20 + 8 + 8);
    assert_eq!(&bytes[52..60], &[0, 0, 0, 0, 0, 0, 0, 5]);
    assert_eq!(h.bare_hash(), keccak_hash::keccak(&bytes).0);
    assert_ne!(&h.bare_hash()[..], &bytes[..32]);
    let full = h.encode_full();
    assert_eq!(full, bytes);
    assert_eq!(h.hash(), h.bare_hash());
}

#[test]
fn full_encoding_appends_records_with_lengths() {
    let mut h = sample_header(5);
    h.set_seal(vec![vec![9, 8]]);
    let full = h.encode_full();
    let bare = h.encode_bare();
    assert_eq!(&full[..bare.len()], &bare[..]);
    assert_eq!(&full[bare.len()..], &[9, 8, 0, 0, 0, 0, 0, 0, 0, 2]);
    assert_eq!(h.hash(), keccak_hash::keccak(&full).0);
}

#[test]
fn header_accessors() {
    let mut h = sample_header(42);
    h.set_seal(vec![vec![0xaa], vec![]]);
    assert_eq!(h.number(), 42);
    assert_eq!(h.author(), &[3u8; 20]);
    assert_eq!(h.seal(), &[vec![0xaa], vec![]][..]);
}

#[test]
fn score_round_trip() {
    let mut h = sample_header(1);
    let before = h.hash();
    let big = U256 { words: [u64::MAX, 5, 0, u64::MAX] };
    h.set_score(big);
    assert_eq!(*h.score(), big);
    h.set_score(U256::zero());
    assert_eq!(*h.score(), U256::zero());
    assert_eq!(h.hash(), before);
}

#[test]
fn live_block_views() {
    let header = sample_header(10);
    let uncles = vec![sample_header(8), sample_header(9)];
    let mut live = SimpleBlock::new(header.clone(), uncles.clone());
    assert_eq!(live.header().hash(), header.hash());
    assert_eq!(live.uncles().len(), 2);
    assert_eq!(live.uncles()[0].number(), 8);
    assert_eq!(live.uncles()[1].number(), 9);
    assert!(live.transactions().is_empty());
    live.push_transaction(vec![1]);
    live.push_transaction(vec![2]);
    assert_eq!(live.transactions(), &[vec![1], vec![2]][..]);
    let lone = SimpleBlock::new(header, Vec::new());
    assert!(lone.uncles().is_empty());
}

#[test]
fn u256_addition() {
    let a = U256 { words: [u64::MAX, 0, 0, 0] };
    assert_eq!(a.checked_add(&U256::from_u64(1)), Some(U256 { words: [0, 1, 0, 0] }));
    let max = U256 { words: [u64::MAX; 4] };
    assert_eq!(max.checked_add(&U256::from_u64(1)), None);
    assert_eq!(max.checked_add(&U256::zero()), Some(max));
    assert_eq!(U256::from_u64(2).checked_add(&U256::from_u64(3)), Some(U256::from_u64(5)));
}

#[test]
fn balance_round_trip() {
    let m = SimpleMachine;
    let a: Address = [1u8; 20];
    let b: Address = [2u8; 20];
    let mut live = SimpleBlock::new(sample_header(1), Vec::new());
    let sibling = SimpleBlock::new(sample_header(1), Vec::new());
    assert_eq!(m.balance(&live, &a), Ok(U256::zero()));
    assert_eq!(m.add_balance(&mut live, &a, &U256::from_u64(1000)), Ok(()));
    assert_eq!(m.balance(&live, &a), Ok(U256::from_u64(1000)));
    assert_eq!(m.add_balance(&mut live, &a, &U256::from_u64(24)), Ok(()));
    assert_eq!(m.balance(&live, &a), Ok(U256::from_u64(1024)));
    assert_eq!(m.balance(&live, &b), Ok(U256::zero()));
    assert_eq!(m.balance(&sibling, &a), Ok(U256::zero()));
}

#[test]
fn balance_overflow_fails_and_keeps_state() {
    let m = SimpleMachine;
    let a: Address = [1u8; 20];
    let max = U256 { words: [u64::MAX; 4] };
    let mut live = SimpleBlock::new(sample_header(1), Vec::new());
    assert_eq!(m.add_balance(&mut live, &a, &max), Ok(()));
    assert_eq!(m.add_balance(&mut live, &a, &U256::from_u64(1)), Err(MachineError::Overflow));
    assert_eq!(m.balance(&live, &a), Ok(max));
}

#[test]
fn note_rewards_default_is_noop() {
    let m = SimpleMachine;
    let a: Address = [1u8; 20];
    let mut live = SimpleBlock::new(sample_header(1), Vec::new());
    m.add_balance(&mut live, &a, &U256::from_u64(7)).unwrap();
    let direct = vec![(a, U256::from_u64(5))];
    let indirect = vec![([9u8; 20], U256::from_u64(3))];
    assert_eq!(m.note_rewards(&mut live, &direct, &indirect), Ok(()));
    assert_eq!(m.balance(&live, &a), Ok(U256::from_u64(7)));
    assert_eq!(m.balance(&live, &[9u8; 20]), Ok(U256::zero()));
}
