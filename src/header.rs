use vstd::prelude::*;
use crate::amount::U256;

verus! {

/// A 20-byte account identifier.
pub type Address = [u8; 20];

/// A 32-byte hash.
pub type H256 = [u8; 32];

/// The Keccak-256 digest of a byte string.
pub uninterp spec fn keccak_of(data: Seq<u8>) -> Seq<u8>;

/// Relies on `keccak_hash::keccak`: the 32-byte Keccak-256 digest of the bytes,
/// which depends on the bytes alone.
#[verifier::external_body]
fn keccak(data: &Vec<u8>) -> (r: H256)
    ensures
        r@ == keccak_of(data@),
{
    keccak_hash::keccak(data.as_slice()).0
}

/// A header. This contains important metadata about the block, as well as a
/// "seal" that indicates validity to a consensus engine.
pub trait Header: Sized {
    /// The seal records, as stored.
    spec fn seal_view(&self) -> Seq<Seq<u8>>;

    /// The author's identifier.
    spec fn author_view(&self) -> Address;

    /// The height.
    spec fn number_view(&self) -> u64;

    /// The hash of every field but the seal.
    spec fn bare_hash_view(&self) -> Seq<u8>;

    /// The hash of every field, seal included.
    spec fn hash_view(&self) -> Seq<u8>;

    /// Cryptographic hash of the header, excluding the seal.
    fn bare_hash(&self) -> (r: H256)
        ensures
            r@ == self.bare_hash_view(),
    ;

    /// Cryptographic hash of the header, including the seal.
    fn hash(&self) -> (r: H256)
        ensures
            r@ == self.hash_view(),
    ;

    /// Get a reference to the seal fields.
    fn seal(&self) -> (r: &[Vec<u8>])
        ensures
            r@.map_values(|v: Vec<u8>| v@) == self.seal_view(),
    ;

    /// The author of the header.
    fn author(&self) -> (r: &Address)
        ensures
            *r == self.author_view(),
    ;

    /// The number of the header.
    fn number(&self) -> (r: u64)
        ensures
            r == self.number_view(),
    ;
}

/// A header with an associated score (difficulty in proof-of-work terms).
pub trait ScoredHeader: Header {
    /// The score as last set.
    spec fn score_view(&self) -> U256;

    /// Get the score of this header.
    fn score(&self) -> (r: &U256)
        ensures
            *r == self.score_view(),
    ;

    /// Set the score of this header.
    fn set_score(&mut self, score: U256)
        ensures
            final(self).score_view() == score,
            final(self).seal_view() == old(self).seal_view(),
            final(self).author_view() == old(self).author_view(),
            final(self).number_view() == old(self).number_view(),
            final(self).bare_hash_view() == old(self).bare_hash_view(),
            final(self).hash_view() == old(self).hash_view(),
    ;
}

/// The eight big-endian bytes of a 64-bit integer.
pub open spec fn be64(n: u64) -> Seq<u8> {
    seq![
        (n >> 56u64) as u8,
        (n >> 48u64) as u8,
        (n >> 40u64) as u8,
        (n >> 32u64) as u8,
        (n >> 24u64) as u8,
        (n >> 16u64) as u8,
        (n >> 8u64) as u8,
        n as u8,
    ]
}

/// The seal records in order, each followed by its length as eight
/// big-endian bytes.
pub open spec fn seal_encoding(seal: Seq<Seq<u8>>) -> Seq<u8>
    decreases seal.len(),
{
    if seal.len() == 0 {
        seq![]
    } else {
        seal_encoding(seal.drop_last()) + seal.last() + be64(seal.last().len() as u64)
    }
}

proof fn lemma_be64_injective(x: u64, y: u64)
    requires
        be64(x) == be64(y),
    ensures
        x == y,
{
    assert(be64(x)[0] == be64(y)[0]);
    assert(be64(x)[1] == be64(y)[1]);
    assert(be64(x)[2] == be64(y)[2]);
    assert(be64(x)[3] == be64(y)[3]);
    assert(be64(x)[4] == be64(y)[4]);
    assert(be64(x)[5] == be64(y)[5]);
    assert(be64(x)[6] == be64(y)[6]);
    assert(be64(x)[7] == be64(y)[7]);
    assert(x == y) by (bit_vector)
        requires
            (x >> 56u64) as u8 == (y >> 56u64) as u8,
            (x >> 48u64) as u8 == (y >> 48u64) as u8,
            (x >> 40u64) as u8 == (y >> 40u64) as u8,
            (x >> 32u64) as u8 == (y >> 32u64) as u8,
            (x >> 24u64) as u8 == (y >> 24u64) as u8,
            (x >> 16u64) as u8 == (y >> 16u64) as u8,
            (x >> 8u64) as u8 == (y >> 8u64) as u8,
            x as u8 == y as u8,
    ;
}

/// Every record of a seal has a length that eight bytes can state.
pub open spec fn records_fit(seal: Seq<Seq<u8>>) -> bool {
    forall|i: int| 0 <= i < seal.len() ==> #[trigger] seal[i].len() <= u64::MAX
}

/// Two seals with the same encoding are the same seal.
pub proof fn lemma_seal_encoding_injective(s: Seq<Seq<u8>>, t: Seq<Seq<u8>>)
    requires
        records_fit(s),
        records_fit(t),
        seal_encoding(s) == seal_encoding(t),
    ensures
        s == t,
    decreases s.len(),
{
    if s.len() == 0 || t.len() == 0 {
        if s.len() != 0 {
            assert(seal_encoding(s).len() >= 8);
        }
        if t.len() != 0 {
            assert(seal_encoding(t).len() >= 8);
        }
        assert(s =~= t);
    } else {
        let e = seal_encoding(s);
        let n = e.len() as int;
        let a = seal_encoding(s.drop_last());
        let b = seal_encoding(t.drop_last());
        let ls = s.last().len();
        let lt = t.last().len();
        assert(s.last() == s[s.len() - 1]);
        assert(t.last() == t[t.len() - 1]);
        assert(e.subrange(n - 8, n) =~= be64(ls as u64));
        assert(e.subrange(n - 8, n) =~= be64(lt as u64));
        lemma_be64_injective(ls as u64, lt as u64);
        assert(ls == lt);
        assert(e.subrange(n - 8 - ls, n - 8) =~= s.last());
        assert(e.subrange(n - 8 - ls, n - 8) =~= t.last());
        assert(e.subrange(0, n - 8 - ls) =~= a);
        assert(e.subrange(0, n - 8 - ls) =~= b);
        assert(records_fit(s.drop_last()));
        assert(records_fit(t.drop_last()));
        lemma_seal_encoding_injective(s.drop_last(), t.drop_last());
        assert(s =~= s.drop_last().push(s.last()));
        assert(t =~= t.drop_last().push(t.last()));
    }
}

/// A plain header: the fields that a chain of this library's reference machine
/// records, with a score kept beside them.
#[derive(Clone, Debug)]
pub struct SimpleHeader {
    pub parent_hash: H256,
    pub author: Address,
    pub number: u64,
    pub timestamp: u64,
    pub score: U256,
    pub seal: Vec<Vec<u8>>,
}

impl SimpleHeader {
    /// The bytes that the bare hash covers: parent hash, author, number and
    /// timestamp. Neither the seal nor the score is part of it.
    pub open spec fn bare_encoding(&self) -> Seq<u8> {
        self.parent_hash@ + self.author@ + be64(self.number) + be64(self.timestamp)
    }

    /// The bytes that the full hash covers: the bare bytes, then the seal.
    pub open spec fn full_encoding(&self) -> Seq<u8> {
        self.bare_encoding() + seal_encoding(self.seal@.map_values(|v: Vec<u8>| v@))
    }

    /// A header with the given fields and an empty seal.
    pub fn new(parent_hash: H256, author: Address, number: u64, timestamp: u64, score: U256) -> (r:
        SimpleHeader)
        ensures
            r.parent_hash == parent_hash,
            r.author == author,
            r.number == number,
            r.timestamp == timestamp,
            r.score == score,
            r.seal@.len() == 0,
    {
        SimpleHeader { parent_hash, author, number, timestamp, score, seal: Vec::new() }
    }

    /// Replace the seal.
    pub fn set_seal(&mut self, seal: Vec<Vec<u8>>)
        ensures
            final(self).seal == seal,
            final(self).parent_hash == old(self).parent_hash,
            final(self).author == old(self).author,
            final(self).number == old(self).number,
            final(self).timestamp == old(self).timestamp,
            final(self).score == old(self).score,
    {
        self.seal = seal;
    }

    /// The bytes of `bare_encoding`.
    pub fn encode_bare(&self) -> (r: Vec<u8>)
        ensures
            r@ == self.bare_encoding(),
    {
        let mut out: Vec<u8> = Vec::new();
        push_bytes(&mut out, self.parent_hash.as_slice());
        push_bytes(&mut out, self.author.as_slice());
        push_be64(&mut out, self.number);
        push_be64(&mut out, self.timestamp);
        proof {
            assert(out@ =~= self.bare_encoding());
        }
        out
    }

    /// The bytes of `full_encoding`.
    pub fn encode_full(&self) -> (r: Vec<u8>)
        ensures
            r@ == self.full_encoding(),
    {
        let mut out = self.encode_bare();
        let ghost bare = out@;
        let ghost seal = self.seal@.map_values(|v: Vec<u8>| v@);
        let mut i: usize = 0;
        while i < self.seal.len()
            invariant
                i <= self.seal@.len(),
                seal == self.seal@.map_values(|v: Vec<u8>| v@),
                bare == self.bare_encoding(),
                out@ == bare + seal_encoding(seal.subrange(0, i as int)),
            decreases self.seal@.len() - i,
        {
            let record = &self.seal[i];
            push_bytes(&mut out, record.as_slice());
            push_be64(&mut out, record.len() as u64);
            proof {
                let next = seal.subrange(0, i + 1);
                assert(next.drop_last() =~= seal.subrange(0, i as int));
                assert(next.last() == record@);
                assert(out@ =~= bare + seal_encoding(next));
            }
            i = i + 1;
        }
        proof {
            assert(seal.subrange(0, i as int) =~= seal);
        }
        out
    }
}

/// Whether two byte strings are equal.
pub fn same_bytes(a: &[u8], b: &[u8]) -> (r: bool)
    ensures
        r == (a@ == b@),
{
    if a.len() != b.len() {
        return false;
    }
    let mut i: usize = 0;
    while i < a.len()
        invariant
            i <= a@.len(),
            a@.len() == b@.len(),
            forall|j: int| 0 <= j < i ==> a@[j] == b@[j],
        decreases a@.len() - i,
    {
        if a[i] != b[i] {
            return false;
        }
        i = i + 1;
    }
    proof {
        assert(a@ =~= b@);
    }
    true
}

/// Append the bytes of `b`.
fn push_bytes(out: &mut Vec<u8>, b: &[u8])
    ensures
        final(out)@ == old(out)@ + b@,
{
    let mut i: usize = 0;
    while i < b.len()
        invariant
            i <= b@.len(),
            out@ == old(out)@ + b@.subrange(0, i as int),
        decreases b@.len() - i,
    {
        out.push(b[i]);
        proof {
            assert(b@.subrange(0, i + 1) =~= b@.subrange(0, i as int).push(b@[i as int]));
        }
        i = i + 1;
    }
    proof {
        assert(b@.subrange(0, i as int) =~= b@);
    }
}

/// Append the eight big-endian bytes of `n`.
fn push_be64(out: &mut Vec<u8>, n: u64)
    ensures
        final(out)@ == old(out)@ + be64(n),
{
    out.push((n >> 56u64) as u8);
    out.push((n >> 48u64) as u8);
    out.push((n >> 40u64) as u8);
    out.push((n >> 32u64) as u8);
    out.push((n >> 24u64) as u8);
    out.push((n >> 16u64) as u8);
    out.push((n >> 8u64) as u8);
    out.push(n as u8);
    proof {
        assert(out@ =~= old(out)@ + be64(n));
    }
}

/// Both hashes are functions of the header's content: two headers with the
/// same fields have the same bare hash and the same hash. The score is no part
/// of either.
pub proof fn lemma_hashes_deterministic(a: SimpleHeader, b: SimpleHeader)
    requires
        a.parent_hash == b.parent_hash,
        a.author == b.author,
        a.number == b.number,
        a.timestamp == b.timestamp,
        a.seal_view() == b.seal_view(),
    ensures
        a.bare_hash_view() == b.bare_hash_view(),
        a.hash_view() == b.hash_view(),
{
}

/// The bare hash ignores the seal: two headers that differ at most in their
/// seals have the same bare hash. Where the seals differ, the bytes that the
/// full hash covers differ.
pub proof fn lemma_seal_independence(a: SimpleHeader, b: SimpleHeader)
    requires
        a.parent_hash == b.parent_hash,
        a.author == b.author,
        a.number == b.number,
        a.timestamp == b.timestamp,
        records_fit(a.seal_view()),
        records_fit(b.seal_view()),
    ensures
        a.bare_hash_view() == b.bare_hash_view(),
        a.seal_view() != b.seal_view() ==> a.full_encoding() != b.full_encoding(),
{
    if a.full_encoding() == b.full_encoding() {
        let x = a.bare_encoding();
        let n = a.full_encoding().len() as int;
        assert(a.full_encoding().subrange(x.len() as int, n) =~= seal_encoding(a.seal_view()));
        assert(b.full_encoding().subrange(x.len() as int, n) =~= seal_encoding(b.seal_view()));
        lemma_seal_encoding_injective(a.seal_view(), b.seal_view());
    }
}

impl Header for SimpleHeader {
    open spec fn seal_view(&self) -> Seq<Seq<u8>> {
        self.seal@.map_values(|v: Vec<u8>| v@)
    }

    open spec fn author_view(&self) -> Address {
        self.author
    }

    open spec fn number_view(&self) -> u64 {
        self.number
    }

    open spec fn bare_hash_view(&self) -> Seq<u8> {
        keccak_of(self.bare_encoding())
    }

    open spec fn hash_view(&self) -> Seq<u8> {
        keccak_of(self.full_encoding())
    }

    fn bare_hash(&self) -> (r: H256) {
        let bytes = self.encode_bare();
        keccak(&bytes)
    }

    fn hash(&self) -> (r: H256) {
        let bytes = self.encode_full();
        keccak(&bytes)
    }

    fn seal(&self) -> (r: &[Vec<u8>]) {
        self.seal.as_slice()
    }

    fn author(&self) -> (r: &Address) {
        &self.author
    }

    fn number(&self) -> (r: u64) {
        self.number
    }
}

impl ScoredHeader for SimpleHeader {
    open spec fn score_view(&self) -> U256 {
        self.score
    }

    fn score(&self) -> (r: &U256) {
        &self.score
    }

    fn set_score(&mut self, score: U256) {
        self.score = score;
    }
}

} // verus!
