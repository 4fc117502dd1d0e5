use vstd::prelude::*;

verus! {

/// Length in bytes of a 256-bit digest.
pub const HASH_LEN: usize = 32;

/// What SHA-256 returns on a byte string.
pub uninterp spec fn sha256_of(data: Seq<u8>) -> Seq<u8>;

/// Relies on sha2::Sha256::digest: the SHA-256 digest of `data`, 32 bytes,
/// a function of the bytes alone.
#[verifier::external_body]
fn sha256_bytes(data: &[u8]) -> (r: Vec<u8>)
    ensures
        r@ == sha256_of(data@),
        r@.len() == 32,
{
    <sha2::Sha256 as sha2::Digest>::digest(data).to_vec()
}

/// A 256-bit digest: always exactly 32 bytes.
#[derive(Debug)]
pub struct H256 {
    bytes: Vec<u8>,
}

impl View for H256 {
    type V = Seq<u8>;

    closed spec fn view(&self) -> Seq<u8> {
        self.bytes@
    }
}

impl H256 {
    #[verifier::type_invariant]
    spec fn inv(&self) -> bool {
        self.bytes@.len() == HASH_LEN
    }

    /// The digest made of 32 zero bytes.
    pub fn zero() -> (r: H256)
        ensures
            r@ == Seq::new(32, |i: int| 0u8),
    {
        let mut bytes: Vec<u8> = Vec::new();
        let mut i: usize = 0;
        while i < HASH_LEN
            invariant
                i <= HASH_LEN,
                bytes@ == Seq::new(i as nat, |j: int| 0u8),
            decreases HASH_LEN - i,
        {
            bytes.push(0u8);
            i = i + 1;
            assert(bytes@ =~= Seq::new(i as nat, |j: int| 0u8));
        }
        H256 { bytes }
    }

    /// Takes a digest from exactly 32 bytes.
    pub fn from_slice(src: &[u8]) -> (r: H256)
        requires
            src@.len() == HASH_LEN,
        ensures
            r@ == src@,
    {
        H256 { bytes: vstd::slice::slice_to_vec(src) }
    }

    /// The digest's bytes.
    pub fn as_bytes(&self) -> (r: &[u8])
        ensures
            r@ == self@,
            r@.len() == HASH_LEN,
    {
        proof {
            use_type_invariant(self);
        }
        self.bytes.as_slice()
    }

    /// The SHA-256 digest of `data`.
    pub fn sha256(data: &[u8]) -> (r: H256)
        ensures
            r@ == sha256_of(data@),
    {
        H256 { bytes: sha256_bytes(data) }
    }

    /// Whether `other` holds exactly the digest's bytes.
    pub fn matches_bytes(&self, other: &[u8]) -> (r: bool)
        ensures
            r == (self@ == other@),
    {
        proof {
            use_type_invariant(self);
        }
        if other.len() != HASH_LEN {
            return false;
        }
        let mut i: usize = 0;
        while i < HASH_LEN
            invariant
                i <= HASH_LEN,
                self@.len() == HASH_LEN,
                other@.len() == HASH_LEN,
                forall|j: int| 0 <= j < i ==> self@[j] == other@[j],
            decreases HASH_LEN - i,
        {
            if self.bytes[i] != other[i] {
                return false;
            }
            i = i + 1;
        }
        assert(self@ =~= other@);
        true
    }

    /// Whether two digests hold the same bytes.
    pub fn same_as(&self, other: &H256) -> (r: bool)
        ensures
            r == (self@ == other@),
    {
        self.matches_bytes(other.as_bytes())
    }
}

impl Clone for H256 {
    fn clone(&self) -> (r: H256)
        ensures
            r@ == self@,
    {
        proof {
            use_type_invariant(self);
        }
        H256 { bytes: self.bytes.clone() }
    }
}

} // verus!
