//! Ledger addresses and their canonical byte encoding.
use vstd::prelude::*;

verus! {

/// A ledger address: an account (ed25519 public key) or a contract (its hash).
#[derive(Clone, Copy, Debug)]
pub struct Address {
    pub contract: bool,
    pub key: [u8; 32],
}

impl View for Address {
    type V = (bool, Seq<u8>);

    open spec fn view(&self) -> (bool, Seq<u8>) {
        (self.contract, self.key@)
    }
}

/// The four big-endian bytes of a 32-bit value.
pub open spec fn be32(n: u32) -> Seq<u8> {
    seq![
        ((n >> 24u32) & 0xffu32) as u8,
        ((n >> 16u32) & 0xffu32) as u8,
        ((n >> 8u32) & 0xffu32) as u8,
        (n & 0xffu32) as u8,
    ]
}

/// The XDR encoding of an address as a contract value: the value tag for
/// addresses (18), the address kind (0 account, 1 contract), for an account
/// the key type (0, ed25519), then the 32 key bytes.
pub open spec fn xdr_of(a: (bool, Seq<u8>)) -> Seq<u8> {
    if a.0 {
        be32(18) + be32(1) + a.1
    } else {
        be32(18) + be32(0) + be32(0) + a.1
    }
}

pub proof fn lemma_be32_injective(m: u32, n: u32)
    requires
        be32(m) == be32(n),
    ensures
        m == n,
{
    assert(be32(m)[0] == be32(n)[0]);
    assert(be32(m)[1] == be32(n)[1]);
    assert(be32(m)[2] == be32(n)[2]);
    assert(be32(m)[3] == be32(n)[3]);
    assert(((m >> 24u32) & 0xffu32) < 256 && ((n >> 24u32) & 0xffu32) < 256) by (bit_vector);
    assert(((m >> 16u32) & 0xffu32) < 256 && ((n >> 16u32) & 0xffu32) < 256) by (bit_vector);
    assert(((m >> 8u32) & 0xffu32) < 256 && ((n >> 8u32) & 0xffu32) < 256) by (bit_vector);
    assert((m & 0xffu32) < 256 && (n & 0xffu32) < 256) by (bit_vector);
    assert(((m >> 24u32) & 0xffu32) == ((n >> 24u32) & 0xffu32) && ((m >> 16u32) & 0xffu32) == ((n
        >> 16u32) & 0xffu32) && ((m >> 8u32) & 0xffu32) == ((n >> 8u32) & 0xffu32) && (m & 0xffu32)
        == (n & 0xffu32) ==> m == n) by (bit_vector);
}

pub proof fn lemma_be32_byte(n: u32)
    requires
        n < 256,
    ensures
        be32(n) == seq![0u8, 0u8, 0u8, n as u8],
{
    assert((n >> 24u32) & 0xffu32 == 0 && (n >> 16u32) & 0xffu32 == 0 && (n >> 8u32) & 0xffu32
        == 0 && n & 0xffu32 == n) by (bit_vector)
        requires
            n < 256,
    ;
    assert(be32(n) =~= seq![0u8, 0u8, 0u8, n as u8]);
}

/// Appends the big-endian bytes of `n` to `out`.
pub fn push_be32(out: &mut Vec<u8>, n: u32)
    ensures
        final(out)@ == old(out)@ + be32(n),
{
    out.push(((n >> 24u32) & 0xffu32) as u8);
    out.push(((n >> 16u32) & 0xffu32) as u8);
    out.push(((n >> 8u32) & 0xffu32) as u8);
    out.push((n & 0xffu32) as u8);
    assert(final(out)@ =~= old(out)@ + be32(n));
}

/// Appends the bytes of `b` to `out`.
pub fn push_bytes(out: &mut Vec<u8>, b: &[u8])
    ensures
        final(out)@ == old(out)@ + b@,
{
    let ghost start = out@;
    let mut i: usize = 0;
    while i < b.len()
        invariant
            i <= b@.len(),
            out@ == start + b@.subrange(0, i as int),
        decreases b@.len() - i,
    {
        out.push(b[i]);
        i += 1;
        assert(out@ =~= start + b@.subrange(0, i as int));
    }
    assert(b@.subrange(0, b@.len() as int) =~= b@);
}

/// A fresh vector holding the same bytes.
pub fn copy_bytes(b: &Vec<u8>) -> (r: Vec<u8>)
    ensures
        r@ == b@,
{
    let mut r: Vec<u8> = Vec::new();
    push_bytes(&mut r, b.as_slice());
    assert(r@ =~= b@);
    r
}

/// Whether two byte strings are equal.
pub fn bytes_equal(a: &[u8], b: &[u8]) -> (r: bool)
    ensures
        r == (a@ == b@),
{
    if a.len() != b.len() {
        return false;
    }
    let mut i: usize = 0;
    while i < a.len()
        invariant
            a@.len() == b@.len(),
            i <= a@.len(),
            forall|j: int| 0 <= j < i ==> a@[j] == b@[j],
        decreases a@.len() - i,
    {
        if a[i] != b[i] {
            return false;
        }
        i += 1;
    }
    assert(a@ =~= b@);
    true
}

impl Address {
    /// Whether `self` and `other` name the same address.
    pub fn same(&self, other: &Address) -> (r: bool)
        ensures
            r == (self@ == other@),
    {
        self.contract == other.contract && bytes_equal(self.key.as_slice(), other.key.as_slice())
    }

    /// Decodes the canonical XDR encoding of an address.
    pub fn from_xdr(b: &[u8]) -> (r: Option<Address>)
        ensures
            match r {
                Some(a) => xdr_of(a@) == b@,
                None => forall|a: Address| xdr_of(#[trigger] a@) != b@,
            },
    {
        proof {
            lemma_be32_byte(18);
            lemma_be32_byte(1);
            lemma_be32_byte(0);
        }
        let (contract, off): (bool, usize) = if b.len() == 40 && b[0] == 0 && b[1] == 0 && b[2] == 0 && b[3] == 18 && b[4] == 0 && b[5]
            == 0 && b[6] == 0 && b[7] == 1 {
            (true, 8)
        } else if b.len() == 44 && b[0] == 0 && b[1] == 0 && b[2] == 0 && b[3] == 18 && b[4] == 0
            && b[5] == 0 && b[6] == 0 && b[7] == 0 && b[8] == 0 && b[9] == 0 && b[10] == 0 && b[11]
            == 0 {
            (false, 12)
        } else {
            assert forall|a: Address| xdr_of(#[trigger] a@) != b@ by {
                if xdr_of(a@) == b@ {
                    assert(b@[0] == 0 && b@[1] == 0 && b@[2] == 0 && b@[3] == 18);
                    assert(b@[4] == 0 && b@[5] == 0 && b@[6] == 0);
                    if !a.contract {
                        assert(b@[7] == 0 && b@[8] == 0 && b@[9] == 0 && b@[10] == 0 && b@[11]
                            == 0);
                    }
                }
            }
            return None;
        };
        let mut key = [0u8; 32];
        let mut i: usize = 0;
        while i < 32
            invariant
                off <= 12,
                b@.len() == off + 32,
                i <= 32,
                forall|j: int| 0 <= j < i ==> key@[j] == b@[off + j],
            decreases 32 - i,
        {
            key[i] = b[off + i];
            i += 1;
        }
        let a = Address { contract, key };
        assert(xdr_of(a@) =~= b@);
        Some(a)
    }

    /// The canonical XDR encoding of this address.
    pub fn to_xdr(&self) -> (r: Vec<u8>)
        ensures
            r@ == xdr_of(self@),
    {
        let mut r: Vec<u8> = Vec::new();
        push_be32(&mut r, 18);
        if self.contract {
            push_be32(&mut r, 1);
        } else {
            push_be32(&mut r, 0);
            push_be32(&mut r, 0);
        }
        push_bytes(&mut r, self.key.as_slice());
        r
    }
}

} // verus!
