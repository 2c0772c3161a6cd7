use vstd::prelude::*;

verus! {

/// A 32-byte account address, held as four 64-bit words.
#[derive(Clone, Copy, Debug, PartialEq, Eq, Structural)]
pub struct Pubkey {
    pub w0: u64,
    pub w1: u64,
    pub w2: u64,
    pub w3: u64,
}

/// Byte `k` of `w`, least significant first.
pub open spec fn byte_of(w: u64, k: nat) -> u8 {
    ((w >> ((8 * k) as u64)) & 0xff) as u8
}

/// The little-endian 64-bit word of eight bytes of `b` from `base` on.
fn pack_word(b: &[u8; 32], base: usize) -> (w: u64)
    requires
        base + 8 <= 32,
    ensures
        forall|k: nat| k < 8 ==> #[trigger] byte_of(w, k) == b@[base + k],
{
    let b0 = b[base] as u64;
    let b1 = b[base + 1] as u64;
    let b2 = b[base + 2] as u64;
    let b3 = b[base + 3] as u64;
    let b4 = b[base + 4] as u64;
    let b5 = b[base + 5] as u64;
    let b6 = b[base + 6] as u64;
    let b7 = b[base + 7] as u64;
    let w = b0 | (b1 << 8u64) | (b2 << 16u64) | (b3 << 24u64) | (b4 << 32u64) | (b5 << 40u64) | (
    b6 << 48u64) | (b7 << 56u64);
    assert(byte_of(w, 0) == b0 && byte_of(w, 1) == b1 && byte_of(w, 2) == b2 && byte_of(w, 3) == b3
        && byte_of(w, 4) == b4 && byte_of(w, 5) == b5 && byte_of(w, 6) == b6 && byte_of(w, 7) == b7)
        by (bit_vector)
        requires
            b0 < 256 && b1 < 256 && b2 < 256 && b3 < 256 && b4 < 256 && b5 < 256 && b6 < 256 && b7
                < 256,
            w == b0 | (b1 << 8u64) | (b2 << 16u64) | (b3 << 24u64) | (b4 << 32u64) | (b5 << 40u64)
                | (b6 << 48u64) | (b7 << 56u64),
    ;
    w
}

impl Pubkey {
    /// Word `i` of the address.
    pub open spec fn word(self, i: int) -> u64 {
        if i == 0 {
            self.w0
        } else if i == 1 {
            self.w1
        } else if i == 2 {
            self.w2
        } else {
            self.w3
        }
    }

    /// The 32 bytes of the address: each word little-endian, in order.
    pub open spec fn spec_bytes(self) -> Seq<u8> {
        Seq::new(32, |i: int| byte_of(self.word(i / 8), (i % 8) as nat))
    }

    /// The address whose bytes are `bytes`.
    pub fn new_from_array(bytes: [u8; 32]) -> (r: Pubkey)
        ensures
            r.spec_bytes() == bytes@,
    {
        let r = Pubkey {
            w0: pack_word(&bytes, 0),
            w1: pack_word(&bytes, 8),
            w2: pack_word(&bytes, 16),
            w3: pack_word(&bytes, 24),
        };
        assert forall|i: int| 0 <= i < 32 implies #[trigger] r.spec_bytes()[i] == bytes@[i] by {
            let k = (i % 8) as nat;
            assert(i == (i / 8) * 8 + k);
            assert(byte_of(r.word(i / 8), k) == bytes@[(i / 8) * 8 + k]);
        }
        assert(r.spec_bytes() =~= bytes@);
        r
    }

    /// The 32 bytes of the address.
    pub fn to_bytes(&self) -> (r: Vec<u8>)
        ensures
            r@ == self.spec_bytes(),
    {
        let words = [self.w0, self.w1, self.w2, self.w3];
        let mut r: Vec<u8> = Vec::new();
        let mut i: usize = 0;
        while i < 32
            invariant
                i <= 32,
                words@ == seq![self.w0, self.w1, self.w2, self.w3],
                r@.len() == i,
                forall|j: int| 0 <= j < i ==> #[trigger] r@[j] == self.spec_bytes()[j],
            decreases 32 - i,
        {
            let w = words[i / 8];
            let k: u64 = (i % 8) as u64;
            r.push(((w >> (8 * k)) & 0xff) as u8);
            i = i + 1;
        }
        assert(r@ =~= self.spec_bytes());
        r
    }

    /// The address made of the four given words.
    pub fn new_from_words(w0: u64, w1: u64, w2: u64, w3: u64) -> (r: Pubkey)
        ensures
            r == (Pubkey { w0, w1, w2, w3 }),
    {
        Pubkey { w0, w1, w2, w3 }
    }

    /// The all-zero address, which stands for "no address".
    pub fn zeroed() -> (r: Pubkey)
        ensures
            r.is_zero(),
    {
        Pubkey { w0: 0, w1: 0, w2: 0, w3: 0 }
    }

    pub open spec fn is_zero(self) -> bool {
        self == (Pubkey { w0: 0, w1: 0, w2: 0, w3: 0 })
    }
}

} // verus!
