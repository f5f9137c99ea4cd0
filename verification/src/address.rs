use vstd::prelude::*;
use crate::types::Address;

verus! {

/// Big-endian value of the eight bytes `b[start..start + 8]`.
pub open spec fn be_word(b: Seq<u8>, start: int) -> int {
    b[start] * 0x100000000000000 + b[start + 1] * 0x1000000000000 + b[start + 2] * 0x10000000000
        + b[start + 3] * 0x100000000 + b[start + 4] * 0x1000000 + b[start + 5] * 0x10000 + b[start
        + 6] * 0x100 + b[start + 7]
}

fn pack_word(b0: u8, b1: u8, b2: u8, b3: u8, b4: u8, b5: u8, b6: u8, b7: u8) -> (w: u64)
    ensures
        w == b0 * 0x100000000000000 + b1 * 0x1000000000000 + b2 * 0x10000000000 + b3
            * 0x100000000 + b4 * 0x1000000 + b5 * 0x10000 + b6 * 0x100 + b7,
{
    let w = ((b0 as u64) << 56u64) | ((b1 as u64) << 48u64) | ((b2 as u64) << 40u64) | ((
    b3 as u64) << 32u64) | ((b4 as u64) << 24u64) | ((b5 as u64) << 16u64) | ((b6 as u64)
        << 8u64) | (b7 as u64);
    assert(w == b0 * 0x100000000000000 + b1 * 0x1000000000000 + b2 * 0x10000000000 + b3
        * 0x100000000 + b4 * 0x1000000 + b5 * 0x10000 + b6 * 0x100 + b7) by (bit_vector)
        requires
            w == ((b0 as u64) << 56u64) | ((b1 as u64) << 48u64) | ((b2 as u64) << 40u64) | ((
            b3 as u64) << 32u64) | ((b4 as u64) << 24u64) | ((b5 as u64) << 16u64) | ((
            b6 as u64) << 8u64) | (b7 as u64),
    ;
    w
}

fn byte_of(w: u64, shift: u64) -> (b: u8)
    requires
        shift <= 56,
    ensures
        b == (w >> shift) & 0xff,
{
    let v = (w >> shift) & 0xff;
    assert(v < 256) by (bit_vector)
        requires
            v == (w >> shift) & 0xff,
    ;
    v as u8
}

proof fn lemma_unpack(w: u64, b0: u8, b1: u8, b2: u8, b3: u8, b4: u8, b5: u8, b6: u8, b7: u8)
    requires
        w == b0 * 0x100000000000000 + b1 * 0x1000000000000 + b2 * 0x10000000000 + b3
            * 0x100000000 + b4 * 0x1000000 + b5 * 0x10000 + b6 * 0x100 + b7,
    ensures
        (w >> 56u64) & 0xff == b0,
        (w >> 48u64) & 0xff == b1,
        (w >> 40u64) & 0xff == b2,
        (w >> 32u64) & 0xff == b3,
        (w >> 24u64) & 0xff == b4,
        (w >> 16u64) & 0xff == b5,
        (w >> 8u64) & 0xff == b6,
        (w >> 0u64) & 0xff == b7,
{
    assert(w == ((b0 as u64) << 56u64) | ((b1 as u64) << 48u64) | ((b2 as u64) << 40u64) | ((
    b3 as u64) << 32u64) | ((b4 as u64) << 24u64) | ((b5 as u64) << 16u64) | ((b6 as u64)
        << 8u64) | (b7 as u64)) by (bit_vector)
        requires
            w == b0 * 0x100000000000000 + b1 * 0x1000000000000 + b2 * 0x10000000000 + b3
                * 0x100000000 + b4 * 0x1000000 + b5 * 0x10000 + b6 * 0x100 + b7,
    ;
    assert((w >> 56u64) & 0xff == b0 && (w >> 48u64) & 0xff == b1 && (w >> 40u64) & 0xff == b2
        && (w >> 32u64) & 0xff == b3 && (w >> 24u64) & 0xff == b4 && (w >> 16u64) & 0xff == b5
        && (w >> 8u64) & 0xff == b6 && (w >> 0u64) & 0xff == b7) by (bit_vector)
        requires
            w == ((b0 as u64) << 56u64) | ((b1 as u64) << 48u64) | ((b2 as u64) << 40u64) | ((
            b3 as u64) << 32u64) | ((b4 as u64) << 24u64) | ((b5 as u64) << 16u64) | ((
            b6 as u64) << 8u64) | (b7 as u64),
    ;
}

impl Address {
    /// The 32-byte payload as the big-endian words it is held in.
    pub open spec fn holds_key(self, key: Seq<u8>) -> bool {
        &&& key.len() == 32
        &&& self.k0 == be_word(key, 0)
        &&& self.k1 == be_word(key, 8)
        &&& self.k2 == be_word(key, 16)
        &&& self.k3 == be_word(key, 24)
    }

    /// An address from its kind (contract or account) and 32-byte payload
    /// (contract hash or ed25519 public key).
    pub fn from_key_bytes(is_contract: bool, key: &[u8; 32]) -> (a: Address)
        ensures
            a.is_contract == is_contract,
            a.holds_key(key@),
    {
        let k0 = pack_word(key[0], key[1], key[2], key[3], key[4], key[5], key[6], key[7]);
        let k1 = pack_word(key[8], key[9], key[10], key[11], key[12], key[13], key[14], key[15]);
        let k2 = pack_word(key[16], key[17], key[18], key[19], key[20], key[21], key[22], key[23]);
        let k3 = pack_word(key[24], key[25], key[26], key[27], key[28], key[29], key[30], key[31]);
        Address { is_contract, k0, k1, k2, k3 }
    }

    /// The 32-byte payload of the address.
    pub fn key_bytes(&self) -> (key: [u8; 32])
        ensures
            forall|bytes: Seq<u8>| self.holds_key(bytes) ==> key@ == bytes,
            key@.len() == 32,
    {
        let mut key = [0u8; 32];
        let words = [self.k0, self.k1, self.k2, self.k3];
        let mut w: usize = 0;
        while w < 4
            invariant
                w <= 4,
                words@ == seq![self.k0, self.k1, self.k2, self.k3],
                key@.len() == 32,
                forall|j: int|
                    0 <= j < 8 * w ==> #[trigger] key@[j] == (words@[j / 8] >> ((7 - j % 8) * 8) as u64)
                        & 0xff,
            decreases 4 - w,
        {
            let word = words[w];
            let mut i: usize = 0;
            while i < 8
                invariant
                    w < 4,
                    i <= 8,
                    word == words@[w as int],
                    words@ == seq![self.k0, self.k1, self.k2, self.k3],
                    key@.len() == 32,
                    forall|j: int|
                        0 <= j < 8 * w + i ==> #[trigger] key@[j] == (words@[j / 8] >> ((7 - j % 8)
                            * 8) as u64) & 0xff,
                decreases 8 - i,
            {
                let b = byte_of(word, (56 - 8 * i) as u64);
                key[8 * w + i] = b;
                assert((8 * w + i) / 8 == w as int && (8 * w + i) % 8 == i as int);
                i = i + 1;
            }
            w = w + 1;
        }
        proof {
            assert forall|bytes: Seq<u8>| self.holds_key(bytes) implies key@ == bytes by {
                lemma_unpack(self.k0, bytes[0], bytes[1], bytes[2], bytes[3], bytes[4], bytes[5], bytes[6], bytes[7]);
                lemma_unpack(self.k1, bytes[8], bytes[9], bytes[10], bytes[11], bytes[12], bytes[13], bytes[14], bytes[15]);
                lemma_unpack(self.k2, bytes[16], bytes[17], bytes[18], bytes[19], bytes[20], bytes[21], bytes[22], bytes[23]);
                lemma_unpack(self.k3, bytes[24], bytes[25], bytes[26], bytes[27], bytes[28], bytes[29], bytes[30], bytes[31]);
                assert forall|j: int| 0 <= j < 32 implies key@[j] == bytes[j] by {
                    assert(key@[j] == (words@[j / 8] >> ((7 - j % 8) * 8) as u64) & 0xff);
                }
                assert(key@ =~= bytes);
            }
        }
        key
    }
}

/// Writing an address's payload and reading it back gives the same address.
pub proof fn law_address_key_roundtrip(a: Address, key: Seq<u8>)
    ensures
        a.holds_key(key) ==> forall|b: Address| b.is_contract == a.is_contract && b.holds_key(key)
            ==> b == a,
{
}

} // verus!
