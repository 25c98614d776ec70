use vstd::prelude::*;
use vstd::bytes::spec_u64_to_le_bytes;
use vstd::bytes::spec_u64_from_le_bytes;
use vstd::bytes::lemma_auto_spec_u64_to_from_le_bytes;
use vstd::bytes::u64_from_le_bytes;
use vstd::bytes::u64_to_le_bytes;
use vstd::slice::slice_subrange;

verus! {

/// A 32-byte ledger address, held as four 64-bit words in little-endian
/// order: word 0 covers bytes 0..8 of the address, word 3 bytes 24..32.
#[derive(Clone, Copy, PartialEq, Eq, Structural, Debug)]
pub struct Pubkey {
    pub w0: u64,
    pub w1: u64,
    pub w2: u64,
    pub w3: u64,
}

impl Pubkey {
    /// The 32-byte form of the address.
    pub open spec fn bytes(self) -> Seq<u8> {
        spec_u64_to_le_bytes(self.w0) + spec_u64_to_le_bytes(self.w1)
            + spec_u64_to_le_bytes(self.w2) + spec_u64_to_le_bytes(self.w3)
    }

    /// Two addresses with the same byte form are the same address.
    pub proof fn lemma_bytes_injective(a: Pubkey, b: Pubkey)
        ensures
            a.bytes() == b.bytes() ==> a == b,
    {
        lemma_auto_spec_u64_to_from_le_bytes();
        assert(a.bytes().subrange(0, 8) == spec_u64_to_le_bytes(a.w0));
        assert(a.bytes().subrange(8, 16) == spec_u64_to_le_bytes(a.w1));
        assert(a.bytes().subrange(16, 24) == spec_u64_to_le_bytes(a.w2));
        assert(a.bytes().subrange(24, 32) == spec_u64_to_le_bytes(a.w3));
        assert(b.bytes().subrange(0, 8) == spec_u64_to_le_bytes(b.w0));
        assert(b.bytes().subrange(8, 16) == spec_u64_to_le_bytes(b.w1));
        assert(b.bytes().subrange(16, 24) == spec_u64_to_le_bytes(b.w2));
        assert(b.bytes().subrange(24, 32) == spec_u64_to_le_bytes(b.w3));
    }

    /// Serializes the address into its 32-byte form.
    pub fn to_bytes(&self) -> (r: Vec<u8>)
        ensures
            r@ == self.bytes(),
            r@.len() == 32,
    {
        let mut r = u64_to_le_bytes(self.w0);
        let mut r1 = u64_to_le_bytes(self.w1);
        let mut r2 = u64_to_le_bytes(self.w2);
        let mut r3 = u64_to_le_bytes(self.w3);
        r.append(&mut r1);
        r.append(&mut r2);
        r.append(&mut r3);
        assert(r@ == self.bytes());
        r
    }

    /// Reads an address from its 32-byte form.
    pub fn from_bytes(b: &[u8]) -> (r: Pubkey)
        requires
            b@.len() == 32,
        ensures
            r.bytes() == b@,
    {
        let w0 = u64_from_le_bytes(slice_subrange(b, 0, 8));
        let w1 = u64_from_le_bytes(slice_subrange(b, 8, 16));
        let w2 = u64_from_le_bytes(slice_subrange(b, 16, 24));
        let w3 = u64_from_le_bytes(slice_subrange(b, 24, 32));
        let r = Pubkey { w0, w1, w2, w3 };
        proof {
            lemma_auto_spec_u64_to_from_le_bytes();
            assert(r.bytes() =~= b@);
        }
        r
    }
}

/// The address whose 32-byte form is `s`.
pub open spec fn pubkey_of_bytes(s: Seq<u8>) -> Pubkey {
    Pubkey {
        w0: spec_u64_from_le_bytes(s.subrange(0, 8)),
        w1: spec_u64_from_le_bytes(s.subrange(8, 16)),
        w2: spec_u64_from_le_bytes(s.subrange(16, 24)),
        w3: spec_u64_from_le_bytes(s.subrange(24, 32)),
    }
}

/// Reading an address back from its own byte form yields the address.
pub proof fn lemma_pubkey_of_bytes_roundtrip(k: Pubkey)
    ensures
        pubkey_of_bytes(k.bytes()) == k,
{
    lemma_auto_spec_u64_to_from_le_bytes();
    assert(k.bytes().subrange(0, 8) =~= spec_u64_to_le_bytes(k.w0));
    assert(k.bytes().subrange(8, 16) =~= spec_u64_to_le_bytes(k.w1));
    assert(k.bytes().subrange(16, 24) =~= spec_u64_to_le_bytes(k.w2));
    assert(k.bytes().subrange(24, 32) =~= spec_u64_to_le_bytes(k.w3));
}

/// The address under which both on-ledger programs are deployed.
pub open spec fn spec_program_id() -> Pubkey {
    Pubkey {
        w0: 0x074ac021146b1e0f,
        w1: 0xeebbc5195c263104,
        w2: 0x07cdd1afe8ba9219,
        w3: 0xf711dc4770aff88e,
    }
}

/// The address under which both on-ledger programs are deployed.
pub fn program_id() -> (r: Pubkey)
    ensures
        r == spec_program_id(),
{
    Pubkey {
        w0: 0x074ac021146b1e0f,
        w1: 0xeebbc5195c263104,
        w2: 0x07cdd1afe8ba9219,
        w3: 0xf711dc4770aff88e,
    }
}

/// The address of the baseline fungible-token program.
pub open spec fn spec_token_program_id() -> Pubkey {
    Pubkey {
        w0: 0x93a165d7e1f6dd06,
        w1: 0xac79ebce46e1cbd9,
        w2: 0x91375b5fed85b41c,
        w3: 0xa900ff7e85f58c3a,
    }
}

/// The address of the baseline fungible-token program.
pub fn token_program_id() -> (r: Pubkey)
    ensures
        r == spec_token_program_id(),
{
    Pubkey {
        w0: 0x93a165d7e1f6dd06,
        w1: 0xac79ebce46e1cbd9,
        w2: 0x91375b5fed85b41c,
        w3: 0xa900ff7e85f58c3a,
    }
}

/// The address of the extended fungible-token program.
pub open spec fn spec_token_2022_program_id() -> Pubkey {
    Pubkey {
        w0: 0xde8f75eee1f6dd06,
        w1: 0xdacd6ce4bc5d4218,
        w2: 0x270db9834dfc1ab6,
        w3: 0xfc8ba1d828f9bdfe,
    }
}

/// The address of the extended fungible-token program.
pub fn token_2022_program_id() -> (r: Pubkey)
    ensures
        r == spec_token_2022_program_id(),
{
    Pubkey {
        w0: 0xde8f75eee1f6dd06,
        w1: 0xdacd6ce4bc5d4218,
        w2: 0x270db9834dfc1ab6,
        w3: 0xfc8ba1d828f9bdfe,
    }
}

/// The address of the derived-token-account program, whose derivation
/// scheme fixes each holder's canonical account for a given asset.
pub open spec fn spec_ata_program_id() -> Pubkey {
    Pubkey {
        w0: 0xf189244e8f25978c,
        w1: 0x830d8e1429103dbb,
        w2: 0x8410ffda99135a0b,
        w3: 0x59f8e9dbd87b8e04,
    }
}

/// The address of the derived-token-account program.
pub fn ata_program_id() -> (r: Pubkey)
    ensures
        r == spec_ata_program_id(),
{
    Pubkey {
        w0: 0xf189244e8f25978c,
        w1: 0x830d8e1429103dbb,
        w2: 0x8410ffda99135a0b,
        w3: 0x59f8e9dbd87b8e04,
    }
}

} // verus!
