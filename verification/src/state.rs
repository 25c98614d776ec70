use vstd::prelude::*;
use vstd::bytes::spec_u64_to_le_bytes;
use vstd::bytes::lemma_auto_spec_u64_to_from_le_bytes;
use vstd::bytes::u64_from_le_bytes;
use vstd::bytes::u64_to_le_bytes;
use vstd::slice::slice_subrange;
use crate::keys::Pubkey;
use crate::errors::ProgramError;

verus! {

/// The on-ledger size of an offer record: seed (8) ‖ maker (32) ‖
/// deposited asset (32) ‖ requested asset (32) ‖ receive amount (8) ‖
/// derivation proof byte (1).
pub const ESCROW_LEN: usize = 113;

/// One open swap offer. Created whole by `Make`, read-only afterwards,
/// destroyed by exactly one of `Take` or `Refund`.
#[derive(Clone, Copy, PartialEq, Eq, Structural, Debug)]
pub struct Escrow {
    /// Caller-chosen disambiguator for the offer's derived address.
    pub seed: u64,
    /// The identity that deposited the offered asset.
    pub maker: Pubkey,
    /// The asset deposited into the vault.
    pub mint_a: Pubkey,
    /// The asset the maker asks for in return.
    pub mint_b: Pubkey,
    /// The exact amount of `mint_b` required to take the offer.
    pub receive: u64,
    /// The derivation bump that binds the record to its own address.
    pub bump: u8,
}

impl Escrow {
    /// The record's fixed byte layout, little-endian, 113 bytes.
    pub open spec fn spec_bytes(self) -> Seq<u8> {
        spec_u64_to_le_bytes(self.seed) + self.maker.bytes() + self.mint_a.bytes()
            + self.mint_b.bytes() + spec_u64_to_le_bytes(self.receive) + seq![self.bump]
    }

    /// Two records with the same byte form hold the same fields.
    pub proof fn lemma_bytes_injective(a: Escrow, b: Escrow)
        ensures
            a.spec_bytes() == b.spec_bytes() ==> a == b,
    {
        lemma_auto_spec_u64_to_from_le_bytes();
        assert(a.maker.bytes().len() == 32);
        assert(b.maker.bytes().len() == 32);
        assert(a.mint_a.bytes().len() == 32);
        assert(b.mint_a.bytes().len() == 32);
        assert(a.mint_b.bytes().len() == 32);
        assert(b.mint_b.bytes().len() == 32);
        assert(a.spec_bytes().subrange(0, 8) =~= spec_u64_to_le_bytes(a.seed));
        assert(b.spec_bytes().subrange(0, 8) =~= spec_u64_to_le_bytes(b.seed));
        assert(a.spec_bytes().subrange(8, 40) =~= a.maker.bytes());
        assert(b.spec_bytes().subrange(8, 40) =~= b.maker.bytes());
        assert(a.spec_bytes().subrange(40, 72) =~= a.mint_a.bytes());
        assert(b.spec_bytes().subrange(40, 72) =~= b.mint_a.bytes());
        assert(a.spec_bytes().subrange(72, 104) =~= a.mint_b.bytes());
        assert(b.spec_bytes().subrange(72, 104) =~= b.mint_b.bytes());
        assert(a.spec_bytes().subrange(104, 112) =~= spec_u64_to_le_bytes(a.receive));
        assert(b.spec_bytes().subrange(104, 112) =~= spec_u64_to_le_bytes(b.receive));
        assert(a.spec_bytes()[112] == a.bump);
        assert(b.spec_bytes()[112] == b.bump);
        Pubkey::lemma_bytes_injective(a.maker, b.maker);
        Pubkey::lemma_bytes_injective(a.mint_a, b.mint_a);
        Pubkey::lemma_bytes_injective(a.mint_b, b.mint_b);
    }

    /// Serializes the record into its exact 113-byte layout.
    pub fn to_bytes(&self) -> (r: Vec<u8>)
        ensures
            r@ == self.spec_bytes(),
            r@.len() == ESCROW_LEN,
    {
        let mut r = u64_to_le_bytes(self.seed);
        let mut maker = self.maker.to_bytes();
        let mut mint_a = self.mint_a.to_bytes();
        let mut mint_b = self.mint_b.to_bytes();
        let mut receive = u64_to_le_bytes(self.receive);
        r.append(&mut maker);
        r.append(&mut mint_a);
        r.append(&mut mint_b);
        r.append(&mut receive);
        r.push(self.bump);
        assert(r@ =~= self.spec_bytes());
        r
    }

    /// Decodes a record from stored bytes, validating the length first:
    /// exactly the 113-byte layout is accepted.
    pub fn load(bytes: &[u8]) -> (r: Result<Escrow, ProgramError>)
        ensures
            bytes@.len() == ESCROW_LEN ==> (r matches Ok(e) && e.spec_bytes() == bytes@),
            bytes@.len() != ESCROW_LEN ==> r == Err::<Escrow, ProgramError>(
                ProgramError::InvalidAccountData,
            ),
    {
        if bytes.len() != ESCROW_LEN {
            return Err(ProgramError::InvalidAccountData);
        }
        let seed = u64_from_le_bytes(slice_subrange(bytes, 0, 8));
        let maker = Pubkey::from_bytes(slice_subrange(bytes, 8, 40));
        let mint_a = Pubkey::from_bytes(slice_subrange(bytes, 40, 72));
        let mint_b = Pubkey::from_bytes(slice_subrange(bytes, 72, 104));
        let receive = u64_from_le_bytes(slice_subrange(bytes, 104, 112));
        let bump = *vstd::slice::slice_index_get(bytes, 112);
        let e = Escrow { seed, maker, mint_a, mint_b, receive, bump };
        proof {
            lemma_auto_spec_u64_to_from_le_bytes();
            assert(e.spec_bytes() =~= bytes@);
        }
        Ok(e)
    }

    /// Round trip: a record decodes from its own serialization unchanged.
    pub proof fn lemma_round_trip(e: Escrow, bytes: Seq<u8>, decoded: Escrow)
        requires
            bytes == e.spec_bytes(),
            decoded.spec_bytes() == bytes,
        ensures
            decoded == e,
    {
        Escrow::lemma_bytes_injective(decoded, e);
    }

    pub fn set_seed(&mut self, seed: u64)
        ensures
            *final(self) == (Escrow { seed, ..*old(self) }),
    {
        self.seed = seed;
    }

    pub fn set_maker(&mut self, maker: Pubkey)
        ensures
            *final(self) == (Escrow { maker, ..*old(self) }),
    {
        self.maker = maker;
    }

    pub fn set_mint_a(&mut self, mint_a: Pubkey)
        ensures
            *final(self) == (Escrow { mint_a, ..*old(self) }),
    {
        self.mint_a = mint_a;
    }

    pub fn set_mint_b(&mut self, mint_b: Pubkey)
        ensures
            *final(self) == (Escrow { mint_b, ..*old(self) }),
    {
        self.mint_b = mint_b;
    }

    pub fn set_receive(&mut self, receive: u64)
        ensures
            *final(self) == (Escrow { receive, ..*old(self) }),
    {
        self.receive = receive;
    }

    pub fn set_bump(&mut self, bump: u8)
        ensures
            *final(self) == (Escrow { bump, ..*old(self) }),
    {
        self.bump = bump;
    }

    /// Populates every field at once, as `Make` does when it creates the
    /// record.
    pub fn set_inner(
        &mut self,
        seed: u64,
        maker: Pubkey,
        mint_a: Pubkey,
        mint_b: Pubkey,
        receive: u64,
        bump: u8,
    )
        ensures
            *final(self) == (Escrow { seed, maker, mint_a, mint_b, receive, bump }),
    {
        self.seed = seed;
        self.maker = maker;
        self.mint_a = mint_a;
        self.mint_b = mint_b;
        self.receive = receive;
        self.bump = bump;
    }
}

} // verus!
