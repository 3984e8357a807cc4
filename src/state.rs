//! The curve ledger record and its mathematical model.
use vstd::prelude::*;
use vstd::utf8::encode_utf8;

verus! {

/// A 32-byte account address: the identity of a token or of an account.
#[derive(Clone, Copy, Debug, PartialEq, Eq)]
pub struct Key {
    pub bytes: [u8; 32],
}

/// The reserves of a curve and its graduation flag, as mathematical values.
pub struct Reserves {
    pub virtual_sol: nat,
    pub virtual_token: nat,
    pub real_sol: nat,
    pub real_token: nat,
    pub graduated: bool,
}

/// Length in bytes of the UTF-8 encoding of `s`.
pub open spec fn byte_len(s: Seq<char>) -> nat {
    encode_utf8(s).len()
}

/// The ledger record of one launched token: the point on the pricing curve, the
/// value really held, and the immutable description of the token.
#[derive(Clone, Debug, PartialEq, Eq)]
pub struct BondingCurve {
    pub mint: Key,
    pub creator: Key,
    pub virtual_sol_reserves: u64,
    pub virtual_token_reserves: u64,
    pub real_sol_reserves: u64,
    pub real_token_reserves: u64,
    pub total_supply: u64,
    pub is_graduated: bool,
    pub created_at: i64,
    pub name: String,
    pub symbol: String,
    pub uri: String,
    pub bump: u8,
    pub vault_bump: u8,
}

impl BondingCurve {
    /// The reserves and graduation flag of this record.
    pub open spec fn reserves(&self) -> Reserves {
        Reserves {
            virtual_sol: self.virtual_sol_reserves as nat,
            virtual_token: self.virtual_token_reserves as nat,
            real_sol: self.real_sol_reserves as nat,
            real_token: self.real_token_reserves as nat,
            graduated: self.is_graduated,
        }
    }

    /// Well-formed: the real token reserve is part of the virtual one.
    pub open spec fn wf(&self) -> bool {
        self.real_token_reserves <= self.virtual_token_reserves
    }

    /// `self` and `other` describe the same token: every field but the reserves
    /// and the graduation flag agrees.
    pub open spec fn same_token(&self, other: &BondingCurve) -> bool {
        &&& self.mint == other.mint
        &&& self.creator == other.creator
        &&& self.total_supply == other.total_supply
        &&& self.created_at == other.created_at
        &&& self.name == other.name
        &&& self.symbol == other.symbol
        &&& self.uri == other.uri
        &&& self.bump == other.bump
        &&& self.vault_bump == other.vault_bump
    }
}

/// What creating a curve needs from its surroundings: the token and its creator,
/// whether a record for the token already exists, the time of creation, and the
/// bump seeds of the record's and the vault's addresses.
#[derive(Clone, Copy, Debug, PartialEq, Eq)]
pub struct CreateToken {
    pub mint: Key,
    pub creator: Key,
    pub curve_exists: bool,
    pub created_at: i64,
    pub bump: u8,
    pub vault_bump: u8,
}

} // verus!
