//! The data of a token's metadata account, as plain values.
use vstd::prelude::*;

verus! {

/// A creator listed in a token's metadata.
#[derive(Clone, Copy, Debug, PartialEq, Eq)]
pub struct Creator {
    pub address: [u8; 32],
    pub verified: bool,
    pub share: u8,
}

/// The collection a token belongs to.
#[derive(Clone, Copy, Debug, PartialEq, Eq)]
pub struct Collection {
    pub verified: bool,
    pub key: [u8; 32],
}

/// How a token's uses are spent.
#[derive(Clone, Copy, Debug, PartialEq, Eq)]
pub enum UseMethod {
    Burn,
    Multiple,
    Single,
}

/// The uses a token grants.
#[derive(Clone, Copy, Debug, PartialEq, Eq)]
pub struct Uses {
    pub use_method: UseMethod,
    pub remaining: u64,
    pub total: u64,
}

/// Details of a token that is itself a collection.
#[derive(Clone, Copy, Debug, PartialEq, Eq)]
pub enum CollectionDetails {
    V1 { size: u64 },
    V2 { padding: [u8; 8] },
}

/// What the metadata account of a new token is created with.
#[derive(Debug, PartialEq, Eq)]
pub struct TokenMetadata {
    pub name: String,
    pub symbol: String,
    pub uri: String,
    pub seller_fee_basis_points: u16,
    pub creators: Option<Vec<Creator>>,
    pub collection: Option<Collection>,
    pub uses: Option<Uses>,
    pub is_mutable: bool,
    pub collection_details: Option<CollectionDetails>,
    /// The update authority signs the creation.
    pub update_authority_is_signer: bool,
    /// The rent sysvar account is passed to the call.
    pub passes_rent_sysvar: bool,
}

} // verus!
