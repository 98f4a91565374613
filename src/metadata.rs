use vstd::prelude::*;

use crate::key::Key;

verus! {

/// A creator listed on an NFT, with its share of royalties in percent.
#[derive(Clone, Copy)]
pub struct Creator {
    pub address: Key,
    pub verified: bool,
    pub share: u8,
}

/// The collection an NFT belongs to.
#[derive(Clone, Copy)]
pub struct Collection {
    pub verified: bool,
    pub key: Key,
}

/// How the uses of an NFT are consumed.
#[derive(Clone, Copy, PartialEq, Eq, Structural, Debug)]
pub enum UseMethod {
    Burn,
    Multiple,
    Single,
}

/// The uses an NFT grants.
#[derive(Clone, Copy)]
pub struct Uses {
    pub use_method: UseMethod,
    pub remaining: u64,
    pub total: u64,
}

/// The descriptive part of a metadata record.
pub struct Data {
    pub name: String,
    pub symbol: String,
    pub uri: String,
    pub seller_fee_basis_points: u16,
    pub creators: Option<Vec<Creator>>,
}

/// The fields of a metadata record that an update reads.
pub struct Metadata {
    pub data: Data,
    pub collection: Option<Collection>,
    pub uses: Option<Uses>,
}

/// The replacement data handed to the metadata program.
pub struct DataV2 {
    pub name: String,
    pub symbol: String,
    pub uri: String,
    pub seller_fee_basis_points: u16,
    pub creators: Option<Vec<Creator>>,
    pub collection: Option<Collection>,
    pub uses: Option<Uses>,
}

/// `d` carries every field of `m` unchanged but the URI, which is `uri`.
pub open spec fn is_rewrite_of(d: DataV2, m: Metadata, uri: Seq<char>) -> bool {
    &&& d.uri@ == uri
    &&& d.name == m.data.name
    &&& d.symbol == m.data.symbol
    &&& d.seller_fee_basis_points == m.data.seller_fee_basis_points
    &&& d.creators == m.data.creators
    &&& d.collection == m.collection
    &&& d.uses == m.uses
}

/// The replacement for `metadata` whose only change is the URI.
pub fn rewrite_uri(metadata: Metadata, new_uri: String) -> (r: DataV2)
    ensures
        is_rewrite_of(r, metadata, new_uri@),
{
    let Metadata { data, collection, uses } = metadata;
    DataV2 {
        name: data.name,
        symbol: data.symbol,
        uri: new_uri,
        seller_fee_basis_points: data.seller_fee_basis_points,
        creators: data.creators,
        collection,
        uses,
    }
}

} // verus!
