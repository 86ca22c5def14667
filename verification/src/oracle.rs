//! The asset ownership oracle: the current owner of an asset, read from
//! the raw bytes of the asset's account. The bytes are untrusted input.

use vstd::prelude::*;
use crate::keys::Pubkey;

verus! {

/// The owner field that `mpl_core`'s decoder finds in the account bytes
/// `data`, as key bytes; `None` where the decoder rejects the bytes.
pub uninterp spec fn decoded_owner(data: Seq<u8>) -> Option<Seq<u8>>;

/// An optional key as optional key bytes.
pub open spec fn key_bytes(key: Option<Pubkey>) -> Option<Seq<u8>> {
    match key {
        Some(k) => Some(k@),
        None => None,
    }
}

/// Calls `mpl_core::accounts::BaseAssetV1::from_bytes` on `data` and hands
/// out the `owner` field of the decoded asset, or `None` where decoding
/// fails. Nothing is claimed about which bytes decode, only that the
/// answer is the decoder's and depends on the bytes alone.
#[verifier::external_body]
pub(crate) fn read_asset_owner(data: &[u8]) -> (owner: Option<Pubkey>)
    ensures
        key_bytes(owner) == decoded_owner(data@),
{
    match mpl_core::accounts::BaseAssetV1::from_bytes(data) {
        Ok(asset) => Some(Pubkey { bytes: asset.owner.to_bytes() }),
        Err(_) => None,
    }
}

/// Whether the oracle's answer `owner` names `claimed` as the owner.
/// An unreadable asset has no owner to agree with.
pub fn owner_is(owner: &Option<Pubkey>, claimed: &Pubkey) -> (yes: bool)
    ensures
        yes == (key_bytes(*owner) == Some(claimed@)),
        yes == (*owner == Some(*claimed)),
{
    match owner {
        Some(key) => {
            let same = key.same(claimed);
            same
        },
        None => false,
    }
}

} // verus!
