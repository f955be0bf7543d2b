//! The byte encodings that a description is assembled from. They are produced by
//! `parity-scale-codec`; what this module states of them is taken on trust.

use crate::junction::NetworkId;
use parity_scale_codec::{Compact, Encode};
use staging_xcm::v3::NetworkId as XcmNetworkId;
use vstd::prelude::*;

verus! {

/// The `width` low bytes of `value`, least significant first.
pub open spec fn le_bytes(value: nat, width: nat) -> Seq<u8>
    decreases width,
{
    if width == 0 {
        Seq::<u8>::empty()
    } else {
        seq![(value % 256) as u8] + le_bytes(value / 256, (width - 1) as nat)
    }
}

/// The compact encoding of an unsigned 32-bit integer: the two low bits of the
/// first byte give the mode, the value is shifted left past them; in the last
/// mode the value follows the mode byte unshifted.
pub open spec fn compact_u32(value: u32) -> Seq<u8> {
    if value <= 0x3f {
        le_bytes((value * 4) as nat, 1)
    } else if value <= 0x3fff {
        le_bytes((value * 4 + 1) as nat, 2)
    } else if value <= 0x3fff_ffff {
        le_bytes((value * 4 + 2) as nat, 4)
    } else {
        seq![3u8] + le_bytes(value as nat, 4)
    }
}

/// The encoding of a byte string of unknown length: its length in compact form,
/// then the bytes.
pub open spec fn length_prefixed(bytes: Seq<u8>) -> Seq<u8>
    recommends
        bytes.len() <= u32::MAX,
{
    compact_u32(bytes.len() as u32) + bytes
}

/// The least number of bytes that hold `value`.
pub open spec fn byte_width(value: nat) -> nat
    decreases value,
{
    if value < 256 {
        1
    } else {
        1 + byte_width(value / 256)
    }
}

/// The compact encoding of an unsigned 64-bit integer: as [`compact_u32`] below
/// 2^30; from there on a first byte that holds the mode and the number of
/// bytes beyond four, then the value in the least number of bytes.
pub open spec fn compact_u64(value: u64) -> Seq<u8> {
    if value <= 0x3fff_ffff {
        compact_u32(value as u32)
    } else {
        let width = byte_width(value as nat);
        seq![(3 + 4 * (width - 4)) as u8] + le_bytes(value as nat, width)
    }
}

/// The encoding of a network identifier: the position of its variant among the
/// variants, in one byte, then its fields in order; a block number in eight
/// bytes, a chain identifier in compact form, a hash as it is.
pub open spec fn network_id_encoding(network: NetworkId) -> Seq<u8> {
    match network {
        NetworkId::ByGenesis(hash) => seq![0u8] + hash@,
        NetworkId::ByFork { block_number, block_hash } => seq![1u8] + le_bytes(
            block_number as nat,
            8,
        ) + block_hash@,
        NetworkId::Polkadot => seq![2u8],
        NetworkId::Kusama => seq![3u8],
        NetworkId::Westend => seq![4u8],
        NetworkId::Rococo => seq![5u8],
        NetworkId::Wococo => seq![6u8],
        NetworkId::Ethereum { chain_id } => seq![7u8] + compact_u64(chain_id),
        NetworkId::BitcoinCore => seq![8u8],
        NetworkId::BitcoinCash => seq![9u8],
        NetworkId::PolkadotBulletin => seq![10u8],
    }
}

/// Calls `Encode::encode` of `parity_scale_codec` on `Compact<u32>`. Trusted: the
/// result is the compact encoding of `value`, in one of its four modes by the
/// size of `value`.
#[verifier::external_body]
pub(crate) fn encode_compact_u32(value: u32) -> (out: Vec<u8>)
    ensures
        out@ == compact_u32(value),
{
    Compact::<u32>::from(value).encode()
}

/// Calls `Encode::encode` of `parity_scale_codec` on `Vec<u8>`. Trusted: the
/// result is the compact encoding of the length, then the bytes unchanged. The
/// call panics on a length that does not fit 32 bits, which `requires` leaves out.
#[verifier::external_body]
pub(crate) fn encode_bytes(bytes: &Vec<u8>) -> (out: Vec<u8>)
    requires
        bytes@.len() <= u32::MAX,
    ensures
        out@ == length_prefixed(bytes@),
{
    bytes.encode()
}

/// Calls `Encode::encode` on the `NetworkId` of `staging_xcm` that has the same
/// variant and fields. Trusted: the result is what `staging_xcm` derives for the
/// type, which is the variant's position and then the fields, the chain
/// identifier being marked compact.
#[verifier::external_body]
pub(crate) fn encode_network_id(network: &NetworkId) -> (out: Vec<u8>)
    ensures
        out@ == network_id_encoding(*network),
{
    let outside = match *network {
        NetworkId::ByGenesis(hash) => XcmNetworkId::ByGenesis(hash),
        NetworkId::ByFork { block_number, block_hash } => XcmNetworkId::ByFork { block_number, block_hash },
        NetworkId::Polkadot => XcmNetworkId::Polkadot,
        NetworkId::Kusama => XcmNetworkId::Kusama,
        NetworkId::Westend => XcmNetworkId::Westend,
        NetworkId::Rococo => XcmNetworkId::Rococo,
        NetworkId::Wococo => XcmNetworkId::Wococo,
        NetworkId::Ethereum { chain_id } => XcmNetworkId::Ethereum { chain_id },
        NetworkId::BitcoinCore => XcmNetworkId::BitcoinCore,
        NetworkId::BitcoinCash => XcmNetworkId::BitcoinCash,
        NetworkId::PolkadotBulletin => XcmNetworkId::PolkadotBulletin,
    };
    outside.encode()
}

} // verus!
