//! The steps of a location's descend path, and the identifiers they carry.

use vstd::prelude::*;
use vstd::std_specs::cmp::PartialEqSpecImpl;

verus! {

/// Compares two byte arrays of the same length.
pub fn bytes_eq<const N: usize>(a: &[u8; N], b: &[u8; N]) -> (r: bool)
    ensures
        r == (*a == *b),
{
    let mut i: usize = 0;
    while i < N
        invariant
            i <= N,
            forall|k: int| 0 <= k < i ==> a@[k] == b@[k],
        decreases N - i,
    {
        if a[i] != b[i] {
            return false;
        }
        i = i + 1;
    }
    assert(a@ =~= b@);
    assert(*a =~= *b);
    true
}

/// Identifier of a top-level consensus domain.
#[derive(Clone, Copy, Debug)]
pub enum NetworkId {
    /// Network given by the hash of its genesis block.
    ByGenesis([u8; 32]),
    /// Network given by the number and hash of some block it contains.
    ByFork { block_number: u64, block_hash: [u8; 32] },
    Polkadot,
    Kusama,
    Westend,
    Rococo,
    Wococo,
    /// An Ethereum network, by its chain identifier.
    Ethereum { chain_id: u64 },
    BitcoinCore,
    BitcoinCash,
    PolkadotBulletin,
}

impl PartialEq for NetworkId {
    fn eq(&self, other: &Self) -> (r: bool) {
        match (self, other) {
            (NetworkId::ByGenesis(a), NetworkId::ByGenesis(b)) => bytes_eq(a, b),
            (
                NetworkId::ByFork { block_number: n, block_hash: a },
                NetworkId::ByFork { block_number: m, block_hash: b },
            ) => *n == *m && bytes_eq(a, b),
            (NetworkId::Polkadot, NetworkId::Polkadot) => true,
            (NetworkId::Kusama, NetworkId::Kusama) => true,
            (NetworkId::Westend, NetworkId::Westend) => true,
            (NetworkId::Rococo, NetworkId::Rococo) => true,
            (NetworkId::Wococo, NetworkId::Wococo) => true,
            (NetworkId::Ethereum { chain_id: a }, NetworkId::Ethereum { chain_id: b }) => *a == *b,
            (NetworkId::BitcoinCore, NetworkId::BitcoinCore) => true,
            (NetworkId::BitcoinCash, NetworkId::BitcoinCash) => true,
            (NetworkId::PolkadotBulletin, NetworkId::PolkadotBulletin) => true,
            _ => false,
        }
    }
}

impl Eq for NetworkId {

}

impl PartialEqSpecImpl for NetworkId {
    open spec fn obeys_eq_spec() -> bool {
        true
    }

    open spec fn eq_spec(&self, other: &Self) -> bool {
        *self == *other
    }
}

/// Compares two optional network identifiers.
pub fn network_option_eq(a: &Option<NetworkId>, b: &Option<NetworkId>) -> (r: bool)
    ensures
        r == (*a == *b),
{
    match (a, b) {
        (Some(x), Some(y)) => x == y,
        (None, None) => true,
        _ => false,
    }
}

/// Identifier of a pluralistic body.
#[derive(Clone, Copy, Debug)]
pub enum BodyId {
    Unit,
    /// A named body.
    Moniker([u8; 4]),
    /// An indexed body.
    Index(u32),
    Executive,
    Technical,
    Legislative,
    Judicial,
    Defense,
    Administration,
    Treasury,
}

impl PartialEq for BodyId {
    fn eq(&self, other: &Self) -> (r: bool) {
        match (self, other) {
            (BodyId::Unit, BodyId::Unit) => true,
            (BodyId::Moniker(a), BodyId::Moniker(b)) => bytes_eq(a, b),
            (BodyId::Index(a), BodyId::Index(b)) => *a == *b,
            (BodyId::Executive, BodyId::Executive) => true,
            (BodyId::Technical, BodyId::Technical) => true,
            (BodyId::Legislative, BodyId::Legislative) => true,
            (BodyId::Judicial, BodyId::Judicial) => true,
            (BodyId::Defense, BodyId::Defense) => true,
            (BodyId::Administration, BodyId::Administration) => true,
            (BodyId::Treasury, BodyId::Treasury) => true,
            _ => false,
        }
    }
}

impl Eq for BodyId {

}

impl PartialEqSpecImpl for BodyId {
    open spec fn obeys_eq_spec() -> bool {
        true
    }

    open spec fn eq_spec(&self, other: &Self) -> bool {
        *self == *other
    }
}

/// Part of a pluralistic body.
#[derive(Clone, Copy, Debug)]
pub enum BodyPart {
    /// The body's declaration, however it decides.
    Voice,
    /// A given number of members of the body.
    Members { count: u32 },
    /// A given number of members out of some larger caucus.
    Fraction { nom: u32, denom: u32 },
    /// No less than the given proportion of the members.
    AtLeastProportion { nom: u32, denom: u32 },
    /// More than the given proportion of the members.
    MoreThanProportion { nom: u32, denom: u32 },
}

impl PartialEq for BodyPart {
    fn eq(&self, other: &Self) -> (r: bool) {
        match (self, other) {
            (BodyPart::Voice, BodyPart::Voice) => true,
            (BodyPart::Members { count: a }, BodyPart::Members { count: b }) => *a == *b,
            (BodyPart::Fraction { nom: a, denom: c }, BodyPart::Fraction { nom: b, denom: d }) => *a
                == *b && *c == *d,
            (
                BodyPart::AtLeastProportion { nom: a, denom: c },
                BodyPart::AtLeastProportion { nom: b, denom: d },
            ) => *a == *b && *c == *d,
            (
                BodyPart::MoreThanProportion { nom: a, denom: c },
                BodyPart::MoreThanProportion { nom: b, denom: d },
            ) => *a == *b && *c == *d,
            _ => false,
        }
    }
}

impl Eq for BodyPart {

}

impl PartialEqSpecImpl for BodyPart {
    open spec fn obeys_eq_spec() -> bool {
        true
    }

    open spec fn eq_spec(&self, other: &Self) -> bool {
        *self == *other
    }
}

/// One step of a location's descend path.
#[allow(inconsistent_fields)]
#[derive(Clone, Copy, Debug)]
pub enum Junction {
    /// An indexed chain that belongs to the context.
    Parachain(u32),
    /// A 32-byte account of the context.
    AccountId32 { network: Option<NetworkId>, id: [u8; 32] },
    /// An 8-byte account index of the context.
    AccountIndex64 { network: Option<NetworkId>, index: u64 },
    /// A 20-byte account of the context.
    AccountKey20 { network: Option<NetworkId>, key: [u8; 20] },
    /// An indexed pallet of the context.
    PalletInstance(u8),
    /// A nondescript index within the context.
    GeneralIndex(u128),
    /// A nondescript key of up to 32 bytes within the context.
    GeneralKey { length: u8, data: [u8; 32] },
    /// The unambiguous child.
    OnlyChild,
    /// A pluralistic body within the context.
    Plurality { id: BodyId, part: BodyPart },
    /// A network with a consensus of its own; the root of an absolute location.
    GlobalConsensus(NetworkId),
}

impl PartialEq for Junction {
    fn eq(&self, other: &Self) -> (r: bool) {
        match (self, other) {
            (Junction::Parachain(a), Junction::Parachain(b)) => *a == *b,
            (
                Junction::AccountId32 { network: n, id: a },
                Junction::AccountId32 { network: m, id: b },
            ) => network_option_eq(n, m) && bytes_eq(a, b),
            (
                Junction::AccountIndex64 { network: n, index: a },
                Junction::AccountIndex64 { network: m, index: b },
            ) => network_option_eq(n, m) && *a == *b,
            (
                Junction::AccountKey20 { network: n, key: a },
                Junction::AccountKey20 { network: m, key: b },
            ) => network_option_eq(n, m) && bytes_eq(a, b),
            (Junction::PalletInstance(a), Junction::PalletInstance(b)) => *a == *b,
            (Junction::GeneralIndex(a), Junction::GeneralIndex(b)) => *a == *b,
            (
                Junction::GeneralKey { length: n, data: a },
                Junction::GeneralKey { length: m, data: b },
            ) => *n == *m && bytes_eq(a, b),
            (Junction::OnlyChild, Junction::OnlyChild) => true,
            (Junction::Plurality { id: a, part: c }, Junction::Plurality { id: b, part: d }) => a
                == b && c == d,
            (Junction::GlobalConsensus(a), Junction::GlobalConsensus(b)) => a == b,
            _ => false,
        }
    }
}

impl Eq for Junction {

}

impl PartialEqSpecImpl for Junction {
    open spec fn obeys_eq_spec() -> bool {
        true
    }

    open spec fn eq_spec(&self, other: &Self) -> bool {
        *self == *other
    }
}

} // verus!
