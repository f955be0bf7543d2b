//! Canonical description of a location by the family of chains it belongs to.
//!
//! A description strips one layer off a location, names it, and hands the rest
//! to another describer. The bytes are input to the hash from which an account
//! is derived, so both their content and their order are fixed.

use crate::codec::{
    compact_u32, encode_bytes, encode_compact_u32, encode_network_id, length_prefixed,
    network_id_encoding,
};
use crate::junction::{Junction, NetworkId};
use crate::location::{Location, LocationView};
use core::marker::PhantomData;
use vstd::prelude::*;
use vstd::string::{StrSliceExecFns, StringSliceAdditionalSpecFns};

verus! {

/// Gives a location a canonical byte string, or reports that it has none.
pub trait DescribeLocation {
    /// The description of `location`; `None` where it is not representable.
    fn describe_location(location: &Location) -> Option<Vec<u8>>;
}

/// The layer that a description strips off a location.
#[derive(Clone, Copy, Debug, PartialEq, Eq)]
pub enum Layer {
    /// A chain below the describing one.
    ChildChain { index: u32 },
    /// A chain beside the describing one.
    SiblingChain { index: u32 },
    /// The chain above the describing one.
    ParentChain,
    /// A chain given absolutely, by its network and its index there.
    UniversalParachain { network: NetworkId, index: u32 },
}

/// The bytes `ChildChain`.
pub open spec fn child_chain_tag() -> Seq<u8> {
    "ChildChain".spec_bytes()
}

/// The bytes `SiblingChain`.
pub open spec fn sibling_chain_tag() -> Seq<u8> {
    "SiblingChain".spec_bytes()
}

/// The bytes `ParentChain`.
pub open spec fn parent_chain_tag() -> Seq<u8> {
    "ParentChain".spec_bytes()
}

/// The bytes `UniversalLocation`.
pub open spec fn universal_location_tag() -> Seq<u8> {
    "UniversalLocation".spec_bytes()
}

/// The bytes `Parachain`.
pub open spec fn parachain_tag() -> Seq<u8> {
    "Parachain".spec_bytes()
}

/// The location that descends `interior` from where it is held.
pub open spec fn interior_location(interior: Seq<Junction>) -> LocationView {
    LocationView { parents: 0, interior }
}

/// The layer of a location, with what is left below it, as it was before
/// absolute locations were described: a child chain, a sibling chain or the
/// parent chain, in this order of precedence.
pub open spec fn legacy_layer_of(location: LocationView) -> Option<(Layer, LocationView)> {
    let path = location.interior;
    if location.parents == 0 && path.len() > 0 && path[0] is Parachain {
        Some((Layer::ChildChain { index: path[0]->Parachain_0 }, interior_location(path.skip(1))))
    } else if location.parents == 1 && path.len() > 0 && path[0] is Parachain {
        Some(
            (Layer::SiblingChain { index: path[0]->Parachain_0 }, interior_location(path.skip(1))),
        )
    } else if location.parents == 1 {
        Some((Layer::ParentChain, interior_location(path)))
    } else {
        None
    }
}

/// The layer of a location, with what is left below it: as [`legacy_layer_of`],
/// and after those a chain under a named network.
pub open spec fn layer_of(location: LocationView) -> Option<(Layer, LocationView)> {
    let path = location.interior;
    if legacy_layer_of(location) is Some {
        legacy_layer_of(location)
    } else if location.parents == 0 && path.len() > 1 && path[0] is GlobalConsensus
        && path[1] is Parachain {
        Some(
            (
                Layer::UniversalParachain {
                    network: path[0]->GlobalConsensus_0,
                    index: path[1]->Parachain_0,
                },
                interior_location(path.skip(2)),
            ),
        )
    } else {
        None
    }
}

/// The bytes that name a layer; the description of the rest follows them.
pub open spec fn layer_prefix(layer: Layer) -> Seq<u8> {
    match layer {
        Layer::ChildChain { index } => child_chain_tag() + compact_u32(index),
        Layer::SiblingChain { index } => sibling_chain_tag() + compact_u32(index),
        Layer::ParentChain => parent_chain_tag(),
        Layer::UniversalParachain { network, index } => universal_location_tag()
            + network_id_encoding(network) + parachain_tag() + compact_u32(index),
    }
}

/// The description of a location with the given layer, where `rest` describes
/// what is left below it: the layer's name, then `rest` with its length before
/// it. `None` where the length of `rest` does not fit 32 bits.
pub open spec fn describe_layer(layer: Layer, rest: Seq<u8>) -> Option<Seq<u8>> {
    if rest.len() > u32::MAX {
        None
    } else {
        Some(layer_prefix(layer) + length_prefixed(rest))
    }
}

/// As [`describe_layer`], where the rest may have no description.
pub open spec fn describe_layer_over(layer: Layer, rest: Option<Seq<u8>>) -> Option<Seq<u8>> {
    match rest {
        Some(bytes) => describe_layer(layer, bytes),
        None => None,
    }
}

/// The bytes of a description, if there is one.
pub open spec fn described(result: Option<Vec<u8>>) -> Option<Seq<u8>> {
    match result {
        Some(bytes) => Some(bytes@),
        None => None,
    }
}

/// The layer of a location among those that are recognised: all of them where
/// `universal` is set, else those of [`legacy_layer_of`].
pub open spec fn recognised_layer(universal: bool, location: LocationView) -> Option<
    (Layer, LocationView),
> {
    if universal {
        layer_of(location)
    } else {
        legacy_layer_of(location)
    }
}

/// What a describer of families may return for `location`, given what `Suffix`
/// may return: nothing where `location` has no recognised layer; else the layer
/// over a description that `Suffix` gives of the rest.
pub open spec fn describes_family<Suffix: DescribeLocation>(
    universal: bool,
    location: LocationView,
    result: Option<Vec<u8>>,
) -> bool {
    match recognised_layer(universal, location) {
        None => result is None,
        Some((layer, rest)) => exists|tail: Location, inner: Option<Vec<u8>>|
            tail@ == rest && #[trigger] call_ensures(Suffix::describe_location, (&tail,), inner)
                && described(result) == describe_layer_over(layer, described(inner)),
    }
}

/// `Suffix` describes a location by its value alone: two calls on locations of
/// the same value give the same bytes, or both give none.
pub open spec fn is_deterministic<Suffix: DescribeLocation>() -> bool {
    forall|a: Location, b: Location, x: Option<Vec<u8>>, y: Option<Vec<u8>>|
        a@ == b@ && #[trigger] call_ensures(Suffix::describe_location, (&a,), x)
            && #[trigger] call_ensures(Suffix::describe_location, (&b,), y) ==> described(x)
            == described(y)
}

impl Layer {
    /// The layer of `location` and the location left below it. With `universal`
    /// unset, a chain under a named network is not recognised.
    pub fn of(location: &Location, universal: bool) -> (r: Option<(Layer, Location)>)
        ensures
            match recognised_layer(universal, location@) {
                Some((layer, rest)) => r matches Some(found) && found.0 == layer && found.1@
                    == rest,
                None => r is None,
            },
    {
        let first = location.interior.first();
        if location.parents == 0 {
            match first {
                Some(Junction::Parachain(index)) => {
                    let (tail, _) = location.interior.split_first();
                    Some((Layer::ChildChain { index }, Location::new(0, tail)))
                },
                Some(Junction::GlobalConsensus(network)) => {
                    if !universal {
                        return None;
                    }
                    let (tail, _) = location.interior.split_first();
                    match tail.first() {
                        Some(Junction::Parachain(index)) => {
                            let (tail, _) = tail.split_first();
                            assert(tail@ =~= location.interior@.skip(2));
                            Some(
                                (
                                    Layer::UniversalParachain { network, index },
                                    Location::new(0, tail),
                                ),
                            )
                        },
                        _ => None,
                    }
                },
                _ => None,
            }
        } else if location.parents == 1 {
            match first {
                Some(Junction::Parachain(index)) => {
                    let (tail, _) = location.interior.split_first();
                    Some((Layer::SiblingChain { index }, Location::new(0, tail)))
                },
                _ => Some((Layer::ParentChain, Location::new(0, location.interior.clone()))),
            }
        } else {
            None
        }
    }

    /// The description of a location with this layer, where `rest` describes
    /// what is left below it.
    pub fn describe(&self, rest: &Vec<u8>) -> (r: Option<Vec<u8>>)
        ensures
            described(r) == describe_layer(*self, rest@),
    {
        if rest.len() > u32::MAX as usize {
            return None;
        }
        let mut out: Vec<u8> = Vec::new();
        match *self {
            Layer::ChildChain { index } => {
                let mut tag = "ChildChain".as_bytes_vec();
                out.append(&mut tag);
                let mut number = encode_compact_u32(index);
                out.append(&mut number);
            },
            Layer::SiblingChain { index } => {
                let mut tag = "SiblingChain".as_bytes_vec();
                out.append(&mut tag);
                let mut number = encode_compact_u32(index);
                out.append(&mut number);
            },
            Layer::ParentChain => {
                let mut tag = "ParentChain".as_bytes_vec();
                out.append(&mut tag);
            },
            Layer::UniversalParachain { network, index } => {
                let mut tag = "UniversalLocation".as_bytes_vec();
                out.append(&mut tag);
                let mut name = encode_network_id(&network);
                out.append(&mut name);
                let mut kind = "Parachain".as_bytes_vec();
                out.append(&mut kind);
                let mut number = encode_compact_u32(index);
                out.append(&mut number);
            },
        }
        assert(out@ =~= layer_prefix(*self));
        let mut body = encode_bytes(rest);
        out.append(&mut body);
        Some(out)
    }
}

/// Describes `location` by its layer, one of those that `universal` admits,
/// over what `Suffix` gives for the rest.
fn describe_family<Suffix: DescribeLocation>(location: &Location, universal: bool) -> (r: Option<
    Vec<u8>,
>)
    ensures
        describes_family::<Suffix>(universal, location@, r),
{
    match Layer::of(location, universal) {
        None => None,
        Some((layer, tail)) => {
            let inner = Suffix::describe_location(&tail);
            let ghost given = inner;
            let r = match inner {
                Some(rest) => layer.describe(&rest),
                None => None,
            };
            assert(call_ensures(Suffix::describe_location, (&tail,), given));
            assert(described(r) == describe_layer_over(layer, described(given)));
            r
        },
    }
}

/// Describes child, sibling and parent chains, and chains under a named
/// network; `DescribeInterior` describes what lies within the chain.
pub struct NewDescribeFamily<DescribeInterior>(pub PhantomData<DescribeInterior>);

impl<Suffix: DescribeLocation> DescribeLocation for NewDescribeFamily<Suffix> {
    fn describe_location(location: &Location) -> (r: Option<Vec<u8>>)
        ensures
            describes_family::<Suffix>(true, location@, r),
    {
        describe_family::<Suffix>(location, true)
    }
}

/// Describes child, sibling and parent chains only; `DescribeInterior`
/// describes what lies within the chain.
pub struct DescribeFamily<DescribeInterior>(pub PhantomData<DescribeInterior>);

impl<Suffix: DescribeLocation> DescribeLocation for DescribeFamily<Suffix> {
    fn describe_location(location: &Location) -> (r: Option<Vec<u8>>)
        ensures
            describes_family::<Suffix>(false, location@, r),
    {
        describe_family::<Suffix>(location, false)
    }
}

/// Describes the location that is where it is held, by no bytes, and no other:
/// the end of a description.
pub struct DescribeTerminus;

impl DescribeLocation for DescribeTerminus {
    fn describe_location(location: &Location) -> (r: Option<Vec<u8>>)
        ensures
            described(r) == if location@.parents == 0 && location@.interior.len() == 0 {
                Some(Seq::<u8>::empty())
            } else {
                None
            },
    {
        if location.parents == 0 && location.interior.len() == 0 {
            Some(Vec::new())
        } else {
            None
        }
    }
}

/// The end of a description is deterministic, so every stack of describers of
/// families over it is.
pub proof fn describe_terminus_is_deterministic()
    ensures
        is_deterministic::<DescribeTerminus>(),
        is_deterministic::<NewDescribeFamily<DescribeTerminus>>(),
{
    new_describe_family_is_deterministic::<DescribeTerminus>();
}

/// A location has the same description, for the same description of what is
/// left below its layer, whoever computes it.
pub proof fn describes_family_is_deterministic<Suffix: DescribeLocation>(
    universal: bool,
    location: LocationView,
    first: Option<Vec<u8>>,
    second: Option<Vec<u8>>,
)
    requires
        is_deterministic::<Suffix>(),
        describes_family::<Suffix>(universal, location, first),
        describes_family::<Suffix>(universal, location, second),
    ensures
        described(first) == described(second),
{
}

/// Describing is deterministic: where `Suffix` is, two calls of
/// [`NewDescribeFamily`] on locations of the same value return the same bytes,
/// or both return none.
pub proof fn describe_location_is_deterministic<Suffix: DescribeLocation>(
    a: Location,
    b: Location,
    first: Option<Vec<u8>>,
    second: Option<Vec<u8>>,
)
    requires
        is_deterministic::<Suffix>(),
        a@ == b@,
        call_ensures(NewDescribeFamily::<Suffix>::describe_location, (&a,), first),
        call_ensures(NewDescribeFamily::<Suffix>::describe_location, (&b,), second),
    ensures
        described(first) == described(second),
{
    describes_family_is_deterministic::<Suffix>(true, a@, first, second);
}

/// Describing families is itself deterministic where the describer below is, so
/// describers can be stacked.
pub proof fn new_describe_family_is_deterministic<Suffix: DescribeLocation>()
    requires
        is_deterministic::<Suffix>(),
    ensures
        is_deterministic::<NewDescribeFamily<Suffix>>(),
{
    assert forall|a: Location, b: Location, x: Option<Vec<u8>>, y: Option<Vec<u8>>|
        a@ == b@ && #[trigger] call_ensures(
            NewDescribeFamily::<Suffix>::describe_location,
            (&a,),
            x,
        ) && #[trigger] call_ensures(NewDescribeFamily::<Suffix>::describe_location, (&b,), y)
        implies described(x) == described(y) by {
        describe_location_is_deterministic::<Suffix>(a, b, x, y);
    }
}

/// Backward compatibility: on a child chain, a sibling chain and the parent
/// chain, the layer and the rest are what they were before chains under a named
/// network were recognised, so the descriptions admitted are the same.
pub proof fn new_layers_extend_legacy_layers<Suffix: DescribeLocation>(
    location: LocationView,
    result: Option<Vec<u8>>,
)
    requires
        legacy_layer_of(location) is Some,
    ensures
        layer_of(location) == legacy_layer_of(location),
        describes_family::<Suffix>(true, location, result) <==> describes_family::<Suffix>(
            false,
            location,
            result,
        ),
{
}

/// Backward compatibility: on a child chain, a sibling chain and the parent
/// chain, [`NewDescribeFamily`] returns bit for bit what [`DescribeFamily`]
/// returns, where `Suffix` is deterministic.
pub proof fn new_describe_family_is_backward_compatible<Suffix: DescribeLocation>(
    location: Location,
    extended: Option<Vec<u8>>,
    legacy: Option<Vec<u8>>,
)
    requires
        is_deterministic::<Suffix>(),
        legacy_layer_of(location@) is Some,
        call_ensures(NewDescribeFamily::<Suffix>::describe_location, (&location,), extended),
        call_ensures(DescribeFamily::<Suffix>::describe_location, (&location,), legacy),
    ensures
        described(extended) == described(legacy),
{
    new_layers_extend_legacy_layers::<Suffix>(location@, extended);
    describes_family_is_deterministic::<Suffix>(false, location@, extended, legacy);
}

/// A location that ascends more than one level has no layer, and so no
/// description.
pub proof fn layers_ascend_at_most_once(location: LocationView)
    ensures
        location.parents >= 2 ==> layer_of(location) is None,
        layer_of(location) matches Some(found) ==> found.1.parents == 0
            && found.1.interior.len() <= location.interior.len(),
{
}

/// Only chains under a named network are described now and were not before.
pub proof fn new_layers_add_universal_parachain(location: LocationView)
    ensures
        layer_of(location) != legacy_layer_of(location) ==> legacy_layer_of(location) is None && (
        layer_of(location) matches Some(found) && found.0 is UniversalParachain),
{
}

} // verus!
