//! The barrier that computes the origin of a message before it lets another
//! barrier judge the message.
//!
//! A message may begin with instructions that reassign its origin. The barrier
//! consumes a bounded prefix of them, follows what they do to the origin, and
//! hands the rest of the message with the origin so computed to the barrier
//! inside it.

use crate::junction::Junction;
use crate::location::{
    append_with_spec, global_consensus_of, prepended_with_spec, relative_to_spec,
    within_global_spec, Junctions, Location, LocationView,
};
use core::marker::PhantomData;
use vstd::prelude::*;

verus! {

/// An amount of execution resources.
#[derive(Clone, Copy, Debug, PartialEq, Eq, Structural)]
pub struct Weight {
    /// Computation time.
    pub ref_time: u64,
    /// Size of the proof that the execution needs.
    pub proof_size: u64,
}

/// What a barrier knows of the message beside its instructions.
#[derive(Clone, Copy, Debug)]
pub struct Properties {
    /// Weight that may be spent without payment.
    pub weight_credit: Weight,
    /// The identifier of the message, once one is set.
    pub message_id: Option<[u8; 32]>,
}

/// Why a message is not processed.
#[derive(Clone, Copy, Debug, PartialEq, Eq, Structural)]
pub enum ProcessMessageError {
    /// The message is malformed.
    BadFormat,
    /// The message is corrupt.
    Corrupt,
    /// The message asks for what is not supported.
    Unsupported,
    /// The message needs more weight than the limit; the weight it needs.
    Overweight(Weight),
    /// Processing is deferred.
    Yield,
}

/// One instruction of a message, as far as the origin is concerned.
#[derive(Debug)]
pub enum Instruction<Call> {
    /// The origin is the given junction below the universal root.
    UniversalOrigin(Junction),
    /// The origin descends by the given path.
    DescendOrigin(Junctions),
    /// Any instruction that leaves the origin alone.
    Other(Call),
}

/// A value that a type stands for.
pub trait Get<T> {
    /// The value.
    fn get() -> T;
}

/// Decides whether a message may be executed.
pub trait ShouldExecute<Call> {
    /// `Ok` where the message of the given `instructions`, sent from `origin`,
    /// may be executed within `max_weight`.
    fn should_execute(
        origin: &Location,
        instructions: &mut [Instruction<Call>],
        max_weight: Weight,
        properties: &mut Properties,
    ) -> Result<(), ProcessMessageError>;
}

/// The origin that a message claims to come from as `new_global` below the
/// universal root, seen by the chain at `local_universal`: the origin so far
/// is taken out of the local chain, as far as that chain lies outside
/// `new_global`, and set under the root network of the local chain. `None`
/// where the local chain names no root network, or where a step fails.
pub open spec fn universal_origin_spec(
    origin: LocationView,
    local_universal: Seq<Junction>,
    new_global: Junction,
) -> Option<LocationView> {
    match global_consensus_of(local_universal) {
        None => None,
        Some(root) => match prepended_with_spec(
            origin,
            relative_to_spec(local_universal, seq![new_global]),
        ) {
            None => None,
            Some(rebased) => match within_global_spec(
                seq![Junction::GlobalConsensus(root)],
                rebased,
            ) {
                None => None,
                Some(interior) => Some(LocationView { parents: 0, interior }),
            },
        },
    }
}

/// What an instruction does to the scan of a message's prefix.
pub enum Effect {
    /// The instruction is consumed; the origin after it.
    Moves(LocationView),
    /// The instruction cannot be followed.
    Fails,
    /// The instruction does not concern the origin: the prefix ends before it.
    Ends,
}

/// What `instruction` does where the origin so far is `origin`.
pub open spec fn effect_of<Call>(
    instruction: Instruction<Call>,
    origin: LocationView,
    local_universal: Seq<Junction>,
) -> Effect {
    match instruction {
        Instruction::UniversalOrigin(new_global) => match universal_origin_spec(
            origin,
            local_universal,
            new_global,
        ) {
            Some(next) => Effect::Moves(next),
            None => Effect::Fails,
        },
        Instruction::DescendOrigin(path) => match append_with_spec(origin, path@) {
            Some(next) => Effect::Moves(next),
            None => Effect::Fails,
        },
        Instruction::Other(_) => Effect::Ends,
    }
}

/// Where the scan of a prefix ends.
pub struct Resolved {
    /// The origin after the instructions consumed.
    pub origin: LocationView,
    /// The number of instructions consumed.
    pub skipped: nat,
}

/// The end of the scan that stands before instruction `skipped` with the origin
/// `origin`. It goes on while there is an instruction, fewer than
/// `max_prefixes` are consumed, and the instruction moves the origin. `None`
/// where an instruction fails.
pub open spec fn resolve_from<Call>(
    instructions: Seq<Instruction<Call>>,
    local_universal: Seq<Junction>,
    max_prefixes: nat,
    origin: LocationView,
    skipped: nat,
) -> Option<Resolved>
    decreases instructions.len() - skipped,
{
    if skipped >= instructions.len() || skipped >= max_prefixes {
        Some(Resolved { origin, skipped })
    } else {
        match effect_of(instructions[skipped as int], origin, local_universal) {
            Effect::Ends => Some(Resolved { origin, skipped }),
            Effect::Fails => None,
            Effect::Moves(next) => resolve_from(
                instructions,
                local_universal,
                max_prefixes,
                next,
                skipped + 1,
            ),
        }
    }
}

/// The origin of a message sent from `origin`, and the number of leading
/// instructions that lead to it.
pub open spec fn resolve_spec<Call>(
    instructions: Seq<Instruction<Call>>,
    local_universal: Seq<Junction>,
    max_prefixes: nat,
    origin: LocationView,
) -> Option<Resolved> {
    resolve_from(instructions, local_universal, max_prefixes, origin, 0)
}

/// The origin after an instruction that sets it to `new_global` below the
/// universal root.
pub fn universal_origin(origin: &Location, local_universal: &Junctions, new_global: Junction) -> (r:
    Result<Location, ()>)
    ensures
        match universal_origin_spec(origin@, local_universal@, new_global) {
            Some(view) => r matches Ok(l) && l@ == view,
            None => r is Err,
        },
{
    let root = match local_universal.global_consensus() {
        Ok(network) => network,
        Err(_) => {
            return Err(());
        },
    };
    let relative = local_universal.relative_to(&Junctions::x1(new_global));
    let rebased = match origin.prepended_with(&relative) {
        Ok(location) => location,
        Err(_) => {
            return Err(());
        },
    };
    match Junctions::x1(Junction::GlobalConsensus(root)).within_global(&rebased) {
        Ok(interior) => Ok(Location::new(0, interior)),
        Err(_) => Err(()),
    }
}

/// Follows the instructions at the head of a message that reassign its origin,
/// at most `max_prefixes` of them, and returns the origin they lead to with
/// the number of instructions consumed.
pub fn resolve_origin<Call>(
    origin: &Location,
    instructions: &[Instruction<Call>],
    local_universal: &Junctions,
    max_prefixes: u32,
) -> (r: Result<(Location, usize), ProcessMessageError>)
    ensures
        match resolve_spec(instructions@, local_universal@, max_prefixes as nat, origin@) {
            Some(resolved) => r matches Ok(found) && found.0@ == resolved.origin && found.1
                == resolved.skipped,
            None => r == Err::<(Location, usize), ProcessMessageError>(
                ProcessMessageError::Unsupported,
            ),
        },
        r matches Ok(found) ==> found.1 <= max_prefixes && found.1 <= instructions@.len(),
{
    let mut actual = origin.clone();
    let mut skipped: usize = 0;
    while skipped < instructions.len() && skipped < max_prefixes as usize
        invariant
            skipped <= instructions@.len(),
            skipped <= max_prefixes,
            resolve_from(
                instructions@,
                local_universal@,
                max_prefixes as nat,
                actual@,
                skipped as nat,
            ) == resolve_spec(instructions@, local_universal@, max_prefixes as nat, origin@),
        decreases instructions@.len() - skipped,
    {
        match &instructions[skipped] {
            Instruction::UniversalOrigin(new_global) => {
                match universal_origin(&actual, local_universal, *new_global) {
                    Ok(next) => {
                        actual = next;
                    },
                    Err(_) => {
                        return Err(ProcessMessageError::Unsupported);
                    },
                }
            },
            Instruction::DescendOrigin(path) => {
                if actual.append_with(path).is_err() {
                    return Err(ProcessMessageError::Unsupported);
                }
            },
            Instruction::Other(_) => {
                return Ok((actual, skipped));
            },
        }
        skipped = skipped + 1;
    }
    Ok((actual, skipped))
}

/// A barrier that first computes the origin of the message from the
/// instructions at its head, at most `MaxPrefixes` of them, as seen from the
/// chain at `LocalUniversal`, and then asks `InnerBarrier`.
pub struct NewWithComputedOrigin<InnerBarrier, LocalUniversal, MaxPrefixes>(
    pub PhantomData<(InnerBarrier, LocalUniversal, MaxPrefixes)>,
);

impl<
    Call,
    InnerBarrier: ShouldExecute<Call>,
    LocalUniversal: Get<Junctions>,
    MaxPrefixes: Get<u32>,
> ShouldExecute<Call> for NewWithComputedOrigin<InnerBarrier, LocalUniversal, MaxPrefixes> {
    fn should_execute(
        origin: &Location,
        instructions: &mut [Instruction<Call>],
        max_weight: Weight,
        properties: &mut Properties,
    ) -> (r: Result<(), ProcessMessageError>)
        ensures
            exists|local_universal: Junctions, max_prefixes: u32|
                #[trigger] call_ensures(LocalUniversal::get, (), local_universal)
                    && #[trigger] call_ensures(MaxPrefixes::get, (), max_prefixes) && match resolve_spec(
                    old(instructions)@,
                    local_universal@,
                    max_prefixes as nat,
                    origin@,
                ) {
                    None => r == Err::<(), ProcessMessageError>(ProcessMessageError::Unsupported)
                        && final(instructions)@ == old(instructions)@ && *final(properties)
                        == *old(properties),
                    Some(resolved) => exists|
                        actual: Location,
                        rest: &mut [Instruction<Call>],
                        context: &mut Properties,
                    |
                        actual@ == resolved.origin && rest@ == old(instructions)@.skip(
                            resolved.skipped as int,
                        ) && *context == *old(properties) && #[trigger] call_ensures(
                            InnerBarrier::should_execute,
                            (&actual, rest, max_weight, context),
                            r,
                        ) && final(instructions)@ == old(instructions)@.take(
                            resolved.skipped as int,
                        ) + final(rest)@ && *final(properties) == *final(context),
                },
    {
        let local_universal = LocalUniversal::get();
        let max_prefixes = MaxPrefixes::get();
        match resolve_origin(origin, instructions, &local_universal, max_prefixes) {
            Err(error) => Err(error),
            Ok((actual, skipped)) => {
                let (_, rest) = instructions.split_at_mut(skipped);
                InnerBarrier::should_execute(&actual, rest, max_weight, properties)
            },
        }
    }
}

/// The scan consumes no more instructions than `max_prefixes` and no more
/// than there are, wherever it starts below those bounds.
pub proof fn lemma_resolve_from_is_bounded<Call>(
    instructions: Seq<Instruction<Call>>,
    local_universal: Seq<Junction>,
    max_prefixes: nat,
    origin: LocationView,
    skipped: nat,
)
    requires
        skipped <= instructions.len(),
        skipped <= max_prefixes,
    ensures
        resolve_from(instructions, local_universal, max_prefixes, origin, skipped) matches Some(
            resolved,
        ) ==> skipped <= resolved.skipped <= max_prefixes && resolved.skipped
            <= instructions.len(),
    decreases instructions.len() - skipped,
{
    if skipped < instructions.len() && skipped < max_prefixes {
        match effect_of(instructions[skipped as int], origin, local_universal) {
            Effect::Moves(next) => {
                lemma_resolve_from_is_bounded(
                    instructions,
                    local_universal,
                    max_prefixes,
                    next,
                    skipped + 1,
                );
            },
            _ => {},
        }
    }
}

/// Every instruction that the scan consumes reassigns the origin, and the scan
/// stops before the first one that does not.
pub proof fn lemma_resolve_from_stops_at_other<Call>(
    instructions: Seq<Instruction<Call>>,
    local_universal: Seq<Junction>,
    max_prefixes: nat,
    origin: LocationView,
    skipped: nat,
)
    requires
        skipped <= instructions.len(),
    ensures
        resolve_from(instructions, local_universal, max_prefixes, origin, skipped) matches Some(
            resolved,
        ) ==> forall|i: int|
            skipped <= i < resolved.skipped ==> !(#[trigger] instructions[i] is Other),
    decreases instructions.len() - skipped,
{
    if skipped < instructions.len() && skipped < max_prefixes {
        match effect_of(instructions[skipped as int], origin, local_universal) {
            Effect::Moves(next) => {
                lemma_resolve_from_stops_at_other(
                    instructions,
                    local_universal,
                    max_prefixes,
                    next,
                    skipped + 1,
                );
            },
            _ => {},
        }
    }
}

/// The scan goes on as long as it may: where it ends before the bound and
/// before the end of the message, the next instruction leaves the origin alone.
pub proof fn lemma_resolve_from_ends_at_other<Call>(
    instructions: Seq<Instruction<Call>>,
    local_universal: Seq<Junction>,
    max_prefixes: nat,
    origin: LocationView,
    skipped: nat,
)
    requires
        skipped <= instructions.len(),
    ensures
        resolve_from(instructions, local_universal, max_prefixes, origin, skipped) matches Some(
            resolved,
        ) ==> resolved.skipped == instructions.len() || resolved.skipped >= max_prefixes
            || instructions[resolved.skipped as int] is Other,
    decreases instructions.len() - skipped,
{
    if skipped < instructions.len() && skipped < max_prefixes {
        match effect_of(instructions[skipped as int], origin, local_universal) {
            Effect::Moves(next) => {
                lemma_resolve_from_ends_at_other(
                    instructions,
                    local_universal,
                    max_prefixes,
                    next,
                    skipped + 1,
                );
            },
            _ => {},
        }
    }
}

/// The number of instructions consumed never exceeds `max_prefixes`, however
/// long the message is.
pub proof fn resolved_prefix_is_bounded<Call>(
    instructions: Seq<Instruction<Call>>,
    local_universal: Seq<Junction>,
    max_prefixes: nat,
    origin: LocationView,
)
    ensures
        resolve_spec(instructions, local_universal, max_prefixes, origin) matches Some(resolved)
            ==> resolved.skipped <= max_prefixes && resolved.skipped <= instructions.len(),
{
    lemma_resolve_from_is_bounded(instructions, local_universal, max_prefixes, origin, 0);
}

/// The scan stops at the first instruction that does not reassign the origin,
/// also where fewer than `max_prefixes` are consumed: no such instruction is
/// among those consumed, so none after it is either.
pub proof fn resolved_prefix_stops_at_other<Call>(
    instructions: Seq<Instruction<Call>>,
    local_universal: Seq<Junction>,
    max_prefixes: nat,
    origin: LocationView,
    position: int,
)
    requires
        0 <= position < instructions.len(),
        instructions[position] is Other,
    ensures
        resolve_spec(instructions, local_universal, max_prefixes, origin) matches Some(resolved)
            ==> resolved.skipped <= position,
{
    lemma_resolve_from_stops_at_other(instructions, local_universal, max_prefixes, origin, 0);
}

/// The instructions consumed are exactly the longest run at the head of the
/// message, of at most `max_prefixes`, of instructions that reassign the origin.
pub proof fn resolved_prefix_is_longest<Call>(
    instructions: Seq<Instruction<Call>>,
    local_universal: Seq<Junction>,
    max_prefixes: nat,
    origin: LocationView,
)
    ensures
        resolve_spec(instructions, local_universal, max_prefixes, origin) matches Some(resolved)
            ==> (forall|i: int| 0 <= i < resolved.skipped ==> !(#[trigger] instructions[i] is Other))
            && (resolved.skipped == instructions.len() || resolved.skipped == max_prefixes
            || instructions[resolved.skipped as int] is Other),
{
    lemma_resolve_from_stops_at_other(instructions, local_universal, max_prefixes, origin, 0);
    lemma_resolve_from_ends_at_other(instructions, local_universal, max_prefixes, origin, 0);
    lemma_resolve_from_is_bounded(instructions, local_universal, max_prefixes, origin, 0);
}

/// The origin so far followed from the local chain: up from it by the
/// origin's parents, which must leave the root network in place, then down by
/// the origin's interior. `None` where `new_global` is not the root network of
/// the local chain, where the origin ascends to that root or beyond, or where
/// the path is too long.
pub open spec fn followed_from_local(
    origin: LocationView,
    local_universal: Seq<Junction>,
    new_global: Junction,
) -> Option<LocationView> {
    match global_consensus_of(local_universal) {
        Some(root) if new_global == Junction::GlobalConsensus(root) && origin.parents
            < local_universal.len() && local_universal.len() - origin.parents
            + origin.interior.len() <= crate::location::MAX_JUNCTIONS => Some(
            LocationView {
                parents: 0,
                interior: local_universal.take(local_universal.len() - origin.parents)
                    + origin.interior,
            },
        ),
        _ => None,
    }
}

/// What rebasing comes to. An origin can only be claimed below the root
/// network of the local chain: for any other junction the local chain lies
/// wholly outside it, and the claim fails. Where it holds, the new origin is
/// the old one followed from the local chain.
pub proof fn universal_origin_follows_from_local(
    origin: LocationView,
    local_universal: Seq<Junction>,
    new_global: Junction,
)
    requires
        local_universal.len() <= crate::location::MAX_JUNCTIONS,
    ensures
        universal_origin_spec(origin, local_universal, new_global) == followed_from_local(
            origin,
            local_universal,
            new_global,
        ),
{
    if let Some(root) = global_consensus_of(local_universal) {
        let viewer = seq![new_global];
        assert(viewer.skip(1) =~= Seq::<Junction>::empty());
        reveal_with_fuel(crate::location::common_prefix_len, 2);
        let relative = relative_to_spec(local_universal, viewer);
        let base = seq![Junction::GlobalConsensus(root)];
        assert(base.take(1) =~= base);
        if local_universal[0] == new_global {
            assert(relative.parents == 0);
            assert(relative.interior == local_universal.skip(1));
            if let Some(rebased) = prepended_with_spec(origin, relative) {
                if let Some(found) = within_global_spec(base, rebased) {
                    assert(found =~= local_universal.take(
                        local_universal.len() - origin.parents,
                    ) + origin.interior);
                }
            }
        } else {
            assert(relative.parents == 1);
        }
    }
}

/// A path that would take the interior past its capacity cannot be descended:
/// where the scan comes to such an instruction, the message is not resolved.
pub proof fn descend_past_capacity_is_unsupported<Call>(
    instructions: Seq<Instruction<Call>>,
    local_universal: Seq<Junction>,
    max_prefixes: nat,
    origin: LocationView,
    skipped: nat,
)
    requires
        skipped < instructions.len(),
        skipped < max_prefixes,
        instructions[skipped as int] matches Instruction::DescendOrigin(path)
            && origin.interior.len() + path@.len() > crate::location::MAX_JUNCTIONS,
    ensures
        effect_of(instructions[skipped as int], origin, local_universal) is Fails,
        resolve_from(instructions, local_universal, max_prefixes, origin, skipped) is None,
{
}

} // verus!
