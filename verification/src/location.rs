//! Locations: a number of levels to ascend, then a bounded path to descend.
//!
//! The arithmetic on locations is stated over [`LocationView`] and sequences of
//! junctions; the executable functions are proved against those statements.

use crate::junction::{Junction, NetworkId};
use vstd::prelude::*;
use vstd::std_specs::cmp::PartialEqSpecImpl;

verus! {

/// Number of junctions that an interior can hold.
pub const MAX_JUNCTIONS: usize = 8;

/// Largest number of levels that a location can ascend.
pub const MAX_PARENTS: usize = 255;

/// A location as a mathematical value.
pub struct LocationView {
    /// Levels to ascend.
    pub parents: nat,
    /// Path to descend after ascending.
    pub interior: Seq<Junction>,
}

/// The network at the root of `interior`, where its first junction names one.
pub open spec fn global_consensus_of(interior: Seq<Junction>) -> Option<NetworkId> {
    if interior.len() == 0 {
        None
    } else {
        match interior[0] {
            Junction::GlobalConsensus(network) => Some(network),
            _ => None,
        }
    }
}

/// Number of leading junctions on which `a` and `b` agree.
pub open spec fn common_prefix_len(a: Seq<Junction>, b: Seq<Junction>) -> nat
    decreases a.len(),
{
    if a.len() > 0 && b.len() > 0 && a[0] == b[0] {
        1 + common_prefix_len(a.skip(1), b.skip(1))
    } else {
        0
    }
}

/// How `viewer` addresses `target`, both given from a common root: it ascends
/// past what it does not share with `target`, then descends the rest of `target`.
pub open spec fn relative_to_spec(target: Seq<Junction>, viewer: Seq<Junction>) -> LocationView {
    let shared = common_prefix_len(target, viewer);
    LocationView {
        parents: (viewer.len() - shared) as nat,
        interior: target.skip(shared as int),
    }
}

/// `suffix` as seen from where `prefix` is seen: each level that `suffix` ascends
/// cancels the last junction of `prefix`, as long as both last. `None` where the
/// result does not fit a location.
pub open spec fn prepended_with_spec(suffix: LocationView, prefix: LocationView) -> Option<
    LocationView,
> {
    let cancelled = if suffix.parents < prefix.interior.len() {
        suffix.parents
    } else {
        prefix.interior.len()
    };
    let parents = prefix.parents + suffix.parents - cancelled;
    let interior = prefix.interior.take(prefix.interior.len() - cancelled) + suffix.interior;
    if interior.len() > MAX_JUNCTIONS || parents > MAX_PARENTS {
        None
    } else {
        Some(LocationView { parents: parents as nat, interior })
    }
}

/// The absolute path of `relative`, which is given in the context of the absolute
/// path `base`. `None` where `relative` ascends to the root of `base` or beyond,
/// or where the result does not fit an interior.
pub open spec fn within_global_spec(base: Seq<Junction>, relative: LocationView) -> Option<
    Seq<Junction>,
> {
    if base.len() <= relative.parents {
        None
    } else {
        let kept = base.take(base.len() - relative.parents);
        if kept.len() + relative.interior.len() > MAX_JUNCTIONS {
            None
        } else {
            Some(kept + relative.interior)
        }
    }
}

/// `location` with `suffix` added to its interior. `None` where the interior
/// would hold more than [`MAX_JUNCTIONS`].
pub open spec fn append_with_spec(location: LocationView, suffix: Seq<Junction>) -> Option<
    LocationView,
> {
    if location.interior.len() + suffix.len() > MAX_JUNCTIONS {
        None
    } else {
        Some(LocationView { parents: location.parents, interior: location.interior + suffix })
    }
}

/// Where two sequences agree on their first `n` junctions and differ at the
/// next, or one of them ends there, `n` is the length of their common prefix.
pub proof fn lemma_common_prefix_len(a: Seq<Junction>, b: Seq<Junction>, n: nat)
    requires
        n <= a.len(),
        n <= b.len(),
        forall|k: int| 0 <= k < n ==> a[k] == b[k],
        n == a.len() || n == b.len() || a[n as int] != b[n as int],
    ensures
        common_prefix_len(a, b) == n,
    decreases n,
{
    if n > 0 {
        let a1 = a.skip(1);
        let b1 = b.skip(1);
        assert forall|k: int| 0 <= k < n - 1 implies a1[k] == b1[k] by {
            assert(a1[k] == a[k + 1]);
            assert(b1[k] == b[k + 1]);
        }
        lemma_common_prefix_len(a1, b1, (n - 1) as nat);
    }
}

/// Copies `first[..upto]` followed by `second[from..]`.
fn join(first: &Vec<Junction>, upto: usize, second: &Vec<Junction>, from: usize) -> (out: Vec<
    Junction,
>)
    requires
        upto <= first@.len(),
        from <= second@.len(),
    ensures
        out@ == first@.take(upto as int) + second@.skip(from as int),
{
    let mut out: Vec<Junction> = Vec::new();
    let mut i: usize = 0;
    while i < upto
        invariant
            i <= upto <= first@.len(),
            out@ == first@.take(i as int),
        decreases upto - i,
    {
        out.push(first[i]);
        assert(out@ =~= first@.take(i + 1));
        i = i + 1;
    }
    let mut k: usize = from;
    while k < second.len()
        invariant
            from <= k <= second@.len(),
            out@ == first@.take(upto as int) + second@.subrange(from as int, k as int),
        decreases second@.len() - k,
    {
        out.push(second[k]);
        assert(out@ =~= first@.take(upto as int) + second@.subrange(from as int, k + 1));
        k = k + 1;
    }
    assert(second@.subrange(from as int, second@.len() as int) =~= second@.skip(from as int));
    out
}

/// A path of at most [`MAX_JUNCTIONS`] junctions.
#[derive(Debug)]
pub struct Junctions {
    items: Vec<Junction>,
}

impl View for Junctions {
    type V = Seq<Junction>;

    closed spec fn view(&self) -> Seq<Junction> {
        self.items@
    }
}

impl Junctions {
    #[verifier::type_invariant]
    spec fn within_capacity(self) -> bool {
        self.items@.len() <= MAX_JUNCTIONS
    }

    /// The empty path.
    pub fn here() -> (r: Junctions)
        ensures
            r@ == Seq::<Junction>::empty(),
    {
        Junctions { items: Vec::new() }
    }

    /// The path of one junction.
    pub fn x1(junction: Junction) -> (r: Junctions)
        ensures
            r@ == seq![junction],
    {
        let mut items: Vec<Junction> = Vec::new();
        items.push(junction);
        assert(items@ =~= seq![junction]);
        Junctions { items }
    }

    /// The path of the given junctions, unless they are too many.
    pub fn from_vec(items: Vec<Junction>) -> (r: Option<Junctions>)
        ensures
            items@.len() <= MAX_JUNCTIONS ==> (r matches Some(j) && j@ == items@),
            items@.len() > MAX_JUNCTIONS ==> r is None,
    {
        if items.len() <= MAX_JUNCTIONS {
            Some(Junctions { items })
        } else {
            None
        }
    }

    /// The junctions of the path, in order.
    pub fn to_vec(&self) -> (r: Vec<Junction>)
        ensures
            r@ == self@,
    {
        let out = join(&self.items, self.items.len(), &self.items, self.items.len());
        assert(out@ =~= self.items@);
        out
    }

    /// Number of junctions in the path.
    pub fn len(&self) -> (n: usize)
        ensures
            n == self@.len(),
            n <= MAX_JUNCTIONS,
    {
        proof {
            use_type_invariant(self);
        }
        self.items.len()
    }

    /// The junction at position `i`, if there is one.
    pub fn at(&self, i: usize) -> (r: Option<Junction>)
        ensures
            i < self@.len() ==> r == Some(self@[i as int]),
            i >= self@.len() ==> r is None,
    {
        if i < self.items.len() {
            Some(self.items[i])
        } else {
            None
        }
    }

    /// The first junction, if there is one.
    pub fn first(&self) -> (r: Option<Junction>)
        ensures
            self@.len() > 0 ==> r == Some(self@[0]),
            self@.len() == 0 ==> r is None,
    {
        self.at(0)
    }

    /// The path without its first junction, and that junction; the empty path
    /// and `None` where the path is empty.
    pub fn split_first(&self) -> (r: (Junctions, Option<Junction>))
        ensures
            self@.len() > 0 ==> r.0@ == self@.skip(1) && r.1 == Some(self@[0]),
            self@.len() == 0 ==> r.0@ == self@ && r.1 is None,
    {
        proof {
            use_type_invariant(self);
        }
        if self.items.len() == 0 {
            (Junctions { items: Vec::new() }, None)
        } else {
            let rest = join(&self.items, 0, &self.items, 1);
            assert(rest@ =~= self.items@.skip(1));
            (Junctions { items: rest }, Some(self.items[0]))
        }
    }

    /// The network that the path names as its root.
    pub fn global_consensus(&self) -> (r: Result<NetworkId, ()>)
        ensures
            match global_consensus_of(self@) {
                Some(network) => r == Ok::<NetworkId, ()>(network),
                None => r is Err,
            },
    {
        match self.first() {
            Some(Junction::GlobalConsensus(network)) => Ok(network),
            _ => Err(()),
        }
    }

    /// Takes `self` as an absolute path and as the context of `relative`, and
    /// gives the absolute path of `relative`.
    pub fn within_global(&self, relative: &Location) -> (r: Result<Junctions, ()>)
        ensures
            match within_global_spec(self@, relative@) {
                Some(path) => r matches Ok(j) && j@ == path,
                None => r is Err,
            },
    {
        proof {
            use_type_invariant(self);
            use_type_invariant(&relative.interior);
        }
        let ascended = relative.parents as usize;
        if self.items.len() <= ascended {
            return Err(());
        }
        let kept = self.items.len() - ascended;
        if kept + relative.interior.items.len() > MAX_JUNCTIONS {
            return Err(());
        }
        let items = join(&self.items, kept, &relative.interior.items, 0);
        assert(relative.interior.items@.skip(0) =~= relative.interior.items@);
        Ok(Junctions { items })
    }

    /// How `viewer` addresses `self`, both being paths from a common root.
    pub fn relative_to(&self, viewer: &Junctions) -> (r: Location)
        ensures
            r@ == relative_to_spec(self@, viewer@),
    {
        proof {
            use_type_invariant(self);
            use_type_invariant(viewer);
        }
        let mut shared: usize = 0;
        while shared < self.items.len() && shared < viewer.items.len() && self.items[shared]
            == viewer.items[shared]
            invariant
                shared <= self.items@.len(),
                shared <= viewer.items@.len(),
                forall|k: int| 0 <= k < shared ==> self.items@[k] == viewer.items@[k],
            decreases self.items@.len() - shared,
        {
            shared = shared + 1;
        }
        proof {
            lemma_common_prefix_len(self@, viewer@, shared as nat);
        }
        let items = join(&self.items, 0, &self.items, shared);
        assert(items@ =~= self.items@.skip(shared as int));
        Location { parents: (viewer.items.len() - shared) as u8, interior: Junctions { items } }
    }
}

impl Clone for Junctions {
    fn clone(&self) -> (r: Self)
        ensures
            r@ == self@,
    {
        proof {
            use_type_invariant(self);
        }
        Junctions { items: self.to_vec() }
    }
}

impl PartialEq for Junctions {
    fn eq(&self, other: &Self) -> (r: bool) {
        if self.items.len() != other.items.len() {
            return false;
        }
        let mut i: usize = 0;
        while i < self.items.len()
            invariant
                i <= self.items@.len(),
                self.items@.len() == other.items@.len(),
                forall|k: int| 0 <= k < i ==> self.items@[k] == other.items@[k],
            decreases self.items@.len() - i,
        {
            if self.items[i] != other.items[i] {
                return false;
            }
            i = i + 1;
        }
        assert(self.items@ =~= other.items@);
        true
    }
}

impl Eq for Junctions {

}

impl PartialEqSpecImpl for Junctions {
    open spec fn obeys_eq_spec() -> bool {
        true
    }

    open spec fn eq_spec(&self, other: &Self) -> bool {
        self@ == other@
    }
}

/// A position in the hierarchy, relative to the one that holds the value.
#[derive(Debug)]
pub struct Location {
    /// Levels to ascend.
    pub parents: u8,
    /// Path to descend after ascending.
    pub interior: Junctions,
}

impl View for Location {
    type V = LocationView;

    open spec fn view(&self) -> LocationView {
        LocationView { parents: self.parents as nat, interior: self.interior@ }
    }
}

impl Location {
    /// The location that ascends `parents` levels and then descends `interior`.
    pub fn new(parents: u8, interior: Junctions) -> (r: Location)
        ensures
            r.parents == parents,
            r.interior == interior,
    {
        Location { parents, interior }
    }

    /// `self` as seen from where `prefix` is seen; an error where the result
    /// does not fit a location.
    pub fn prepended_with(&self, prefix: &Location) -> (r: Result<Location, ()>)
        ensures
            match prepended_with_spec(self@, prefix@) {
                Some(view) => r matches Ok(l) && l@ == view,
                None => r is Err,
            },
    {
        proof {
            use_type_invariant(&self.interior);
            use_type_invariant(&prefix.interior);
        }
        let ascended = self.parents as usize;
        let prefix_len = prefix.interior.items.len();
        let cancelled = if ascended < prefix_len {
            ascended
        } else {
            prefix_len
        };
        let kept = prefix_len - cancelled;
        if kept + self.interior.items.len() > MAX_JUNCTIONS {
            return Err(());
        }
        let parents = prefix.parents as usize + (ascended - cancelled);
        if parents > MAX_PARENTS {
            return Err(());
        }
        let items = join(&prefix.interior.items, kept, &self.interior.items, 0);
        assert(self.interior.items@.skip(0) =~= self.interior.items@);
        Ok(Location { parents: parents as u8, interior: Junctions { items } })
    }

    /// Adds `suffix` to the interior. On an error `self` is as it was.
    pub fn append_with(&mut self, suffix: &Junctions) -> (r: Result<(), ()>)
        ensures
            match append_with_spec(old(self)@, suffix@) {
                Some(view) => r is Ok && final(self)@ == view,
                None => r is Err && final(self)@ == old(self)@,
            },
    {
        proof {
            use_type_invariant(&self.interior);
            use_type_invariant(suffix);
        }
        if self.interior.items.len() + suffix.items.len() > MAX_JUNCTIONS {
            return Err(());
        }
        let items = join(&self.interior.items, self.interior.items.len(), &suffix.items, 0);
        assert(items@ =~= self.interior.items@ + suffix.items@);
        self.interior = Junctions { items };
        Ok(())
    }
}

impl Clone for Location {
    fn clone(&self) -> (r: Self)
        ensures
            r@ == self@,
    {
        Location { parents: self.parents, interior: self.interior.clone() }
    }
}

impl PartialEq for Location {
    fn eq(&self, other: &Self) -> (r: bool) {
        self.parents == other.parents && self.interior == other.interior
    }
}

impl Eq for Location {

}

impl PartialEqSpecImpl for Location {
    open spec fn obeys_eq_spec() -> bool {
        true
    }

    open spec fn eq_spec(&self, other: &Self) -> bool {
        self@ == other@
    }
}

} // verus!
