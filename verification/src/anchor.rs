//! Anchors: named frames attached to a node, and the collection of them that a node owns.

use crate::linear4::identity4;
use crate::matrix3d::Matrix3D;
use vstd::prelude::*;
use vstd::string::StringExecFns;

verus! {

/// Which axes of one kind of motion an anchor constrains when it is snapped, and whether the
/// constraint is relative. The flags are carried along; snapping does not read them.
#[derive(Debug, Clone, Copy, PartialEq, Eq, Structural)]
pub struct AnchorConstraint {
    pub x: bool,
    pub y: bool,
    pub z: bool,
    pub relative: bool,
}

impl AnchorConstraint {
    /// The constraint with no flag set.
    pub open spec fn none() -> AnchorConstraint {
        AnchorConstraint { x: false, y: false, z: false, relative: false }
    }

}

impl core::ops::BitOr for AnchorConstraint {
    type Output = AnchorConstraint;

    /// The constraint that has every flag of both.
    fn bitor(self, other: AnchorConstraint) -> (r: AnchorConstraint) {
        AnchorConstraint {
            x: self.x || other.x,
            y: self.y || other.y,
            z: self.z || other.z,
            relative: self.relative || other.relative,
        }
    }
}

impl vstd::std_specs::ops::BitOrSpecImpl for AnchorConstraint {
    open spec fn obeys_bitor_spec() -> bool {
        true
    }

    open spec fn bitor_req(self, other: AnchorConstraint) -> bool {
        true
    }

    open spec fn bitor_spec(self, other: AnchorConstraint) -> AnchorConstraint {
        AnchorConstraint {
            x: self.x || other.x,
            y: self.y || other.y,
            z: self.z || other.z,
            relative: self.relative || other.relative,
        }
    }
}

impl core::ops::BitAnd for AnchorConstraint {
    type Output = AnchorConstraint;

    /// The constraint that has the flags that both have.
    fn bitand(self, other: AnchorConstraint) -> (r: AnchorConstraint) {
        AnchorConstraint {
            x: self.x && other.x,
            y: self.y && other.y,
            z: self.z && other.z,
            relative: self.relative && other.relative,
        }
    }
}

impl vstd::std_specs::ops::BitAndSpecImpl for AnchorConstraint {
    open spec fn obeys_bitand_spec() -> bool {
        true
    }

    open spec fn bitand_req(self, other: AnchorConstraint) -> bool {
        true
    }

    open spec fn bitand_spec(self, other: AnchorConstraint) -> AnchorConstraint {
        AnchorConstraint {
            x: self.x && other.x,
            y: self.y && other.y,
            z: self.z && other.z,
            relative: self.relative && other.relative,
        }
    }
}

impl Default for AnchorConstraint {
    fn default() -> (r: AnchorConstraint)
        ensures
            r == AnchorConstraint::none(),
    {
        AnchorConstraint { x: false, y: false, z: false, relative: false }
    }
}

/// What can be copied, with a copy that is known to equal what it was made from.
pub trait Replicate: Sized {
    /// A copy.
    fn duplicate(&self) -> (r: Self)
        ensures
            r == *self,
    ;
}

/// A named frame, given in the axes of the node that owns it.
#[derive(Debug, Clone)]
pub struct Anchor {
    pub name: String,
    pub ref_sys: Matrix3D,
    pub constrain_rotation: AnchorConstraint,
    pub constrain_translation: AnchorConstraint,
    pub constrain_scale: AnchorConstraint,
    pub constrain_shear: AnchorConstraint,
}

impl Anchor {
    /// The anchor of that name at the origin of its node: its frame is the identity and it
    /// constrains nothing.
    pub fn new(name: &str) -> (a: Anchor)
        ensures
            a.name@ == name@,
            a.ref_sys@ == identity4(),
            a.constrain_rotation == AnchorConstraint::none(),
            a.constrain_translation == AnchorConstraint::none(),
            a.constrain_scale == AnchorConstraint::none(),
            a.constrain_shear == AnchorConstraint::none(),
    {
        Anchor {
            name: name.to_owned(),
            ref_sys: Matrix3D::identity(),
            constrain_rotation: AnchorConstraint::default(),
            constrain_translation: AnchorConstraint::default(),
            constrain_scale: AnchorConstraint::default(),
            constrain_shear: AnchorConstraint::default(),
        }
    }

}

impl Default for Anchor {
    /// The anchor without a name whose frame has only zeros and which constrains nothing.
    fn default() -> (a: Anchor)
        ensures
            a.name@ == Seq::<char>::empty(),
            a.ref_sys@.num == Seq::new(16, |t: int| 0int),
            a.ref_sys@.den == 1,
            a.constrain_rotation == AnchorConstraint::none(),
            a.constrain_translation == AnchorConstraint::none(),
            a.constrain_scale == AnchorConstraint::none(),
            a.constrain_shear == AnchorConstraint::none(),
    {
        Anchor {
            name: String::new(),
            ref_sys: Default::default(),
            constrain_rotation: AnchorConstraint::default(),
            constrain_translation: AnchorConstraint::default(),
            constrain_scale: AnchorConstraint::default(),
            constrain_shear: AnchorConstraint::default(),
        }
    }
}

impl Replicate for Anchor {
    fn duplicate(&self) -> (a: Anchor) {
        Anchor {
            name: self.name.clone(),
            ref_sys: self.ref_sys,
            constrain_rotation: self.constrain_rotation,
            constrain_translation: self.constrain_translation,
            constrain_scale: self.constrain_scale,
            constrain_shear: self.constrain_shear,
        }
    }
}

/// An anchor under the name that a node knows it by.
#[derive(Debug, Clone)]
pub struct NamedAnchor<A> {
    pub key: String,
    pub anchor: A,
}

/// The place of the first entry under `name`, or the number of entries if there is none.
pub open spec fn first_index<A>(entries: Seq<(Seq<char>, A)>, name: Seq<char>) -> int
    decreases entries.len(),
{
    if entries.len() == 0 {
        0
    } else if entries[0].0 == name {
        0
    } else {
        1 + first_index(entries.drop_first(), name)
    }
}

/// The anchor that the first entry of that name holds.
pub open spec fn find<A>(entries: Seq<(Seq<char>, A)>, name: Seq<char>) -> Option<A> {
    let at = first_index(entries, name);
    if at < entries.len() {
        Some(entries[at].1)
    } else {
        None
    }
}

/// The entries with `anchor` attached under `name`: in place of the first entry of that
/// name if there is one, and else behind the last entry.
pub open spec fn inserted<A>(entries: Seq<(Seq<char>, A)>, name: Seq<char>, anchor: A) -> Seq<
    (Seq<char>, A),
> {
    let at = first_index(entries, name);
    if at < entries.len() {
        entries.update(at, (name, anchor))
    } else {
        entries.push((name, anchor))
    }
}

/// The name under which a composite knows the anchor `key` of its child `prefix`: the key
/// itself if the child has no name, and else the child's name, two colons and the key.
pub open spec fn rekeyed(prefix: Seq<char>, key: Seq<char>) -> Seq<char> {
    if prefix.len() == 0 {
        key
    } else {
        prefix + "::"@ + key
    }
}

/// The entries of `base` with the entries of `other` attached in turn, each under its name
/// rekeyed with `prefix`.
pub open spec fn absorbed<A>(
    base: Seq<(Seq<char>, A)>,
    prefix: Seq<char>,
    other: Seq<(Seq<char>, A)>,
) -> Seq<(Seq<char>, A)>
    decreases other.len(),
{
    if other.len() == 0 {
        base
    } else {
        inserted(
            absorbed(base, prefix, other.drop_last()),
            rekeyed(prefix, other.last().0),
            other.last().1,
        )
    }
}

/// The first entry under a name is where `first_index` says, and no entry before it has
/// the name.
pub proof fn lemma_first_index<A>(entries: Seq<(Seq<char>, A)>, name: Seq<char>)
    ensures
        0 <= first_index(entries, name) <= entries.len(),
        first_index(entries, name) < entries.len() ==> entries[first_index(entries, name)].0
            == name,
        forall|k: int| 0 <= k < first_index(entries, name) ==> (#[trigger] entries[k]).0 != name,
    decreases entries.len(),
{
    if entries.len() > 0 && entries[0].0 != name {
        let rest = entries.drop_first();
        lemma_first_index(rest, name);
        let at = first_index(rest, name);
        assert forall|k: int| 0 <= k < 1 + at implies (#[trigger] entries[k]).0 != name by {
            if k > 0 {
                assert(rest[k - 1] == entries[k]);
            }
        }
        if at < rest.len() {
            assert(rest[at] == entries[at + 1]);
        }
    }
}

/// A place that holds the name, with no entry of the name before it, is the first index.
pub proof fn lemma_first_index_is<A>(entries: Seq<(Seq<char>, A)>, name: Seq<char>, at: int)
    requires
        0 <= at <= entries.len(),
        at < entries.len() ==> entries[at].0 == name,
        forall|k: int| 0 <= k < at ==> (#[trigger] entries[k]).0 != name,
    ensures
        first_index(entries, name) == at,
    decreases entries.len(),
{
    if entries.len() > 0 {
        if entries[0].0 == name {
            assert(at == 0);
        } else {
            let rest = entries.drop_first();
            assert forall|k: int| 0 <= k < at - 1 implies (#[trigger] rest[k]).0 != name by {
                assert(rest[k] == entries[k + 1]);
            }
            if at < entries.len() {
                assert(rest[at - 1] == entries[at]);
            }
            lemma_first_index_is(rest, name, at - 1);
        }
    }
}

/// The map that the entries are: after `anchor` is attached under `name`, it is found under
/// that name, and under every other name what was found before.
pub proof fn lemma_find_after_insert<A>(
    entries: Seq<(Seq<char>, A)>,
    name: Seq<char>,
    anchor: A,
    other: Seq<char>,
)
    ensures
        find(inserted(entries, name, anchor), other) == (if other == name {
            Some(anchor)
        } else {
            find(entries, other)
        }),
{
    let at = first_index(entries, name);
    let after = inserted(entries, name, anchor);
    lemma_first_index(entries, name);
    lemma_first_index(entries, other);
    if other == name {
        lemma_first_index_is(after, name, at);
    } else {
        let there = first_index(entries, other);
        assert forall|k: int| 0 <= k < there implies (#[trigger] after[k]).0 != other by {
            if k < entries.len() && k != at {
                assert(after[k] == entries[k]);
            }
        }
        if there < entries.len() {
            assert(there != at);
            assert(after[there] == entries[there]);
            lemma_first_index_is(after, other, there);
        } else {
            lemma_first_index_is(after, other, after.len() as int);
        }
    }
}

/// Changing the anchor that was just attached under a name is attaching the changed one.
pub proof fn lemma_insert_then_update<A>(
    entries: Seq<(Seq<char>, A)>,
    name: Seq<char>,
    anchor: A,
    changed: A,
)
    ensures
        first_index(inserted(entries, name, anchor), name) < inserted(entries, name, anchor).len(),
        inserted(entries, name, anchor).update(
            first_index(inserted(entries, name, anchor), name),
            (name, changed),
        ) == inserted(entries, name, changed),
{
    let at = first_index(entries, name);
    let after = inserted(entries, name, anchor);
    lemma_first_index(entries, name);
    lemma_first_index_is(after, name, at);
    assert(after.update(at, (name, changed)) =~= inserted(entries, name, changed));
}

/// The name under which a composite knows the anchor `key` of its child `prefix`.
pub fn rekey(prefix: &str, key: &str) -> (r: String)
    ensures
        r@ == rekeyed(prefix@, key@),
{
    if prefix.is_empty() {
        key.to_owned()
    } else {
        String::from_str(prefix).concat("::").concat(key)
    }
}

/// The anchors of a node, each under one name, in the order in which the names were first
/// attached: a new anchor under a name that is taken replaces the old one.
#[derive(Debug, Clone)]
pub struct Anchors<A> {
    entries: Vec<NamedAnchor<A>>,
}

impl<A> View for Anchors<A> {
    type V = Seq<(Seq<char>, A)>;

    closed spec fn view(&self) -> Seq<(Seq<char>, A)> {
        Seq::new(self.entries@.len(), |i: int| (self.entries@[i].key@, self.entries@[i].anchor))
    }
}

impl<A> Anchors<A> {
    /// The anchor that is attached under `name`, if there is one.
    pub open spec fn lookup(&self, name: Seq<char>) -> Option<A> {
        find(self@, name)
    }

    /// No anchors.
    pub fn new() -> (a: Anchors<A>)
        ensures
            a@ == Seq::<(Seq<char>, A)>::empty(),
    {
        let a = Anchors { entries: Vec::new() };
        proof {
            assert(a@ =~= Seq::<(Seq<char>, A)>::empty());
        }
        a
    }

    /// How many names there are.
    pub fn len(&self) -> (n: usize)
        ensures
            n == self@.len(),
    {
        self.entries.len()
    }

    /// The entry at place `i`.
    pub fn at(&self, i: usize) -> (e: &NamedAnchor<A>)
        requires
            i < self@.len(),
        ensures
            (e.key@, e.anchor) == self@[i as int],
    {
        &self.entries[i]
    }

    /// The place of the first entry under `name`, or the number of entries if there is none.
    fn position(&self, name: &String) -> (at: usize)
        ensures
            at == first_index(self@, name@),
            at <= self@.len(),
    {
        let mut i: usize = 0;
        while i < self.entries.len()
            invariant
                0 <= i <= self.entries.len(),
                forall|k: int| 0 <= k < i ==> (#[trigger] self@[k]).0 != name@,
            decreases self.entries.len() - i,
        {
            if self.entries[i].key == *name {
                proof {
                    assert(self@[i as int].0 == name@);
                    lemma_first_index_is(self@, name@, i as int);
                }
                return i;
            }
            proof {
                assert(self@[i as int].0 != name@);
            }
            i = i + 1;
        }
        proof {
            lemma_first_index_is(self@, name@, i as int);
        }
        i
    }

    /// The anchor under `name`.
    pub fn get(&self, name: &str) -> (r: Option<&A>)
        ensures
            match r {
                Some(a) => self.lookup(name@) == Some(*a),
                None => self.lookup(name@) is None,
            },
    {
        let key = name.to_owned();
        let at = self.position(&key);
        if at < self.entries.len() {
            proof {
                assert(self@[at as int].1 == self.entries@[at as int].anchor);
            }
            Some(&self.entries[at].anchor)
        } else {
            None
        }
    }

    /// The anchor under `name`, to be changed in place.
    pub fn get_mut(&mut self, name: &str) -> (r: Option<&mut A>)
        ensures
            match r {
                Some(a) => old(self).lookup(name@) == Some(*a) && final(self)@ == old(
                    self,
                )@.update(first_index(old(self)@, name@), (name@, *final(a))),
                None => old(self).lookup(name@) is None && final(self)@ == old(self)@,
            },
    {
        let key = name.to_owned();
        let at = self.position(&key);
        if at < self.entries.len() {
            proof {
                lemma_first_index(self@, name@);
                assert(self@[at as int] == (self.entries@[at as int].key@, self.entries@[at as int].anchor));
            }
            let entry = &mut self.entries[at];
            Some(&mut entry.anchor)
        } else {
            None
        }
    }

    /// Whether an anchor is attached under `name`.
    pub fn contains(&self, name: &str) -> (b: bool)
        ensures
            b == self.lookup(name@) is Some,
    {
        self.get(name).is_some()
    }

    /// Attaches `anchor` under `name`, in place of the anchor that was there, if any.
    pub fn insert(&mut self, name: &str, anchor: A)
        ensures
            final(self)@ == inserted(old(self)@, name@, anchor),
    {
        let key = name.to_owned();
        let at = self.position(&key);
        let entry = NamedAnchor { key, anchor };
        if at < self.entries.len() {
            self.entries.set(at, entry);
        } else {
            self.entries.push(entry);
        }
        proof {
            assert(self@ =~= inserted(old(self)@, name@, anchor));
        }
    }

    /// Detaches every anchor.
    pub fn clear(&mut self)
        ensures
            final(self)@ == Seq::<(Seq<char>, A)>::empty(),
    {
        self.entries = Vec::new();
        proof {
            assert(self@ =~= Seq::<(Seq<char>, A)>::empty());
        }
    }
}

impl<A: Replicate> Anchors<A> {
    /// Attaches a copy of every anchor of `other` in turn, each under its name rekeyed with
    /// `prefix`, in place of the anchor that was there, if any.
    pub fn absorb(&mut self, prefix: &str, other: &Anchors<A>)
        ensures
            final(self)@ == absorbed(old(self)@, prefix@, other@),
    {
        let mut i: usize = 0;
        while i < other.entries.len()
            invariant
                0 <= i <= other.entries.len(),
                self@ == absorbed(old(self)@, prefix@, other@.take(i as int)),
            decreases other.entries.len() - i,
        {
            let key = rekey(prefix, other.entries[i].key.as_str());
            let anchor = other.entries[i].anchor.duplicate();
            proof {
                let next = other@.take(i as int + 1);
                assert(next.drop_last() =~= other@.take(i as int));
                assert(next.last() == other@[i as int]);
            }
            self.insert(key.as_str(), anchor);
            i = i + 1;
        }
        proof {
            assert(other@.take(other@.len() as int) =~= other@);
        }
    }
}

} // verus!
