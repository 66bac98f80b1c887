//! Small sets that the planner keeps: of actions (walked in declaration order),
//! of GPU vendors and of names.
use vstd::prelude::*;
use crate::model::{action_at, ActionId, GpuVendor, ACTION_COUNT};

verus! {

/// All actions in declaration order.
pub open spec fn all_actions() -> Seq<ActionId> {
    Seq::new(ACTION_COUNT as nat, |i: int| action_at(i))
}

/// The members of `s`, in declaration order.
pub open spec fn ordered_actions(s: Set<ActionId>) -> Seq<ActionId> {
    all_actions().filter(|a: ActionId| s.contains(a))
}

/// A set of actions, walked in declaration order.
#[derive(Clone, Debug)]
pub struct ActionSet {
    present: Vec<bool>,
}

impl View for ActionSet {
    type V = Set<ActionId>;

    closed spec fn view(&self) -> Set<ActionId> {
        Set::new(|a: ActionId| a.ordinal() < self.present@.len() && self.present@[a.ordinal()])
    }
}

impl ActionSet {
    /// The empty set.
    pub fn new() -> (r: ActionSet)
        ensures
            r@ == Set::<ActionId>::empty(),
    {
        let mut present: Vec<bool> = Vec::new();
        let mut i: usize = 0;
        while i < ACTION_COUNT
            invariant
                i <= ACTION_COUNT,
                present@.len() == i,
                forall|j: int| 0 <= j < i ==> !#[trigger] present@[j],
            decreases ACTION_COUNT - i,
        {
            present.push(false);
            i = i + 1;
        }
        let r = ActionSet { present };
        proof {
            assert forall|a: ActionId| !#[trigger] r@.contains(a) by {
                crate::model::lemma_ordinal_roundtrip(a, 0);
            }
            assert(r@ =~= Set::<ActionId>::empty());
        }
        r
    }

    /// Whether `a` is a member.
    pub fn contains(&self, a: ActionId) -> (r: bool)
        ensures
            r == self@.contains(a),
    {
        proof {
            crate::model::lemma_ordinal_roundtrip(a, 0);
        }
        let i = a.index();
        i < self.present.len() && self.present[i]
    }

    /// Adds `a`; returns whether it was absent before.
    pub fn insert(&mut self, a: ActionId) -> (r: bool)
        ensures
            final(self)@ == old(self)@.insert(a),
            r == !old(self)@.contains(a),
    {
        proof {
            crate::model::lemma_ordinal_roundtrip(a, 0);
        }
        let i = a.index();
        let was = self.contains(a);
        if self.present.len() <= i {
            while self.present.len() <= i
                invariant
                    old(self).present@.len() <= self.present@.len() <= i + 1,
                    forall|j: int| 0 <= j < old(self).present@.len() ==> #[trigger] self.present@[j] == old(self).present@[j],
                    forall|j: int| old(self).present@.len() <= j < self.present@.len() ==> !#[trigger] self.present@[j],
                decreases i + 1 - self.present@.len(),
            {
                self.present.push(false);
            }
        }
        self.present.set(i, true);
        proof {
            assert forall|b: ActionId| #[trigger] self@.contains(b) == old(self)@.insert(a).contains(b) by {
                crate::model::lemma_ordinal_roundtrip(b, 0);
                if b.ordinal() == a.ordinal() {
                    crate::model::lemma_ordinal_roundtrip(a, 0);
                }
            }
            assert(self@ =~= old(self)@.insert(a));
        }
        !was
    }

    /// Removes `a`; returns whether it was present before.
    pub fn remove(&mut self, a: ActionId) -> (r: bool)
        ensures
            final(self)@ == old(self)@.remove(a),
            r == old(self)@.contains(a),
    {
        proof {
            crate::model::lemma_ordinal_roundtrip(a, 0);
        }
        let i = a.index();
        let was = self.contains(a);
        if i < self.present.len() {
            self.present.set(i, false);
        }
        proof {
            assert forall|b: ActionId| #[trigger] self@.contains(b) == old(self)@.remove(a).contains(b) by {
                crate::model::lemma_ordinal_roundtrip(b, 0);
                crate::model::lemma_ordinal_roundtrip(a, 0);
            }
            assert(self@ =~= old(self)@.remove(a));
        }
        was
    }

    /// The set of the actions in `items`.
    pub fn from_slice(items: &[ActionId]) -> (r: ActionSet)
        ensures
            r@ == items@.to_set(),
    {
        let mut r = ActionSet::new();
        let mut i: usize = 0;
        while i < items.len()
            invariant
                i <= items@.len(),
                r@ == items@.take(i as int).to_set(),
            decreases items@.len() - i,
        {
            r.insert(items[i]);
            proof {
                assert(items@.take(i + 1) == items@.take(i as int).push(items@[i as int]));
                items@.take(i as int).lemma_push_to_set_commute(items@[i as int]);
            }
            i = i + 1;
        }
        proof {
            assert(items@.take(items@.len() as int) == items@);
        }
        r
    }

    /// Whether the set has no member.
    pub fn is_empty(&self) -> (r: bool)
        ensures
            r == (self@ == Set::<ActionId>::empty()),
    {
        let mut i: usize = 0;
        while i < ACTION_COUNT
            invariant
                i <= ACTION_COUNT,
                forall|j: int| 0 <= j < i ==> !self@.contains(#[trigger] action_at(j)),
            decreases ACTION_COUNT - i,
        {
            if self.contains(ActionId::from_index(i)) {
                return false;
            }
            i = i + 1;
        }
        proof {
            assert forall|a: ActionId| !#[trigger] self@.contains(a) by {
                crate::model::lemma_ordinal_roundtrip(a, 0);
                assert(!self@.contains(action_at(a.ordinal())));
            }
            assert(self@ =~= Set::<ActionId>::empty());
        }
        true
    }

    /// The members in declaration order.
    pub fn to_vec(&self) -> (r: Vec<ActionId>)
        ensures
            r@ == ordered_actions(self@),
    {
        let mut r: Vec<ActionId> = Vec::new();
        let mut i: usize = 0;
        while i < ACTION_COUNT
            invariant
                i <= ACTION_COUNT,
                r@ == all_actions().take(i as int).filter(|a: ActionId| self@.contains(a)),
            decreases ACTION_COUNT - i,
        {
            let a = ActionId::from_index(i);
            proof {
                assert(all_actions().take(i + 1) == all_actions().take(i as int).push(a));
                all_actions().take(i as int).lemma_filter_push(a, |a: ActionId| self@.contains(a));
            }
            if self.contains(a) {
                r.push(a);
            }
            i = i + 1;
        }
        proof {
            assert(all_actions().take(ACTION_COUNT as int) == all_actions());
        }
        r
    }
}

/// A set of GPU vendors, walked in the order Nvidia, Amd, Intel, Other.
#[derive(Clone, Copy, Debug)]
pub struct GpuVendorSet {
    nvidia: bool,
    amd: bool,
    intel: bool,
    other: bool,
}

impl View for GpuVendorSet {
    type V = Set<GpuVendor>;

    closed spec fn view(&self) -> Set<GpuVendor> {
        Set::new(|v: GpuVendor| match v {
            GpuVendor::Nvidia => self.nvidia,
            GpuVendor::Amd => self.amd,
            GpuVendor::Intel => self.intel,
            GpuVendor::Other => self.other,
        })
    }
}

/// All vendors in their order.
pub open spec fn all_vendors() -> Seq<GpuVendor> {
    seq![GpuVendor::Nvidia, GpuVendor::Amd, GpuVendor::Intel, GpuVendor::Other]
}

/// The members of `s`, in vendor order.
pub open spec fn ordered_vendors(s: Set<GpuVendor>) -> Seq<GpuVendor> {
    all_vendors().filter(|v: GpuVendor| s.contains(v))
}

impl GpuVendorSet {
    /// The empty set.
    pub fn new() -> (r: GpuVendorSet)
        ensures
            r@ == Set::<GpuVendor>::empty(),
    {
        let r = GpuVendorSet { nvidia: false, amd: false, intel: false, other: false };
        proof { assert(r@ =~= Set::<GpuVendor>::empty()); }
        r
    }

    /// Whether `v` is a member.
    pub fn contains(&self, v: GpuVendor) -> (r: bool)
        ensures
            r == self@.contains(v),
    {
        match v {
            GpuVendor::Nvidia => self.nvidia,
            GpuVendor::Amd => self.amd,
            GpuVendor::Intel => self.intel,
            GpuVendor::Other => self.other,
        }
    }

    /// Adds `v`; returns whether it was absent before.
    pub fn insert(&mut self, v: GpuVendor) -> (r: bool)
        ensures
            final(self)@ == old(self)@.insert(v),
            r == !old(self)@.contains(v),
    {
        let was = self.contains(v);
        match v {
            GpuVendor::Nvidia => { self.nvidia = true; },
            GpuVendor::Amd => { self.amd = true; },
            GpuVendor::Intel => { self.intel = true; },
            GpuVendor::Other => { self.other = true; },
        }
        proof { assert(self@ =~= old(self)@.insert(v)); }
        !was
    }

    /// Adds every vendor in `items`.
    pub fn extend(&mut self, items: &[GpuVendor])
        ensures
            final(self)@ == old(self)@.union(items@.to_set()),
    {
        let mut i: usize = 0;
        while i < items.len()
            invariant
                i <= items@.len(),
                self@ == old(self)@.union(items@.take(i as int).to_set()),
            decreases items@.len() - i,
        {
            self.insert(items[i]);
            proof {
                assert(items@.take(i + 1) == items@.take(i as int).push(items@[i as int]));
                items@.take(i as int).lemma_push_to_set_commute(items@[i as int]);
                assert(self@ =~= old(self)@.union(items@.take(i + 1).to_set()));
            }
            i = i + 1;
        }
        proof {
            assert(items@.take(items@.len() as int) == items@);
        }
    }

    /// The set of the vendors in `items`.
    pub fn from_slice(items: &[GpuVendor]) -> (r: GpuVendorSet)
        ensures
            r@ == items@.to_set(),
    {
        let mut r = GpuVendorSet::new();
        r.extend(items);
        proof { assert(r@ =~= items@.to_set()); }
        r
    }

    /// Whether the set has no member.
    pub fn is_empty(&self) -> (r: bool)
        ensures
            r == (self@ == Set::<GpuVendor>::empty()),
    {
        let r = !(self.nvidia || self.amd || self.intel || self.other);
        proof {
            if !r {
                if self.nvidia { assert(self@.contains(GpuVendor::Nvidia)); }
                if self.amd { assert(self@.contains(GpuVendor::Amd)); }
                if self.intel { assert(self@.contains(GpuVendor::Intel)); }
                if self.other { assert(self@.contains(GpuVendor::Other)); }
            } else {
                assert(self@ =~= Set::<GpuVendor>::empty());
            }
        }
        r
    }

    /// The members in vendor order.
    pub fn to_vec(&self) -> (r: Vec<GpuVendor>)
        ensures
            r@ == ordered_vendors(self@),
    {
        let mut r: Vec<GpuVendor> = Vec::new();
        if self.nvidia { r.push(GpuVendor::Nvidia); }
        if self.amd { r.push(GpuVendor::Amd); }
        if self.intel { r.push(GpuVendor::Intel); }
        if self.other { r.push(GpuVendor::Other); }
        proof {
            let p = |v: GpuVendor| self@.contains(v);
            let s = all_vendors();
            assert(s.take(0).filter(p) =~= Seq::<GpuVendor>::empty());
            assert(s.take(1) == s.take(0).push(s[0]));
            s.take(0).lemma_filter_push(s[0], p);
            assert(s.take(2) == s.take(1).push(s[1]));
            s.take(1).lemma_filter_push(s[1], p);
            assert(s.take(3) == s.take(2).push(s[2]));
            s.take(2).lemma_filter_push(s[2], p);
            assert(s.take(4) == s.take(3).push(s[3]));
            s.take(3).lemma_filter_push(s[3], p);
            assert(s.take(4) == s);
            assert(p(GpuVendor::Nvidia) == self.nvidia);
            assert(p(GpuVendor::Amd) == self.amd);
            assert(p(GpuVendor::Intel) == self.intel);
            assert(p(GpuVendor::Other) == self.other);
            assert(r@ =~= s.filter(p));
        }
        r
    }
}

/// A set of names (packages, repositories, remotes, applications).
#[derive(Clone, Debug)]
pub struct StringSet {
    items: Vec<String>,
}

impl View for StringSet {
    type V = Set<Seq<char>>;

    closed spec fn view(&self) -> Set<Seq<char>> {
        Set::new(|s: Seq<char>| exists|i: int| 0 <= i < self.items@.len() && #[trigger] self.items@[i]@ == s)
    }
}

impl StringSet {
    /// The empty set.
    pub fn new() -> (r: StringSet)
        ensures
            r@ == Set::<Seq<char>>::empty(),
    {
        let r = StringSet { items: Vec::new() };
        proof { assert(r@ =~= Set::<Seq<char>>::empty()); }
        r
    }

    /// Whether `value` is a member.
    pub fn contains(&self, value: &str) -> (r: bool)
        ensures
            r == self@.contains(value@),
    {
        let needle = String::from_str(value);
        let mut i: usize = 0;
        while i < self.items.len()
            invariant
                i <= self.items@.len(),
                needle@ == value@,
                forall|j: int| 0 <= j < i ==> #[trigger] self.items@[j]@ != value@,
            decreases self.items@.len() - i,
        {
            if self.items[i] == needle {
                proof { assert(self.items@[i as int]@ == value@); }
                return true;
            }
            i = i + 1;
        }
        false
    }

    /// Adds `value`; returns whether it was absent before.
    pub fn insert(&mut self, value: String) -> (r: bool)
        ensures
            final(self)@ == old(self)@.insert(value@),
            r == !old(self)@.contains(value@),
    {
        if self.contains(value.as_str()) {
            proof { assert(self@ =~= old(self)@.insert(value@)); }
            return false;
        }
        let ghost v = value@;
        self.items.push(value);
        proof {
            assert forall|s: Seq<char>| #[trigger] self@.contains(s) == old(self)@.insert(v).contains(s) by {
                if self@.contains(s) {
                    let i = choose|i: int| 0 <= i < self.items@.len() && #[trigger] self.items@[i]@ == s;
                    if i < old(self).items@.len() {
                        assert(old(self).items@[i]@ == s);
                    }
                }
                if old(self)@.contains(s) {
                    let i = choose|i: int| 0 <= i < old(self).items@.len() && #[trigger] old(self).items@[i]@ == s;
                    assert(self.items@[i]@ == s);
                }
                if s == v {
                    assert(self.items@[self.items@.len() - 1]@ == s);
                }
            }
            assert(self@ =~= old(self)@.insert(v));
        }
        true
    }

    /// The set of the names in `items`.
    pub fn from_slice(items: &[&str]) -> (r: StringSet)
        ensures
            r@ == items@.map_values(|s: &str| s@).to_set(),
    {
        let mut r = StringSet::new();
        let mut i: usize = 0;
        while i < items.len()
            invariant
                i <= items@.len(),
                r@ == items@.take(i as int).map_values(|s: &str| s@).to_set(),
            decreases items@.len() - i,
        {
            r.insert(String::from_str(items[i]));
            proof {
                let f = |s: &str| s@;
                assert(items@.take(i + 1).map_values(f) == items@.take(i as int).map_values(f).push(items@[i as int]@));
                items@.take(i as int).map_values(f).lemma_push_to_set_commute(items@[i as int]@);
            }
            i = i + 1;
        }
        proof {
            assert(items@.take(items@.len() as int) == items@);
        }
        r
    }
}

} // verus!
