//! Reference semantics of the builders this crate emits.
//!
//! An emitted builder holds one slot per field, in declaration order; its
//! setters overwrite a slot with a present value, and its build method
//! takes every slot in order, failing on the first required slot found
//! absent. `BuilderState` is that discipline over plain values, and the
//! laws proved here are the guarantees an emitted builder gives its caller.

use vstd::prelude::*;

verus! {

/// The index of the first slot at or after `i` that is required yet
/// absent, or the number of slots when there is no such slot.
pub open spec fn first_missing<V>(required: Seq<bool>, slots: Seq<Option<V>>, i: int) -> int
    recommends
        required.len() == slots.len(),
        0 <= i <= required.len(),
    decreases required.len() - i,
{
    if i < 0 || i >= required.len() {
        required.len() as int
    } else if required[i] && slots[i] is None {
        i
    } else {
        first_missing(required, slots, i + 1)
    }
}

/// What `first_missing` finds: an index between `i` and the slot count;
/// when it is a proper index, that slot is the first required-and-absent
/// one at or after `i`; when it is the slot count, no slot at or after `i`
/// is required and absent.
pub proof fn lemma_first_missing_bounds<V>(required: Seq<bool>, slots: Seq<Option<V>>, i: int)
    requires
        required.len() == slots.len(),
        0 <= i <= required.len(),
    ensures
        i <= first_missing(required, slots, i) <= required.len(),
        first_missing(required, slots, i) < required.len() ==> required[first_missing(
            required,
            slots,
            i,
        )] && slots[first_missing(required, slots, i)] is None,
        forall|j: int|
            i <= j < first_missing(required, slots, i) ==> !(required[j] && (#[trigger] slots[j])
                is None),
    decreases required.len() - i,
{
    if i < required.len() && !(required[i] && slots[i] is None) {
        lemma_first_missing_bounds(required, slots, i + 1);
    }
}

/// The state of an emitted builder: one slot per field, in the schema's
/// field declaration order, each slot either absent or holding a value.
pub struct BuilderState<V> {
    pub slots: Vec<Option<V>>,
}

impl<V> BuilderState<V> {
    /// What the emitted factory returns: every slot absent.
    pub fn init(n: usize) -> (r: Self)
        ensures
            r.slots@.len() == n,
            forall|i: int| 0 <= i < n ==> (#[trigger] r.slots@[i]) is None,
    {
        let mut slots: Vec<Option<V>> = Vec::new();
        while slots.len() < n
            invariant
                slots@.len() <= n,
                forall|i: int| 0 <= i < slots@.len() ==> (#[trigger] slots@[i]) is None,
            decreases n - slots@.len(),
        {
            slots.push(None);
        }
        BuilderState { slots }
    }

    /// What an emitted setter does: overwrites the slot with the new value,
    /// as present. The slot holds only the most recent value, whatever it
    /// held before.
    pub fn set(&mut self, i: usize, v: V)
        requires
            i < old(self).slots@.len(),
        ensures
            final(self).slots@ == old(self).slots@.update(i as int, Some(v)),
    {
        self.slots[i] = Some(v);
    }

    /// What the emitted build method does, given which fields are required,
    /// in declaration order: every slot up to and including the decisive one
    /// is taken — moved out, leaving the slot absent. The first required
    /// slot found absent fails the build with that field's index, later
    /// slots left untouched; when no required slot is absent, the build
    /// succeeds with exactly the taken slot values, optional absences
    /// included, and every slot is left absent.
    pub fn build(&mut self, required: &Vec<bool>) -> (r: Result<Vec<Option<V>>, usize>)
        requires
            required@.len() == old(self).slots@.len(),
        ensures
            ({
                let m = first_missing(required@, old(self).slots@, 0);
                match r {
                    Ok(vals) => {
                        &&& m == required@.len()
                        &&& vals@ == old(self).slots@
                        &&& final(self).slots@.len() == old(self).slots@.len()
                        &&& forall|i: int|
                            0 <= i < final(self).slots@.len()
                                ==> (#[trigger] final(self).slots@[i]) is None
                    },
                    Err(idx) => {
                        &&& m < required@.len()
                        &&& idx == m
                        &&& required@[m]
                        &&& old(self).slots@[m] is None
                        &&& final(self).slots@ =~= Seq::new(
                            old(self).slots@.len(),
                            |j: int|
                                if j <= m {
                                    Option::<V>::None
                                } else {
                                    old(self).slots@[j]
                                },
                        )
                    },
                }
            }),
    {
        let ghost orig = self.slots@;
        let ghost req = required@;
        let n = required.len();
        let mut vals: Vec<Option<V>> = Vec::new();
        let mut i: usize = 0;
        while i < n
            invariant
                req == required@,
                orig == old(self).slots@,
                n == req.len(),
                i <= n,
                orig.len() == n,
                self.slots@ =~= orig.skip(i as int),
                vals@ =~= orig.take(i as int),
                first_missing(req, orig, 0) == first_missing(req, orig, i as int),
                forall|j: int| 0 <= j < i ==> !(req[j] && (#[trigger] orig[j]) is None),
            decreases n - i,
        {
            let taken = self.slots.remove(0);
            proof {
                assert(taken == orig[i as int]);
                assert(self.slots@ =~= orig.skip(i as int + 1));
            }
            let missing = required[i] && taken.is_none();
            if missing {
                proof {
                    assert(first_missing(req, orig, i as int) == i as int);
                }
                let mut j: usize = 0;
                while j <= i
                    invariant
                        orig == old(self).slots@,
                        req == required@,
                        i < n,
                        orig.len() == n,
                        req[i as int],
                        orig[i as int] is None,
                        first_missing(req, orig, 0) == i as int,
                        j <= i + 1,
                        self.slots@ =~= Seq::new(
                            (orig.len() - (i as int + 1) + j as int) as nat,
                            |k: int|
                                if k < j as int {
                                    Option::<V>::None
                                } else {
                                    orig[k - j as int + i as int + 1]
                                },
                        ),
                    decreases i + 1 - j,
                {
                    self.slots.insert(0, None);
                    j = j + 1;
                }
                proof {
                    assert(self.slots@ =~= Seq::new(
                        orig.len(),
                        |k: int|
                            if k <= i as int {
                                Option::<V>::None
                            } else {
                                orig[k]
                            },
                    ));
                }
                return Err(i);
            }
            vals.push(taken);
            proof {
                assert(vals@ =~= orig.take(i as int + 1));
                assert(first_missing(req, orig, i as int) == first_missing(req, orig, i as int + 1));
            }
            i = i + 1;
        }
        proof {
            assert(first_missing(req, orig, n as int) == n as int);
            assert(vals@ =~= orig);
        }
        let mut k: usize = 0;
        while k < n
            invariant
                req == required@,
                orig == old(self).slots@,
                n == orig.len(),
                n == req.len(),
                first_missing(req, orig, 0) == n as int,
                vals@ == orig,
                k <= n,
                self.slots@.len() == k,
                forall|j: int| 0 <= j < k ==> (#[trigger] self.slots@[j]) is None,
            decreases n - k,
        {
            self.slots.push(None);
            k = k + 1;
        }
        Ok(vals)
    }
}

/// Setter idempotence: writing the same slot twice, with whatever values,
/// leaves the slot holding only the most recent value — setters overwrite,
/// they do not accumulate.
pub proof fn lemma_setter_overwrite<V>(slots: Seq<Option<V>>, i: int, v1: V, v2: V)
    requires
        0 <= i < slots.len(),
    ensures
        slots.update(i, Some(v1)).update(i, Some(v2)) == slots.update(i, Some(v2)),
{
    assert(slots.update(i, Some(v1)).update(i, Some(v2)) =~= slots.update(i, Some(v2)));
}

/// Round trip: once every required slot is present — every required field
/// has been set — the build succeeds, and by `BuilderState::build`'s
/// contract it yields exactly the slot values: the same product a direct
/// construction from those field values gives.
pub proof fn lemma_build_round_trip<V>(required: Seq<bool>, slots: Seq<Option<V>>)
    requires
        required.len() == slots.len(),
        forall|i: int| 0 <= i < required.len() && required[i] ==> (#[trigger] slots[i]) is Some,
    ensures
        first_missing(required, slots, 0) == required.len(),
{
    lemma_first_missing_bounds(required, slots, 0);
    let m = first_missing(required, slots, 0);
    if m < required.len() {
        assert(slots[m] is Some);
    }
}

/// A build fails exactly when some required slot is absent; an optional
/// slot, present or absent, never fails it.
pub proof fn lemma_build_fails_iff_missing<V>(required: Seq<bool>, slots: Seq<Option<V>>)
    requires
        required.len() == slots.len(),
    ensures
        first_missing(required, slots, 0) < required.len() <==> exists|i: int|
            0 <= i < required.len() && required[i] && (#[trigger] slots[i]) is None,
{
    lemma_first_missing_bounds(required, slots, 0);
    let m = first_missing(required, slots, 0);
    if m < required.len() {
        assert(required[m] && slots[m] is None);
    }
    if exists|i: int| 0 <= i < required.len() && required[i] && (#[trigger] slots[i]) is None {
        let i = choose|i: int|
            0 <= i < required.len() && required[i] && (#[trigger] slots[i]) is None;
        assert(!(m == required.len())) by {
            if m == required.len() {
                assert(!(required[i] && slots[i] is None));
            }
        }
    }
}

/// Changing an optional slot — in particular, leaving it absent — never
/// changes which required field, if any, fails the build.
pub proof fn lemma_optional_never_blocks<V>(
    required: Seq<bool>,
    slots: Seq<Option<V>>,
    i: int,
    w: Option<V>,
)
    requires
        required.len() == slots.len(),
        0 <= i < required.len(),
        !required[i],
    ensures
        first_missing(required, slots.update(i, w), 0) == first_missing(required, slots, 0),
{
    lemma_optional_never_blocks_from(required, slots, i, w, 0);
}

proof fn lemma_optional_never_blocks_from<V>(
    required: Seq<bool>,
    slots: Seq<Option<V>>,
    i: int,
    w: Option<V>,
    j: int,
)
    requires
        required.len() == slots.len(),
        0 <= i < required.len(),
        !required[i],
        0 <= j <= required.len(),
    ensures
        first_missing(required, slots.update(i, w), j) == first_missing(required, slots, j),
    decreases required.len() - j,
{
    if j < required.len() {
        lemma_optional_never_blocks_from(required, slots, i, w, j + 1);
    }
}

} // verus!
