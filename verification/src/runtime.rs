//! Runtime model of the code the generator emits: a builder value with one
//! absent-or-present slot per origin field, populated by setter calls and
//! consumed by a validating finalization. The generated code behaves exactly
//! as this model does; its laws — what a fresh builder yields, that only the
//! last value per field matters, that failure names the first absent field in
//! declaration order — are stated and proved here.

use vstd::prelude::*;
use vstd::string::StringExecFns;

use crate::model::{FieldModel, FieldModelV};

verus! {

/// The recoverable missing-field error raised by finalization: it identifies
/// exactly one field, the first one in declaration order found absent.
pub struct BuildError {
    pub field: String,
}

impl BuildError {
    /// The identifying message carried by the error: the offending field's
    /// name followed by " not set".
    pub fn message(&self) -> (r: String)
        ensures
            r@ == self.field@ + " not set"@,
    {
        self.field.clone().concat(" not set")
    }
}

/// Every slot holds a value.
pub open spec fn all_present<V>(slots: Seq<Option<V>>) -> bool {
    forall|i: int| 0 <= i < slots.len() ==> slots[i] is Some
}

/// The values held by the slots, in declaration order; meaningful when all
/// slots are present.
pub open spec fn present_values<V>(slots: Seq<Option<V>>) -> Seq<V> {
    slots.map_values(|slot: Option<V>| slot.unwrap())
}

/// The index of the first absent slot, scanning in declaration order;
/// meaningful when some slot is absent.
pub open spec fn first_absent<V>(slots: Seq<Option<V>>) -> int
    decreases slots.len(),
{
    if slots.len() == 0 {
        0
    } else if slots[0] is None {
        0
    } else {
        1 + first_absent(slots.drop_first())
    }
}

/// Slot `k` is absent and every slot before it is present.
pub open spec fn is_first_absent<V>(slots: Seq<Option<V>>, k: int) -> bool {
    &&& 0 <= k < slots.len()
    &&& slots[k] is None
    &&& forall|j: int| 0 <= j < k ==> slots[j] is Some
}

/// Law: failure reporting is order-sensitive. If field `k`'s slot is absent
/// and every earlier slot is present, then `k` is exactly the field that the
/// first-absent scan — and hence a failing finalization — reports.
pub proof fn lemma_first_absent_at<V>(slots: Seq<Option<V>>, k: int)
    requires
        is_first_absent(slots, k),
    ensures
        !all_present(slots),
        first_absent(slots) == k,
    decreases k,
{
    assert(!(slots[k] is Some));
    if k == 0 {
    } else {
        let rest = slots.drop_first();
        assert forall|j: int| 0 <= j < k - 1 implies rest[j] is Some by {
            assert(slots[j + 1] is Some);
        }
        assert(rest[k - 1] is None);
        lemma_first_absent_at(rest, k - 1);
    }
}

/// Law: whenever some slot is absent, the first-absent scan lands on an
/// absent slot that has only present slots before it; with
/// [`lemma_first_absent_at`] that index is unique.
pub proof fn lemma_first_absent_found<V>(slots: Seq<Option<V>>)
    requires
        !all_present(slots),
    ensures
        is_first_absent(slots, first_absent(slots)),
    decreases slots.len(),
{
    assert(exists|k: int| 0 <= k < slots.len() && !(slots[k] is Some));
    let k = choose|k: int| 0 <= k < slots.len() && !(slots[k] is Some);
    if slots[0] is None {
    } else {
        let rest = slots.drop_first();
        assert(!(rest[k - 1] is Some));
        assert(!all_present(rest));
        lemma_first_absent_found(rest);
        let fa = first_absent(rest);
        assert(slots[1 + fa] == rest[fa]);
        assert forall|j: int| 0 <= j < 1 + fa implies slots[j] is Some by {
            if j > 0 {
                assert(rest[j - 1] is Some);
            }
        }
    }
}

/// Runtime model of a generated builder: one optional slot per origin field,
/// beside the field's name for failure reporting, both in declaration order.
/// A builder is single-owner and sequential by contract; nothing here is
/// shared between instances.
pub struct Builder<V> {
    pub names: Vec<String>,
    pub slots: Vec<Option<V>>,
}

impl<V> Builder<V> {
    /// Well-formedness: one field name per slot.
    pub open spec fn wf(&self) -> bool {
        self.names@.len() == self.slots@.len()
    }

    /// The field names, in declaration order.
    pub open spec fn field_names(&self) -> Seq<Seq<char>> {
        self.names.deep_view()
    }

    /// Model of the generated factory `builder()`: a new builder over the
    /// given field models with every slot absent. This is the sole way the
    /// generated code begins construction.
    pub fn new(models: &Vec<FieldModel>) -> (b: Builder<V>)
        ensures
            b.wf(),
            b.slots@.len() == models@.len(),
            forall|i: int| 0 <= i < models@.len() ==> #[trigger] b.slots@[i] is None,
            b.field_names() == models.deep_view().map_values(|m: FieldModelV| m.name),
    {
        let mut names: Vec<String> = Vec::new();
        let mut slots: Vec<Option<V>> = Vec::new();
        let mut i: usize = 0;
        while i < models.len()
            invariant
                i <= models.len(),
                names@.len() == i,
                slots@.len() == i,
                forall|j: int| 0 <= j < i ==> #[trigger] names@[j]@ == models@[j]@.name,
                forall|j: int| 0 <= j < i ==> #[trigger] slots@[j] is None,
            decreases models.len() - i,
        {
            names.push(models[i].name.clone());
            slots.push(None);
            i = i + 1;
        }
        let b = Builder { names, slots };
        proof {
            let expected = models.deep_view().map_values(|m: FieldModelV| m.name);
            assert forall|j: int| 0 <= j < b.field_names().len() implies b.field_names()[j]
                == expected[j] by {
                assert(b.names@[j]@ == models@[j]@.name);
            }
            assert(b.field_names() =~= expected);
        }
        b
    }

    /// Model of a generated setter: stores the value as present in the
    /// field's slot, overwriting any prior value, and touches nothing else.
    /// The generated setter returns the builder itself so that calls chain;
    /// a chain corresponds to sequential calls of this method on one builder.
    pub fn set_field(&mut self, index: usize, value: V)
        requires
            old(self).wf(),
            index < old(self).slots@.len(),
        ensures
            final(self).wf(),
            final(self).names == old(self).names,
            final(self).slots@ == old(self).slots@.update(index as int, Some(value)),
    {
        self.slots[index] = Some(value);
    }

    /// Model of the generated finalization `build()`: checks each field's
    /// presence in declaration order and fails on the first absent one,
    /// naming it; if every field is present, yields the field values in
    /// declaration order — the record reconstructed. The builder itself is
    /// never mutated, so a caller may supply a missing field and retry.
    pub fn build(&self) -> (r: Result<Vec<V>, BuildError>) where V: Copy
        requires
            self.wf(),
        ensures
            all_present(self.slots@) ==> (r matches Ok(values) && values@ == present_values(
                self.slots@,
            )),
            !all_present(self.slots@) ==> (r matches Err(e) && e.field@ == self.field_names()[
                first_absent(self.slots@)
            ]),
    {
        let n = self.slots.len();
        let mut i: usize = 0;
        while i < n
            invariant
                self.wf(),
                n == self.slots@.len(),
                i <= n,
                forall|j: int| 0 <= j < i ==> #[trigger] self.slots@[j] is Some,
            decreases n - i,
        {
            if self.slots[i].is_none() {
                proof {
                    lemma_first_absent_at(self.slots@, i as int);
                    assert(self.field_names()[i as int] == self.names@[i as int]@);
                }
                return Err(BuildError { field: self.names[i].clone() });
            }
            i = i + 1;
        }
        assert(all_present(self.slots@));
        let mut values: Vec<V> = Vec::new();
        let mut k: usize = 0;
        while k < n
            invariant
                self.wf(),
                n == self.slots@.len(),
                all_present(self.slots@),
                k <= n,
                values@.len() == k,
                forall|j: int| 0 <= j < k ==> #[trigger] values@[j] == self.slots@[j].unwrap(),
            decreases n - k,
        {
            let slot = self.slots[k];
            match slot {
                Some(v) => {
                    values.push(v);
                },
                None => {
                    proof {
                        assert(false);
                    }
                },
            }
            k = k + 1;
        }
        proof {
            assert forall|j: int| 0 <= j < values@.len() implies values@[j] == present_values(
                self.slots@,
            )[j] by {
                assert(values@[j] == self.slots@[j].unwrap());
            }
            assert(values@ =~= present_values(self.slots@));
        }
        Ok(values)
    }
}

/// Law: finalizing a fresh builder — factory, then `build()` with no setter
/// call between — fails naming the first declared field when there is one,
/// and succeeds with the empty record when there is none.
pub proof fn lemma_fresh_build<V>(slots: Seq<Option<V>>)
    requires
        forall|i: int| 0 <= i < slots.len() ==> #[trigger] slots[i] is None,
    ensures
        slots.len() == 0 ==> all_present(slots) && present_values(slots) == Seq::<V>::empty(),
        slots.len() > 0 ==> !all_present(slots) && first_absent(slots) == 0,
{
    if slots.len() == 0 {
        assert(present_values(slots) =~= Seq::<V>::empty());
    } else {
        lemma_first_absent_at(slots, 0);
    }
}

/// Law (idempotence of a setter): storing into the same slot twice keeps
/// only the last value — the earlier call leaves no trace.
pub proof fn lemma_repeated_set_last_wins<V>(slots: Seq<Option<V>>, i: int, first: V, second: V)
    requires
        0 <= i < slots.len(),
    ensures
        slots.update(i, Some(first)).update(i, Some(second)) == slots.update(i, Some(second)),
{
    assert(slots.update(i, Some(first)).update(i, Some(second)) =~= slots.update(
        i,
        Some(second),
    ));
}

/// Law (order insensitivity): setters for distinct fields commute, so a
/// chain of setter calls may run in any order without changing the final
/// builder state.
pub proof fn lemma_distinct_sets_commute<V>(slots: Seq<Option<V>>, i: int, vi: V, j: int, vj: V)
    requires
        0 <= i < slots.len(),
        0 <= j < slots.len(),
        i != j,
    ensures
        slots.update(i, Some(vi)).update(j, Some(vj)) == slots.update(j, Some(vj)).update(
            i,
            Some(vi),
        ),
{
    assert(slots.update(i, Some(vi)).update(j, Some(vj)) =~= slots.update(j, Some(vj)).update(
        i,
        Some(vi),
    ));
}

/// The slot states after a chain of setter calls, applied left to right;
/// each call is the target field's index paired with the value passed.
pub open spec fn apply_sets<V>(slots: Seq<Option<V>>, calls: Seq<(int, V)>) -> Seq<Option<V>>
    decreases calls.len(),
{
    if calls.len() == 0 {
        slots
    } else {
        apply_sets(slots.update(calls[0].0, Some(calls[0].1)), calls.drop_first())
    }
}

/// Some call of the chain targets field `i`.
pub open spec fn sets_index<V>(calls: Seq<(int, V)>, i: int) -> bool {
    exists|k: int| 0 <= k < calls.len() && (#[trigger] calls[k]).0 == i
}

/// The value the last call targeting field `i` passed; meaningful when some
/// call targets `i`.
pub open spec fn last_set_value<V>(calls: Seq<(int, V)>, i: int) -> V
    recommends
        sets_index(calls, i),
    decreases calls.len(),
{
    if calls.len() == 0 {
        arbitrary()
    } else if sets_index(calls.drop_first(), i) {
        last_set_value(calls.drop_first(), i)
    } else if calls[0].0 == i {
        calls[0].1
    } else {
        arbitrary()
    }
}

/// The length of the slot sequence survives any chain of setter calls whose
/// targets are in range.
pub proof fn lemma_apply_sets_len<V>(slots: Seq<Option<V>>, calls: Seq<(int, V)>)
    requires
        forall|k: int| 0 <= k < calls.len() ==> 0 <= (#[trigger] calls[k]).0 < slots.len(),
    ensures
        apply_sets(slots, calls).len() == slots.len(),
    decreases calls.len(),
{
    if calls.len() > 0 {
        let updated = slots.update(calls[0].0, Some(calls[0].1));
        let rest = calls.drop_first();
        assert forall|k: int| 0 <= k < rest.len() implies 0 <= (#[trigger] rest[k]).0
            < updated.len() by {
            assert(rest[k] == calls[k + 1]);
        }
        lemma_apply_sets_len(updated, rest);
    }
}

/// After a chain of setter calls, a field targeted by some call holds the
/// last value passed for it, and a field targeted by none keeps its prior
/// state — regardless of how calls to other fields interleave.
pub proof fn lemma_sets_determine_slot<V>(slots: Seq<Option<V>>, calls: Seq<(int, V)>, i: int)
    requires
        0 <= i < slots.len(),
        forall|k: int| 0 <= k < calls.len() ==> 0 <= (#[trigger] calls[k]).0 < slots.len(),
    ensures
        sets_index(calls, i) ==> apply_sets(slots, calls)[i] == Some(last_set_value(calls, i)),
        !sets_index(calls, i) ==> apply_sets(slots, calls)[i] == slots[i],
    decreases calls.len(),
{
    if calls.len() == 0 {
    } else {
        let updated = slots.update(calls[0].0, Some(calls[0].1));
        let rest = calls.drop_first();
        assert forall|k: int| 0 <= k < rest.len() implies 0 <= (#[trigger] rest[k]).0
            < updated.len() by {
            assert(rest[k] == calls[k + 1]);
        }
        lemma_sets_determine_slot(updated, rest, i);
        if sets_index(rest, i) {
            let k = choose|k: int| 0 <= k < rest.len() && (#[trigger] rest[k]).0 == i;
            assert(calls[k + 1] == rest[k]);
            assert(sets_index(calls, i));
        } else if calls[0].0 == i {
            assert(sets_index(calls, i));
            assert(updated[i] == Some(calls[0].1));
        } else {
            assert forall|k: int| 0 <= k < calls.len() implies (#[trigger] calls[k]).0 != i by {
                if k > 0 {
                    assert(rest[k - 1] == calls[k]);
                }
            }
            assert(!sets_index(calls, i));
            assert(updated[i] == slots[i]);
        }
    }
}

/// Law: a chain of setter calls that targets every field at least once, in
/// any order, makes finalization succeed, and the record reflects, per
/// field, exactly the last value passed for it. With each field targeted
/// exactly once this is construction from the passed values; with a field
/// targeted repeatedly it is setter idempotence.
pub proof fn lemma_build_after_sets<V>(slots: Seq<Option<V>>, calls: Seq<(int, V)>)
    requires
        forall|k: int| 0 <= k < calls.len() ==> 0 <= (#[trigger] calls[k]).0 < slots.len(),
        forall|i: int| 0 <= i < slots.len() ==> sets_index(calls, i),
    ensures
        all_present(apply_sets(slots, calls)),
        present_values(apply_sets(slots, calls)).len() == slots.len(),
        forall|i: int| 0 <= i < slots.len() ==> #[trigger] present_values(apply_sets(slots, calls))[i]
            == last_set_value(calls, i),
{
    lemma_apply_sets_len(slots, calls);
    let after = apply_sets(slots, calls);
    assert forall|i: int| 0 <= i < after.len() implies #[trigger] after[i] is Some && after[i]
        == Some(last_set_value(calls, i)) by {
        lemma_sets_determine_slot(slots, calls, i);
    }
    assert forall|i: int| 0 <= i < slots.len() implies #[trigger] present_values(after)[i]
        == last_set_value(calls, i) by {
        assert(after[i] == Some(last_set_value(calls, i)));
    }
}

} // verus!
