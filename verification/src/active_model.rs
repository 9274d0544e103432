//! Tri-state write intents: per-column wrappers recording whether a value was
//! supplied by the caller, loaded from storage, or never provided.

use vstd::prelude::*;
use vstd::std_specs::convert::IntoSpec;
use crate::value::{DbValue, ValueModel};
use crate::views::av_models;

verus! {

/// The three states a column's write intent can be in.
#[derive(Clone, Copy, Debug, PartialEq, Eq, Structural)]
pub enum ActiveValueState {
    /// The caller supplied a new value.
    Assigned,
    /// The value was loaded from storage and not modified since.
    Unchanged,
    /// No value; the column is left out of partial writes.
    Unset,
}

impl Default for ActiveValueState {
    fn default() -> (r: Self)
        ensures
            r == ActiveValueState::Unset,
    {
        ActiveValueState::Unset
    }
}

/// A write intent for one column: a value together with its state.
#[derive(Debug)]
pub struct ActiveValue<V> {
    value: V,
    state: ActiveValueState,
}

/// Mathematical picture of an [`ActiveValue`] over [`DbValue`].
#[verifier::ext_equal]
pub ghost struct ActiveValueModel {
    pub state: ActiveValueState,
    pub value: ValueModel,
}

impl View for ActiveValue<DbValue> {
    type V = ActiveValueModel;

    open spec fn view(&self) -> ActiveValueModel {
        ActiveValueModel { state: self.spec_state(), value: self.spec_value()@ }
    }
}

impl<V> ActiveValue<V> {
    /// The wrapped value, as seen by contracts.
    pub closed spec fn spec_value(&self) -> V {
        self.value
    }

    /// The state, as seen by contracts.
    pub closed spec fn spec_state(&self) -> ActiveValueState {
        self.state
    }

    /// Wrap a caller-supplied value.
    pub fn set(value: V) -> (r: Self)
        ensures
            r.spec_value() == value,
            r.spec_state() == ActiveValueState::Assigned,
    {
        Self { value, state: ActiveValueState::Assigned }
    }

    /// Whether the caller supplied this value.
    pub fn is_set(&self) -> (r: bool)
        ensures
            r == (self.spec_state() == ActiveValueState::Assigned),
    {
        matches!(self.state, ActiveValueState::Assigned)
    }

    /// Wrap a value loaded from storage, distinguishable from a user edit.
    pub(crate) fn unchanged(value: V) -> (r: Self)
        ensures
            r.spec_value() == value,
            r.spec_state() == ActiveValueState::Unchanged,
    {
        Self { value, state: ActiveValueState::Unchanged }
    }

    /// Whether no value is present.
    pub fn is_unset(&self) -> (r: bool)
        ensures
            r == (self.spec_state() == ActiveValueState::Unset),
    {
        matches!(self.state, ActiveValueState::Unset)
    }

    /// Give up the wrapped value without looking at the state.
    pub fn unwrap(self) -> (r: V)
        ensures
            r == self.spec_value(),
    {
        self.value
    }
}

impl<V: Default> ActiveValue<V> {
    /// A default-valued intent in the `Unset` state.
    pub fn unset() -> (r: Self)
        ensures
            r.spec_state() == ActiveValueState::Unset,
            call_ensures(V::default, (), r.spec_value()),
    {
        Self { value: V::default(), state: ActiveValueState::Unset }
    }

    /// Move the value out; the intent is left `Unset` with a default value.
    /// A second `take` therefore yields the default, not the original value.
    pub fn take(&mut self) -> (r: V)
        ensures
            r == old(self).spec_value(),
            final(self).spec_state() == ActiveValueState::Unset,
            call_ensures(V::default, (), final(self).spec_value()),
    {
        self.state = ActiveValueState::Unset;
        let mut out: V = V::default();
        core::mem::swap(&mut self.value, &mut out);
        out
    }
}

/// Wrap a value freshly hydrated from a fetched row.  Intended for generated
/// model-loading code, not for direct use when editing records.
pub fn unchanged_active_value_not_intended_for_public_use<V>(value: V) -> (r: ActiveValue<V>)
    ensures
        r.spec_value() == value,
        r.spec_state() == ActiveValueState::Unchanged,
{
    ActiveValue::unchanged(value)
}

impl<V: Into<DbValue>> ActiveValue<V> {
    /// Convert the wrapped value into a backend value, dropping the state.
    pub fn into_value(self) -> (r: DbValue)
        ensures
            V::obeys_into_spec() ==> r == self.spec_value().into_spec(),
    {
        self.value.into()
    }

    /// Normalize to a uniform intent over backend values: `Set` and
    /// `Unchanged` both become `Set`, `Unset` stays `Unset` (with a null
    /// value), so heterogeneously typed columns can be walked uniformly.
    pub fn into_wrapped_value(self) -> (r: ActiveValue<DbValue>)
        ensures
            old_state_maps_to(self.spec_state(), r.spec_state()),
            self.spec_state() != ActiveValueState::Unset && V::obeys_into_spec()
                ==> r.spec_value() == self.spec_value().into_spec(),
            self.spec_state() == ActiveValueState::Unset ==> r.spec_value() == DbValue::Null,
    {
        match self.state {
            ActiveValueState::Assigned => ActiveValue::set(self.into_value()),
            ActiveValueState::Unchanged => ActiveValue::set(self.into_value()),
            ActiveValueState::Unset => ActiveValue::unset(),
        }
    }
}

/// How [`ActiveValue::into_wrapped_value`] maps states: both kinds of present
/// value become `Set`; absence stays `Unset`.
pub open spec fn old_state_maps_to(before: ActiveValueState, after: ActiveValueState) -> bool {
    match before {
        ActiveValueState::Assigned => after == ActiveValueState::Assigned,
        ActiveValueState::Unchanged => after == ActiveValueState::Assigned,
        ActiveValueState::Unset => after == ActiveValueState::Unset,
    }
}

impl Clone for ActiveValue<DbValue> {
    fn clone(&self) -> (r: Self)
        ensures
            r@ == self@,
    {
        ActiveValue { value: self.value.clone(), state: self.state }
    }
}


/// A record's write intents, one per column of its entity, in the entity's
/// declared column order.
#[derive(Debug)]
pub struct ActiveModel {
    pub values: Vec<ActiveValue<DbValue>>,
}

impl View for ActiveModel {
    type V = Seq<ActiveValueModel>;

    open spec fn view(&self) -> Seq<ActiveValueModel> {
        av_models(self.values@)
    }
}

impl Clone for ActiveModel {
    fn clone(&self) -> (r: Self)
        ensures
            r@ == self@,
    {
        broadcast use crate::views::group_model_views;

        let mut values: Vec<ActiveValue<DbValue>> = Vec::new();
        let n = self.values.len();
        for i in 0..n
            invariant
                n == self.values.len(),
                values@.len() == i,
                forall|j: int| 0 <= j < i ==> (#[trigger] values@[j])@ == self.values@[j]@,
        {
            values.push(self.values[i].clone());
        }
        proof {
            assert(av_models(values@) =~= av_models(self.values@));
        }
        ActiveModel { values }
    }
}

/// The intent a freshly cleared column holds: no value.
pub open spec fn unset_model() -> ActiveValueModel {
    ActiveValueModel { state: ActiveValueState::Unset, value: ValueModel::Null }
}

/// `width` cleared intents.
pub open spec fn all_unset(width: nat) -> Seq<ActiveValueModel> {
    Seq::new(width, |i: int| unset_model())
}

impl ActiveModel {
    /// An all-`Unset` model with one intent per column.
    pub fn new_unset(width: usize) -> (r: Self)
        ensures
            r@ == all_unset(width as nat),
    {
        broadcast use crate::views::group_model_views;
        let mut values: Vec<ActiveValue<DbValue>> = Vec::new();
        let mut k: usize = 0;
        while k < width
            invariant
                k <= width,
                values@.len() == k,
                forall|j: int| 0 <= j < k ==> (#[trigger] values@[j])@ == unset_model(),
            decreases width - k,
        {
            values.push(ActiveValue::unset());
            k = k + 1;
        }
        proof {
            assert(av_models(values@) =~= all_unset(width as nat));
        }
        ActiveModel { values }
    }

    /// The intent for column `c`, left in place.
    pub fn get(&self, c: usize) -> (r: ActiveValue<DbValue>)
        requires
            c < self@.len(),
        ensures
            r@ == self@[c as int],
    {
        proof {
            broadcast use crate::views::group_model_views;
        }
        self.values[c].clone()
    }

    /// Supply a new value for column `c`.
    pub fn set(&mut self, c: usize, v: DbValue)
        requires
            c < old(self)@.len(),
        ensures
            final(self)@ == old(self)@.update(
                c as int,
                ActiveValueModel { state: ActiveValueState::Assigned, value: v@ },
            ),
    {
        broadcast use crate::views::group_model_views;
        let ghost v_model = v@;
        self.values.set(c, ActiveValue::set(v));
        proof {
            assert(self@ =~= old(self)@.update(
                c as int,
                ActiveValueModel { state: ActiveValueState::Assigned, value: v_model },
            ));
        }
    }

    /// Drop any value for column `c`: the column will be left out of partial
    /// writes.
    pub fn unset(&mut self, c: usize)
        requires
            c < old(self)@.len(),
        ensures
            final(self)@ == old(self)@.update(
                c as int,
                ActiveValueModel { state: ActiveValueState::Unset, value: ValueModel::Null },
            ),
    {
        broadcast use crate::views::group_model_views;
        self.values.set(c, ActiveValue::unset());
        proof {
            assert(self@ =~= old(self)@.update(
                c as int,
                ActiveValueModel { state: ActiveValueState::Unset, value: ValueModel::Null },
            ));
        }
    }

    /// Move the intent for column `c` out, leaving that column `Unset`.
    pub fn take(&mut self, c: usize) -> (r: ActiveValue<DbValue>)
        requires
            c < old(self)@.len(),
        ensures
            r@ == old(self)@[c as int],
            final(self)@ == old(self)@.update(
                c as int,
                ActiveValueModel { state: ActiveValueState::Unset, value: ValueModel::Null },
            ),
    {
        broadcast use crate::views::group_model_views;
        let mut out: ActiveValue<DbValue> = ActiveValue::unset();
        self.values.set_and_swap(c, &mut out);
        proof {
            assert(self@ =~= old(self)@.update(
                c as int,
                ActiveValueModel { state: ActiveValueState::Unset, value: ValueModel::Null },
            ));
        }
        out
    }
}

} // verus!
