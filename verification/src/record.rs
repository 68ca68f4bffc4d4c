//! Full records, sparse overlays, and the merge of one onto the other.

use crate::value::{OptionValue, OptionValueView};
use vstd::prelude::*;

verus! {

/// A configuration record: one value for every declared option, in
/// declaration order.
#[derive(Clone, Debug, PartialEq, Eq)]
pub struct Record {
    pub values: Vec<OptionValue>,
}

impl View for Record {
    type V = Seq<OptionValueView>;

    open spec fn view(&self) -> Seq<OptionValueView> {
        self.values.deep_view()
    }
}

/// What a document said: one slot for every declared option, in
/// declaration order, filled only where the document gave a value.
#[derive(Clone, Debug, PartialEq, Eq)]
pub struct Overlay {
    pub slots: Vec<Option<OptionValue>>,
}

impl View for Overlay {
    type V = Seq<Option<OptionValueView>>;

    open spec fn view(&self) -> Seq<Option<OptionValueView>> {
        self.slots.deep_view()
    }
}

/// The overlay with `len` slots that says nothing.
pub open spec fn empty_overlay(len: nat) -> Seq<Option<OptionValueView>> {
    Seq::new(len, |i: int| None)
}

/// Field by field: the overlay's value where it has one, else the default.
/// Slots beyond the last default are ignored; a default without a slot is
/// kept.
pub open spec fn merged(
    defaults: Seq<OptionValueView>,
    overlay: Seq<Option<OptionValueView>>,
) -> Seq<OptionValueView> {
    Seq::new(
        defaults.len(),
        |i: int|
            if i < overlay.len() && overlay[i] is Some {
                overlay[i]->0
            } else {
                defaults[i]
            },
    )
}

impl Overlay {
    /// An overlay with `len` slots, none of them filled.
    pub fn empty(len: usize) -> (overlay: Overlay)
        ensures
            overlay@ == empty_overlay(len as nat),
    {
        let mut slots: Vec<Option<OptionValue>> = Vec::new();
        let mut i: usize = 0;
        while i < len
            invariant
                i <= len,
                slots.len() == i,
                forall|k: int| 0 <= k < i ==> slots[k] is None,
            decreases len - i,
        {
            slots.push(None);
            i = i + 1;
        }
        Overlay { slots }
    }
}

/// Overlays `overlay` onto `defaults`.
pub fn merge(defaults: Record, overlay: Overlay) -> (result: Record)
    ensures
        result@ == merged(defaults@, overlay@),
{
    let ghost before = defaults@;
    let mut result = defaults;
    let mut i: usize = 0;
    while i < result.values.len() && i < overlay.slots.len()
        invariant
            result.values.len() == before.len(),
            i <= result.values.len(),
            forall|k: int|
                0 <= k < i ==> (#[trigger] result.values[k])@ == merged(before, overlay@)[k],
            forall|k: int| i <= k < before.len() ==> (#[trigger] result.values[k])@ == before[k],
        decreases result.values.len() - i,
    {
        match &overlay.slots[i] {
            Some(value) => {
                result.values.set(i, value.clone());
            },
            None => {},
        }
        i = i + 1;
    }
    result
}

/// An overlay with no slot filled changes nothing.
pub proof fn merge_identity(defaults: Seq<OptionValueView>, overlay: Seq<Option<OptionValueView>>)
    requires
        forall|i: int| 0 <= i < overlay.len() ==> overlay[i] is None,
    ensures
        merged(defaults, overlay) == defaults,
        merged(defaults, empty_overlay(defaults.len())) == defaults,
{
}

/// An overlay with exactly one slot filled replaces that one field and
/// leaves every other field as it was.
pub proof fn merge_override(
    defaults: Seq<OptionValueView>,
    overlay: Seq<Option<OptionValueView>>,
    field: int,
    value: OptionValueView,
)
    requires
        0 <= field < defaults.len(),
        field < overlay.len(),
        overlay[field] == Some(value),
        forall|i: int| 0 <= i < overlay.len() && i != field ==> overlay[i] is None,
    ensures
        merged(defaults, overlay) == defaults.update(field, value),
        merged(defaults, overlay)[field] == value,
        forall|i: int|
            0 <= i < defaults.len() && i != field ==> merged(defaults, overlay)[i] == defaults[i],
{
}

/// Merging the same overlay a second time changes nothing.
pub proof fn merge_idempotent(
    defaults: Seq<OptionValueView>,
    overlay: Seq<Option<OptionValueView>>,
)
    ensures
        merged(merged(defaults, overlay), overlay) == merged(defaults, overlay),
{
}

/// Each field of a merge depends on that field of its inputs alone.
pub proof fn merge_is_fieldwise(
    defaults: Seq<OptionValueView>,
    overlay: Seq<Option<OptionValueView>>,
    field: int,
)
    requires
        0 <= field < defaults.len(),
    ensures
        merged(defaults, overlay).len() == defaults.len(),
        merged(defaults, overlay)[field] == if field < overlay.len() && overlay[field] is Some {
            overlay[field]->0
        } else {
            defaults[field]
        },
{
}

} // verus!
