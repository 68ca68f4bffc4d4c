//! The value of one option, and how a value relates to a kind.

use crate::kind::{ValueKind, ValueKindView};
use crate::text::{debug_text, decimal, push_debug, push_decimal};
use vstd::prelude::*;
use vstd::string::*;

verus! {

/// The value of one option. A choice is held as its position in the
/// enumeration it is taken from.
#[derive(Debug, PartialEq, Eq)]
pub enum OptionValue {
    Boolean(bool),
    UnsignedInteger(usize),
    Text(String),
    Choice(usize),
}

/// Mathematical model of an [`OptionValue`].
pub enum OptionValueView {
    Boolean(bool),
    UnsignedInteger(nat),
    Text(Seq<char>),
    Choice(nat),
}

impl View for OptionValue {
    type V = OptionValueView;

    open spec fn view(&self) -> OptionValueView {
        match self {
            OptionValue::Boolean(flag) => OptionValueView::Boolean(*flag),
            OptionValue::UnsignedInteger(number) => OptionValueView::UnsignedInteger(
                *number as nat,
            ),
            OptionValue::Text(text) => OptionValueView::Text(text@),
            OptionValue::Choice(position) => OptionValueView::Choice(*position as nat),
        }
    }
}

impl DeepView for OptionValue {
    type V = OptionValueView;

    open spec fn deep_view(&self) -> OptionValueView {
        self@
    }
}

impl Clone for OptionValue {
    fn clone(&self) -> (copy: Self)
        ensures
            copy == *self,
    {
        match self {
            OptionValue::Boolean(flag) => OptionValue::Boolean(*flag),
            OptionValue::UnsignedInteger(number) => OptionValue::UnsignedInteger(*number),
            OptionValue::Text(text) => OptionValue::Text(text.clone()),
            OptionValue::Choice(position) => OptionValue::Choice(*position),
        }
    }
}

/// Whether `value` is a value of kind `kind`: the variants agree, and a
/// choice names one of the kind's declared variants.
pub open spec fn conforms(kind: ValueKindView, value: OptionValueView) -> bool {
    match (kind, value) {
        (ValueKindView::Boolean, OptionValueView::Boolean(_)) => true,
        (ValueKindView::UnsignedInteger, OptionValueView::UnsignedInteger(_)) => true,
        (ValueKindView::Text, OptionValueView::Text(_)) => true,
        (ValueKindView::Choice(names), OptionValueView::Choice(position)) => position
            < names.len(),
        _ => false,
    }
}

/// How documentation shows a value of kind `kind`: `true` or `false`, a
/// decimal numeral, a quoted string, or the declared name of a choice.
pub open spec fn value_text(kind: ValueKindView, value: OptionValueView) -> Seq<char>
    recommends
        conforms(kind, value),
{
    match value {
        OptionValueView::Boolean(flag) => if flag {
            "true"@
        } else {
            "false"@
        },
        OptionValueView::UnsignedInteger(number) => decimal(number),
        OptionValueView::Text(text) => debug_text(text),
        OptionValueView::Choice(position) => match kind {
            ValueKindView::Choice(names) => names[position as int],
            _ => Seq::empty(),
        },
    }
}

impl OptionValue {
    /// Tests whether this value is a value of kind `kind`.
    pub fn conforms_to(&self, kind: &ValueKind) -> (fits: bool)
        ensures
            fits == conforms(kind@, self@),
    {
        match (kind, self) {
            (ValueKind::Boolean, OptionValue::Boolean(_)) => true,
            (ValueKind::UnsignedInteger, OptionValue::UnsignedInteger(_)) => true,
            (ValueKind::Text, OptionValue::Text(_)) => true,
            (ValueKind::Choice(enumeration), OptionValue::Choice(position)) => *position
                < enumeration.variants.len(),
            _ => false,
        }
    }

    /// Appends to `out` the text that documentation shows for this value.
    pub fn push_text(&self, kind: &ValueKind, out: &mut String)
        requires
            conforms(kind@, self@),
        ensures
            final(out)@ == old(out)@ + value_text(kind@, self@),
    {
        match self {
            OptionValue::Boolean(flag) => {
                if *flag {
                    out.append("true");
                } else {
                    out.append("false");
                }
            },
            OptionValue::UnsignedInteger(number) => {
                push_decimal(out, *number);
            },
            OptionValue::Text(text) => {
                push_debug(out, text.as_str());
            },
            OptionValue::Choice(position) => {
                match kind {
                    ValueKind::Choice(enumeration) => {
                        out.append(enumeration.variants[*position].as_str());
                    },
                    _ => {},
                }
            },
        }
    }
}

} // verus!
