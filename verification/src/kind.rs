//! The kinds of value an option may take, how each kind describes its legal
//! values, and how a closed set of named choices is decoded from text.

use crate::error::DecodeError;
use crate::text::{eq_ignore_ascii_case, joined, matches_ignoring_ascii_case, push_alternatives};
use vstd::prelude::*;
use vstd::string::*;

verus! {

/// A closed set of named choices. The names are kept in declaration order,
/// spelled as declared; a choice is identified by its position.
#[derive(Clone, Debug, PartialEq, Eq)]
pub struct Enumeration {
    pub variants: Vec<String>,
}

impl View for Enumeration {
    type V = Seq<Seq<char>>;

    open spec fn view(&self) -> Seq<Seq<char>> {
        self.variants.deep_view()
    }
}

/// The kind of value an option holds.
#[derive(Clone, Debug, PartialEq, Eq)]
pub enum ValueKind {
    Boolean,
    UnsignedInteger,
    Text,
    Choice(Enumeration),
}

/// Mathematical model of a [`ValueKind`].
pub enum ValueKindView {
    Boolean,
    UnsignedInteger,
    Text,
    Choice(Seq<Seq<char>>),
}

impl View for ValueKind {
    type V = ValueKindView;

    open spec fn view(&self) -> ValueKindView {
        match self {
            ValueKind::Boolean => ValueKindView::Boolean,
            ValueKind::UnsignedInteger => ValueKindView::UnsignedInteger,
            ValueKind::Text => ValueKindView::Text,
            ValueKind::Choice(enumeration) => ValueKindView::Choice(enumeration@),
        }
    }
}

impl DeepView for ValueKind {
    type V = ValueKindView;

    open spec fn deep_view(&self) -> ValueKindView {
        self@
    }
}

/// The description of a kind's legal values: a fixed literal for the three
/// scalar kinds, and `[V1|V2|...]` with the names in declaration order for
/// a set of choices.
pub open spec fn kind_description(kind: ValueKindView) -> Seq<char> {
    match kind {
        ValueKindView::Boolean => "<boolean>"@,
        ValueKindView::UnsignedInteger => "<unsigned integer>"@,
        ValueKindView::Text => "<string>"@,
        ValueKindView::Choice(names) => seq!['['] + joined(names, '|') + seq![']'],
    }
}

/// Renders the description of a kind's legal values.
pub fn describe_kind(kind: &ValueKind) -> (description: String)
    ensures
        description@ == kind_description(kind@),
{
    match kind {
        ValueKind::Boolean => bool::get_variant_names(),
        ValueKind::UnsignedInteger => usize::get_variant_names(),
        ValueKind::Text => String::get_variant_names(),
        ValueKind::Choice(enumeration) => {
            proof {
                reveal_strlit("[");
                reveal_strlit("]");
            }
            let mut out = String::from_str("[");
            push_alternatives(&mut out, &enumeration.variants);
            out.append("]");
            out
        },
    }
}

/// A Rust type that can be the value type of an option.
pub trait ConfigType {
    /// The kind that values of this type belong to.
    spec fn kind() -> ValueKindView;

    /// The description of the legal values of this type.
    fn get_variant_names() -> (names: String)
        ensures
            names@ == kind_description(Self::kind()),
    ;
}

impl ConfigType for bool {
    open spec fn kind() -> ValueKindView {
        ValueKindView::Boolean
    }

    fn get_variant_names() -> (names: String) {
        String::from_str("<boolean>")
    }
}

impl ConfigType for usize {
    open spec fn kind() -> ValueKindView {
        ValueKindView::UnsignedInteger
    }

    fn get_variant_names() -> (names: String) {
        String::from_str("<unsigned integer>")
    }
}

impl ConfigType for String {
    open spec fn kind() -> ValueKindView {
        ValueKindView::Text
    }

    fn get_variant_names() -> (names: String) {
        String::from_str("<string>")
    }
}

/// The position of the first name at or after `start` that matches `raw`
/// up to ASCII case.
pub open spec fn first_match_from(names: Seq<Seq<char>>, raw: Seq<char>, start: nat) -> Option<nat>
    decreases names.len() - start,
{
    if start >= names.len() {
        None
    } else if matches_ignoring_ascii_case(names[start as int], raw) {
        Some(start)
    } else {
        first_match_from(names, raw, start + 1)
    }
}

/// The position of the first declared name that matches `raw` up to ASCII
/// case, if any does.
pub open spec fn first_match(names: Seq<Seq<char>>, raw: Seq<char>) -> Option<nat> {
    first_match_from(names, raw, 0)
}

/// Decodes `raw` as one of the choices of `enumeration`: the first declared
/// name equal to `raw` up to ASCII case wins.
pub fn decode_enum_value(enumeration: &Enumeration, raw: &str) -> (decoded: Result<
    usize,
    DecodeError,
>)
    ensures
        match decoded {
            Ok(position) => first_match(enumeration@, raw@) == Some(position as nat),
            Err(error) => error == DecodeError::UnknownVariant && first_match(enumeration@, raw@)
                is None,
        },
{
    let names = &enumeration.variants;
    let mut i: usize = 0;
    while i < names.len()
        invariant
            i <= names.len(),
            names == &enumeration.variants,
            first_match(enumeration@, raw@) == first_match_from(enumeration@, raw@, i as nat),
        decreases names.len() - i,
    {
        if eq_ignore_ascii_case(names[i].as_str(), raw) {
            return Ok(i);
        }
        i = i + 1;
    }
    Err(DecodeError::UnknownVariant)
}

/// What `first_match` picks: a matching name with no matching name before
/// it; and it picks nothing exactly when no name matches.
pub proof fn first_match_is_first(names: Seq<Seq<char>>, raw: Seq<char>)
    ensures
        match first_match(names, raw) {
            Some(position) => {
                &&& position < names.len()
                &&& matches_ignoring_ascii_case(names[position as int], raw)
                &&& forall|j: int|
                    0 <= j < position ==> !matches_ignoring_ascii_case(#[trigger] names[j], raw)
            },
            None => forall|j: int|
                0 <= j < names.len() ==> !matches_ignoring_ascii_case(#[trigger] names[j], raw),
        },
{
    first_match_from_is_first(names, raw, 0);
}

proof fn first_match_from_is_first(names: Seq<Seq<char>>, raw: Seq<char>, start: nat)
    ensures
        match first_match_from(names, raw, start) {
            Some(position) => {
                &&& start <= position < names.len()
                &&& matches_ignoring_ascii_case(names[position as int], raw)
                &&& forall|j: int|
                    start <= j < position ==> !matches_ignoring_ascii_case(#[trigger] names[j], raw)
            },
            None => forall|j: int|
                start <= j < names.len() ==> !matches_ignoring_ascii_case(
                    #[trigger] names[j],
                    raw,
                ),
        },
    decreases names.len() - start,
{
    if start < names.len() && !matches_ignoring_ascii_case(names[start as int], raw) {
        first_match_from_is_first(names, raw, start + 1);
    }
}

/// Every declared name decodes: to the first variant whose name matches it
/// up to ASCII case, which is its own variant or an earlier one.
pub proof fn declared_name_decodes(names: Seq<Seq<char>>, position: nat)
    requires
        position < names.len(),
    ensures
        first_match(names, names[position as int]) matches Some(found) && found <= position
            && matches_ignoring_ascii_case(names[found as int], names[position as int]),
{
    let name = names[position as int];
    first_match_is_first(names, name);
}

/// Decoding is case-insensitive and finds every declared name: a text that
/// matches the name at `position` up to ASCII case decodes to `position`,
/// provided no earlier name matches that name as well. In particular each
/// declared name decodes to its own position.
pub proof fn matching_text_decodes_to_variant(
    names: Seq<Seq<char>>,
    position: nat,
    raw: Seq<char>,
)
    requires
        position < names.len(),
        matches_ignoring_ascii_case(names[position as int], raw),
        forall|j: int|
            0 <= j < position ==> !matches_ignoring_ascii_case(
                #[trigger] names[j],
                names[position as int],
            ),
    ensures
        first_match(names, raw) == Some(position),
        first_match(names, names[position as int]) == Some(position),
{
    let name = names[position as int];
    first_match_is_first(names, raw);
    first_match_is_first(names, name);
}

} // verus!
