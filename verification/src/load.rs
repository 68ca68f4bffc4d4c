//! From document text to a full record: parse, look up every declared
//! option, decode what was found into an overlay, and merge the overlay
//! onto the defaults.

use crate::document::{document_entries, entry, Document, RawValue, RawValueView};
use crate::error::ParseError;
use crate::kind::{decode_enum_value, first_match, first_match_is_first, ValueKind, ValueKindView};
use crate::record::{empty_overlay, merge, merge_identity, merged, Overlay, Record};
use crate::schema::{default_values, record_conforms, well_formed, OptionDeclView, Schema};
use crate::value::{conforms, OptionValue, OptionValueView};
use vstd::prelude::*;

verus! {

/// The value of kind `kind` that a raw document value stands for.
///
/// A boolean, an unsigned integer and a text are taken from a raw value of
/// the same shape; an integer must be non-negative and fit the machine's
/// `usize`. A choice is taken from a raw text, decoded against the declared
/// names. Any other shape is a type mismatch.
pub open spec fn converted(kind: ValueKindView, raw: RawValueView) -> Result<
    OptionValueView,
    ParseError,
> {
    match kind {
        ValueKindView::Boolean => match raw {
            RawValueView::Boolean(flag) => Ok(OptionValueView::Boolean(flag)),
            _ => Err(ParseError::TypeMismatch),
        },
        ValueKindView::UnsignedInteger => match raw {
            RawValueView::Integer(number) => if 0 <= number <= usize::MAX {
                Ok(OptionValueView::UnsignedInteger(number as nat))
            } else {
                Err(ParseError::TypeMismatch)
            },
            _ => Err(ParseError::TypeMismatch),
        },
        ValueKindView::Text => match raw {
            RawValueView::Text(text) => Ok(OptionValueView::Text(text)),
            _ => Err(ParseError::TypeMismatch),
        },
        ValueKindView::Choice(names) => match raw {
            RawValueView::Text(text) => match first_match(names, text) {
                Some(position) => Ok(OptionValueView::Choice(position)),
                None => Err(ParseError::UnknownVariant),
            },
            _ => Err(ParseError::TypeMismatch),
        },
    }
}

/// One slot of an overlay, from what the document holds under the option's
/// name: nothing stays nothing, a value is converted.
pub open spec fn decoded_slot(kind: ValueKindView, found: Option<RawValueView>) -> Result<
    Option<OptionValueView>,
    ParseError,
> {
    match found {
        None => Ok(None),
        Some(raw) => match converted(kind, raw) {
            Ok(value) => Ok(Some(value)),
            Err(error) => Err(error),
        },
    }
}

/// The `i`-th of `found`, and nothing beyond its end.
pub open spec fn found_at(found: Seq<Option<RawValueView>>, i: int) -> Option<RawValueView> {
    if 0 <= i < found.len() {
        found[i]
    } else {
        None
    }
}

/// The slot of option `i`, decoded from what was found for it.
pub open spec fn slot_at(
    options: Seq<OptionDeclView>,
    found: Seq<Option<RawValueView>>,
    i: int,
) -> Result<Option<OptionValueView>, ParseError> {
    decoded_slot(options[i].kind, found_at(found, i))
}

/// The slots for the options from `start` on, or the error of the first of
/// them that fails to decode.
pub open spec fn decoded_from(
    options: Seq<OptionDeclView>,
    found: Seq<Option<RawValueView>>,
    start: nat,
) -> Result<Seq<Option<OptionValueView>>, ParseError>
    decreases options.len() - start,
{
    if start >= options.len() {
        Ok(Seq::empty())
    } else {
        match slot_at(options, found, start as int) {
            Err(error) => Err(error),
            Ok(slot) => match decoded_from(options, found, start + 1) {
                Err(error) => Err(error),
                Ok(rest) => Ok(seq![slot] + rest),
            },
        }
    }
}

/// The overlay that `found` decodes to, where `found[i]` is what the
/// document holds under the name of option `i`: every slot decoded by its
/// option's kind, or the error of the first option, in declaration order,
/// whose slot fails to decode.
pub open spec fn decoded_overlay(
    options: Seq<OptionDeclView>,
    found: Seq<Option<RawValueView>>,
) -> Result<Seq<Option<OptionValueView>>, ParseError> {
    decoded_from(options, found, 0)
}

/// What a document with the top-level entries `entries` holds under the
/// name of each option.
pub open spec fn lookups(
    options: Seq<OptionDeclView>,
    entries: Map<Seq<char>, RawValueView>,
) -> Seq<Option<RawValueView>> {
    Seq::new(options.len(), |i: int| entry(entries, options[i].name))
}

/// The overlay that a document with the top-level entries `entries` gives.
pub open spec fn overlay_of(
    options: Seq<OptionDeclView>,
    entries: Map<Seq<char>, RawValueView>,
) -> Result<Seq<Option<OptionValueView>>, ParseError> {
    decoded_overlay(options, lookups(options, entries))
}

/// The overlay that the document text `text` gives.
pub open spec fn parsed_overlay(options: Seq<OptionDeclView>, text: Seq<char>) -> Result<
    Seq<Option<OptionValueView>>,
    ParseError,
> {
    match document_entries(text) {
        None => Err(ParseError::MalformedDocument),
        Some(entries) => overlay_of(options, entries),
    }
}

/// The record that the document text `text` gives: its overlay merged onto
/// the defaults.
pub open spec fn loaded(options: Seq<OptionDeclView>, text: Seq<char>) -> Result<
    Seq<OptionValueView>,
    ParseError,
> {
    match parsed_overlay(options, text) {
        Err(error) => Err(error),
        Ok(overlay) => Ok(merged(default_values(options), overlay)),
    }
}

/// Converts a raw document value to a value of kind `kind`.
pub fn convert_value(kind: &ValueKind, raw: &RawValue) -> (outcome: Result<OptionValue, ParseError>)
    ensures
        match outcome {
            Ok(value) => converted(kind@, raw@) == Ok::<OptionValueView, ParseError>(value@),
            Err(error) => converted(kind@, raw@) == Err::<OptionValueView, ParseError>(error),
        },
{
    match kind {
        ValueKind::Boolean => match raw {
            RawValue::Boolean(flag) => Ok(OptionValue::Boolean(*flag)),
            _ => Err(ParseError::TypeMismatch),
        },
        ValueKind::UnsignedInteger => match raw {
            RawValue::Integer(number) => {
                let number: i64 = *number;
                if number >= 0 && number as u64 <= usize::MAX as u64 {
                    Ok(OptionValue::UnsignedInteger(number as usize))
                } else {
                    Err(ParseError::TypeMismatch)
                }
            },
            _ => Err(ParseError::TypeMismatch),
        },
        ValueKind::Text => match raw {
            RawValue::Text(text) => Ok(OptionValue::Text(text.clone())),
            _ => Err(ParseError::TypeMismatch),
        },
        ValueKind::Choice(enumeration) => match raw {
            RawValue::Text(text) => match decode_enum_value(enumeration, text.as_str()) {
                Ok(position) => Ok(OptionValue::Choice(position)),
                Err(_) => Err(ParseError::UnknownVariant),
            },
            _ => Err(ParseError::TypeMismatch),
        },
    }
}

impl Schema {
    /// What `document` holds under the name of each option, in declaration
    /// order. Keys that no option is named after are never looked at.
    pub fn lookup(&self, document: &Document) -> (found: Vec<Option<RawValue>>)
        ensures
            found.deep_view() == lookups(self@, document@),
    {
        let options = self.options();
        let mut found: Vec<Option<RawValue>> = Vec::new();
        let mut i: usize = 0;
        while i < options.len()
            invariant
                i <= options.len(),
                options.deep_view() == self@,
                found.len() == i,
                forall|k: int|
                    0 <= k < i ==> (#[trigger] found[k]).deep_view() == entry(
                        document@,
                        self@[k].name,
                    ),
            decreases options.len() - i,
        {
            found.push(document.get(options[i].name.as_str()));
            i = i + 1;
        }
        found
    }

    /// Decodes what was found under each option's name into an overlay.
    /// `found[i]` belongs to option `i`; an option beyond the end of
    /// `found` counts as absent.
    pub fn decode_overlay(&self, found: &Vec<Option<RawValue>>) -> (outcome: Result<
        Overlay,
        ParseError,
    >)
        ensures
            match outcome {
                Ok(overlay) => decoded_overlay(self@, found.deep_view()) == Ok::<
                    Seq<Option<OptionValueView>>,
                    ParseError,
                >(overlay@),
                Err(error) => decoded_overlay(self@, found.deep_view()) == Err::<
                    Seq<Option<OptionValueView>>,
                    ParseError,
                >(error),
            },
    {
        let options = self.options();
        let ghost raws = found.deep_view();
        let ghost mut done: Seq<Option<OptionValueView>> = Seq::empty();
        let mut slots: Vec<Option<OptionValue>> = Vec::new();
        let mut i: usize = 0;
        while i < options.len()
            invariant
                i <= options.len(),
                options.deep_view() == self@,
                raws == found.deep_view(),
                slots.len() == i,
                done.len() == i,
                forall|k: int| 0 <= k < i ==> (#[trigger] slots[k]).deep_view() == done[k],
                decoded_overlay(self@, raws) == match decoded_from(self@, raws, i as nat) {
                    Err(error) => Err::<Seq<Option<OptionValueView>>, ParseError>(error),
                    Ok(rest) => Ok(done + rest),
                },
            decreases options.len() - i,
        {
            let slot = if i < found.len() {
                match &found[i] {
                    None => None,
                    Some(raw) => match convert_value(&options[i].kind, raw) {
                        Ok(value) => Some(value),
                        Err(error) => {
                            return Err(error);
                        },
                    },
                }
            } else {
                None
            };
            proof {
                let rest = decoded_from(self@, raws, (i + 1) as nat);
                if rest is Ok {
                    assert(done + (seq![slot.deep_view()] + rest->Ok_0) =~= done.push(
                        slot.deep_view(),
                    ) + rest->Ok_0);
                }
                done = done.push(slot.deep_view());
            }
            slots.push(slot);
            i = i + 1;
        }
        let overlay = Overlay { slots };
        assert(overlay@ =~= done);
        Ok(overlay)
    }

    /// Parses `text` and decodes the overlay it gives.
    ///
    /// Fails with `MalformedDocument` exactly when `text` is not a
    /// well-formed document, and otherwise with the error of the first
    /// declared option whose value does not decode. Keys that no option is
    /// named after are ignored.
    pub fn parse_overlay(&self, text: &str) -> (outcome: Result<Overlay, ParseError>)
        ensures
            match outcome {
                Ok(overlay) => parsed_overlay(self@, text@) == Ok::<
                    Seq<Option<OptionValueView>>,
                    ParseError,
                >(overlay@),
                Err(error) => parsed_overlay(self@, text@) == Err::<
                    Seq<Option<OptionValueView>>,
                    ParseError,
                >(error),
            },
    {
        match Document::parse(text) {
            Err(error) => Err(error),
            Ok(document) => {
                let found = self.lookup(&document);
                self.decode_overlay(&found)
            },
        }
    }

    /// Loads a record from document text: the defaults, overlaid with what
    /// the document says.
    pub fn load(&self, text: &str) -> (outcome: Result<Record, ParseError>)
        ensures
            match outcome {
                Ok(record) => loaded(self@, text@) == Ok::<Seq<OptionValueView>, ParseError>(
                    record@,
                ) && record_conforms(self@, record@),
                Err(error) => loaded(self@, text@) == Err::<Seq<OptionValueView>, ParseError>(
                    error,
                ),
            },
    {
        match self.parse_overlay(text) {
            Err(error) => Err(error),
            Ok(overlay) => {
                let defaults = self.defaults();
                proof {
                    use_type_invariant(self);
                    overlay_conforms(self@, document_entries(text@)->0);
                }
                Ok(merge(defaults, overlay))
            },
        }
    }
}

/// Option `i` is the first from `start` on whose slot fails to decode, and
/// it fails with `error`.
pub open spec fn fails_first(
    options: Seq<OptionDeclView>,
    found: Seq<Option<RawValueView>>,
    start: int,
    i: int,
    error: ParseError,
) -> bool {
    &&& start <= i < options.len()
    &&& slot_at(options, found, i) == Err::<Option<OptionValueView>, ParseError>(error)
    &&& forall|j: int| start <= j < i ==> (#[trigger] slot_at(options, found, j)) is Ok
}

/// Slot by slot, what `decoded_overlay` yields: on success one slot per
/// option, each decoded from what was found for it; on failure the error of
/// the first option whose slot fails to decode.
pub proof fn decoded_overlay_is_slotwise(
    options: Seq<OptionDeclView>,
    found: Seq<Option<RawValueView>>,
)
    ensures
        match decoded_overlay(options, found) {
            Ok(slots) => {
                &&& slots.len() == options.len()
                &&& forall|i: int|
                    0 <= i < options.len() ==> #[trigger] slot_at(options, found, i) == Ok::<
                        Option<OptionValueView>,
                        ParseError,
                    >(slots[i])
            },
            Err(error) => exists|i: int| fails_first(options, found, 0, i, error),
        },
{
    decoded_from_is_slotwise(options, found, 0);
}

proof fn decoded_from_is_slotwise(
    options: Seq<OptionDeclView>,
    found: Seq<Option<RawValueView>>,
    start: nat,
)
    requires
        start <= options.len(),
    ensures
        match decoded_from(options, found, start) {
            Ok(slots) => {
                &&& slots.len() == options.len() - start
                &&& forall|i: int|
                    start <= i < options.len() ==> #[trigger] slot_at(options, found, i) == Ok::<
                        Option<OptionValueView>,
                        ParseError,
                    >(slots[i - start])
            },
            Err(error) => exists|i: int| fails_first(options, found, start as int, i, error),
        },
    decreases options.len() - start,
{
    if start < options.len() {
        decoded_from_is_slotwise(options, found, start + 1);
        match slot_at(options, found, start as int) {
            Err(error) => {
                assert(fails_first(options, found, start as int, start as int, error));
            },
            Ok(slot) => {
                if let Err(error) = decoded_from(options, found, start + 1) {
                    let next = start as int + 1;
                    let i = choose|i: int| fails_first(options, found, next, i, error);
                    assert(fails_first(options, found, start as int, i, error));
                }
            },
        }
    }
}

/// A converted value is a value of the kind it was converted for.
pub proof fn converted_conforms(kind: ValueKindView, raw: RawValueView)
    ensures
        converted(kind, raw) matches Ok(value) ==> conforms(kind, value),
{
    match kind {
        ValueKindView::Choice(names) => {
            if let RawValueView::Text(text) = raw {
                first_match_is_first(names, text);
            }
        },
        _ => {},
    }
}

/// Whatever a document gives, merged onto the defaults of a well-formed
/// schema, is a record of that schema.
pub proof fn overlay_conforms(options: Seq<OptionDeclView>, entries: Map<Seq<char>, RawValueView>)
    requires
        well_formed(options),
    ensures
        overlay_of(options, entries) matches Ok(overlay) ==> record_conforms(
            options,
            merged(default_values(options), overlay),
        ),
{
    let found = lookups(options, entries);
    decoded_overlay_is_slotwise(options, found);
    if let Ok(overlay) = overlay_of(options, entries) {
        let record = merged(default_values(options), overlay);
        assert forall|i: int| 0 <= i < options.len() implies conforms(
            (#[trigger] options[i]).kind,
            record[i],
        ) by {
            assert(slot_at(options, found, i) is Ok);
            if let Some(raw) = found_at(found, i) {
                converted_conforms(options[i].kind, raw);
            }
        }
    }
}

/// A document that has none of the declared options gives the overlay
/// that says nothing, and so loads to the defaults.
pub proof fn document_without_options_gives_defaults(
    options: Seq<OptionDeclView>,
    entries: Map<Seq<char>, RawValueView>,
)
    requires
        forall|i: int|
            0 <= i < options.len() ==> !entries.contains_key((#[trigger] options[i]).name),
    ensures
        overlay_of(options, entries) == Ok::<Seq<Option<OptionValueView>>, ParseError>(
            empty_overlay(options.len()),
        ),
        merged(default_values(options), empty_overlay(options.len())) == default_values(options),
{
    let found = lookups(options, entries);
    decoded_overlay_is_slotwise(options, found);
    if let Ok(slots) = overlay_of(options, entries) {
        assert forall|i: int| 0 <= i < options.len() implies slots[i] is None by {
            assert(slot_at(options, found, i) is Ok);
        }
        assert(slots =~= empty_overlay(options.len()));
    }
    merge_identity(default_values(options), empty_overlay(options.len()));
}

/// A key that no option is named after has no effect: adding it to a
/// document, with any value, leaves the overlay as it was.
pub proof fn unknown_key_is_ignored(
    options: Seq<OptionDeclView>,
    entries: Map<Seq<char>, RawValueView>,
    key: Seq<char>,
    value: RawValueView,
)
    requires
        forall|i: int| 0 <= i < options.len() ==> (#[trigger] options[i]).name != key,
    ensures
        overlay_of(options, entries.insert(key, value)) == overlay_of(options, entries),
{
    assert(lookups(options, entries.insert(key, value)) =~= lookups(options, entries));
}

} // verus!
