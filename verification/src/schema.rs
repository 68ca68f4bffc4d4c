//! Option declarations and the schema they form.

use crate::kind::{Enumeration, ValueKind, ValueKindView};
use crate::record::Record;
use crate::text::same_text;
use crate::value::{conforms, OptionValue, OptionValueView};
use vstd::prelude::*;
use vstd::string::*;

verus! {

/// The declaration of one option: its name, the kind of its values, its
/// default value, and the lines of help shown for it.
#[derive(Clone, Debug, PartialEq, Eq)]
pub struct OptionDecl {
    pub name: String,
    pub kind: ValueKind,
    pub default: OptionValue,
    pub help: Vec<String>,
}

/// Mathematical model of an [`OptionDecl`].
pub struct OptionDeclView {
    pub name: Seq<char>,
    pub kind: ValueKindView,
    pub default: OptionValueView,
    pub help: Seq<Seq<char>>,
}

impl View for OptionDecl {
    type V = OptionDeclView;

    open spec fn view(&self) -> OptionDeclView {
        OptionDeclView {
            name: self.name@,
            kind: self.kind@,
            default: self.default@,
            help: self.help.deep_view(),
        }
    }
}

impl DeepView for OptionDecl {
    type V = OptionDeclView;

    open spec fn deep_view(&self) -> OptionDeclView {
        self@
    }
}

/// The declaration of a text option with one line of help.
pub open spec fn text_option(
    name: Seq<char>,
    default: Seq<char>,
    help: Seq<char>,
) -> OptionDeclView {
    OptionDeclView {
        name,
        kind: ValueKindView::Text,
        default: OptionValueView::Text(default),
        help: seq![help],
    }
}

/// The declaration of an unsigned-integer option with one line of help.
pub open spec fn number_option(name: Seq<char>, default: nat, help: Seq<char>) -> OptionDeclView {
    OptionDeclView {
        name,
        kind: ValueKindView::UnsignedInteger,
        default: OptionValueView::UnsignedInteger(default),
        help: seq![help],
    }
}

/// The declaration of a boolean option with one line of help.
pub open spec fn flag_option(name: Seq<char>, default: bool, help: Seq<char>) -> OptionDeclView {
    OptionDeclView {
        name,
        kind: ValueKindView::Boolean,
        default: OptionValueView::Boolean(default),
        help: seq![help],
    }
}

/// The declaration of an option that takes one of `names`, with one line of
/// help.
pub open spec fn choice_option(
    name: Seq<char>,
    names: Seq<Seq<char>>,
    default: nat,
    help: Seq<char>,
) -> OptionDeclView {
    OptionDeclView {
        name,
        kind: ValueKindView::Choice(names),
        default: OptionValueView::Choice(default),
        help: seq![help],
    }
}

impl OptionDecl {
    /// Declares a text option with one line of help.
    pub fn text(name: &str, default: &str, help: &str) -> (declared: OptionDecl)
        ensures
            declared@ == text_option(name@, default@, help@),
    {
        let mut lines: Vec<String> = Vec::new();
        lines.push(String::from_str(help));
        let declared = OptionDecl {
            name: String::from_str(name),
            kind: ValueKind::Text,
            default: OptionValue::Text(String::from_str(default)),
            help: lines,
        };
        assert(declared@.help =~= seq![help@]);
        declared
    }

    /// Declares an unsigned-integer option with one line of help.
    pub fn number(name: &str, default: usize, help: &str) -> (declared: OptionDecl)
        ensures
            declared@ == number_option(name@, default as nat, help@),
    {
        let mut lines: Vec<String> = Vec::new();
        lines.push(String::from_str(help));
        let declared = OptionDecl {
            name: String::from_str(name),
            kind: ValueKind::UnsignedInteger,
            default: OptionValue::UnsignedInteger(default),
            help: lines,
        };
        assert(declared@.help =~= seq![help@]);
        declared
    }

    /// Declares an option that takes one of the choices of `enumeration`,
    /// with the choice at position `default` as its default and one line of
    /// help.
    pub fn choice(name: &str, enumeration: Enumeration, default: usize, help: &str) -> (declared:
        OptionDecl)
        ensures
            declared@ == choice_option(name@, enumeration@, default as nat, help@),
    {
        let mut lines: Vec<String> = Vec::new();
        lines.push(String::from_str(help));
        let declared = OptionDecl {
            name: String::from_str(name),
            kind: ValueKind::Choice(enumeration),
            default: OptionValue::Choice(default),
            help: lines,
        };
        assert(declared@.help =~= seq![help@]);
        declared
    }

    /// Declares a boolean option with one line of help.
    pub fn flag(name: &str, default: bool, help: &str) -> (declared: OptionDecl)
        ensures
            declared@ == flag_option(name@, default, help@),
    {
        let mut lines: Vec<String> = Vec::new();
        lines.push(String::from_str(help));
        let declared = OptionDecl {
            name: String::from_str(name),
            kind: ValueKind::Boolean,
            default: OptionValue::Boolean(default),
            help: lines,
        };
        assert(declared@.help =~= seq![help@]);
        declared
    }
}

/// No two options share a name.
pub open spec fn names_distinct(options: Seq<OptionDeclView>) -> bool {
    forall|i: int, j: int|
        0 <= i < j < options.len() ==> (#[trigger] options[i]).name != (#[trigger] options[j]).name
}

/// Every default is a value of its option's kind.
pub open spec fn defaults_conform(options: Seq<OptionDeclView>) -> bool {
    forall|i: int|
        0 <= i < options.len() ==> conforms((#[trigger] options[i]).kind, options[i].default)
}

/// What makes a list of declarations a schema.
pub open spec fn well_formed(options: Seq<OptionDeclView>) -> bool {
    names_distinct(options) && defaults_conform(options)
}

/// The record that holds every option's declared default.
pub open spec fn default_values(options: Seq<OptionDeclView>) -> Seq<OptionValueView> {
    Seq::new(options.len(), |i: int| options[i].default)
}

/// Whether `values` holds one value of the right kind for every option.
pub open spec fn record_conforms(
    options: Seq<OptionDeclView>,
    values: Seq<OptionValueView>,
) -> bool {
    &&& values.len() == options.len()
    &&& forall|i: int| 0 <= i < options.len() ==> conforms((#[trigger] options[i]).kind, values[i])
}

/// A well-formed list of option declarations, in declaration order.
#[derive(Debug, PartialEq, Eq)]
pub struct Schema {
    options: Vec<OptionDecl>,
}

impl View for Schema {
    type V = Seq<OptionDeclView>;

    closed spec fn view(&self) -> Seq<OptionDeclView> {
        self.options.deep_view()
    }
}

impl Schema {
    /// Holds of every schema: the names are distinct and every default is
    /// of its option's kind.
    #[verifier::type_invariant]
    pub open spec fn is_well_formed(&self) -> bool {
        well_formed(self@)
    }

    /// Makes a schema of `options`, or `None` where two of them share a
    /// name or a default is not of its option's kind.
    pub fn new(options: Vec<OptionDecl>) -> (made: Option<Schema>)
        ensures
            match made {
                Some(schema) => schema@ == options.deep_view() && well_formed(schema@),
                None => !well_formed(options.deep_view()),
            },
    {
        let ghost decls = options.deep_view();
        let mut j: usize = 0;
        while j < options.len()
            invariant
                j <= options.len(),
                decls == options.deep_view(),
                forall|a: int, b: int|
                    0 <= a < b < j ==> (#[trigger] decls[a]).name != (#[trigger] decls[b]).name,
                forall|a: int|
                    0 <= a < j ==> conforms((#[trigger] decls[a]).kind, decls[a].default),
            decreases options.len() - j,
        {
            if !options[j].default.conforms_to(&options[j].kind) {
                return None;
            }
            let mut i: usize = 0;
            while i < j
                invariant
                    i <= j < options.len(),
                    decls == options.deep_view(),
                    forall|a: int|
                        0 <= a < i ==> (#[trigger] decls[a]).name != decls[j as int].name,
                decreases j - i,
            {
                if options[i].name == options[j].name {
                    assert(decls[i as int].name == decls[j as int].name);
                    return None;
                }
                i = i + 1;
            }
            j = j + 1;
        }
        Some(Schema { options })
    }

    /// Makes a schema of declarations known to be well formed.
    pub(crate) fn from_well_formed(options: Vec<OptionDecl>) -> (schema: Schema)
        requires
            well_formed(options.deep_view()),
        ensures
            schema@ == options.deep_view(),
    {
        Schema { options }
    }

    /// The declarations, in declaration order.
    pub fn options(&self) -> (options: &Vec<OptionDecl>)
        ensures
            options.deep_view() == self@,
            well_formed(self@),
    {
        proof {
            use_type_invariant(self);
        }
        &self.options
    }

    /// The number of declared options.
    pub fn len(&self) -> (len: usize)
        ensures
            len == self@.len(),
    {
        self.options.len()
    }

    /// The position of the option called `name`, if one is declared.
    pub fn index_of(&self, name: &str) -> (found: Option<usize>)
        ensures
            match found {
                Some(position) => position < self@.len() && self@[position as int].name == name@,
                None => forall|i: int| 0 <= i < self@.len() ==> (#[trigger] self@[i]).name != name@,
            },
    {
        let mut i: usize = 0;
        while i < self.options.len()
            invariant
                i <= self.options.len(),
                forall|k: int| 0 <= k < i ==> (#[trigger] self@[k]).name != name@,
            decreases self.options.len() - i,
        {
            if same_text(self.options[i].name.as_str(), name) {
                return Some(i);
            }
            i = i + 1;
        }
        None
    }

    /// The record that holds every option's declared default.
    pub fn defaults(&self) -> (record: Record)
        ensures
            record@ == default_values(self@),
            record_conforms(self@, record@),
    {
        proof {
            use_type_invariant(self);
        }
        let mut values: Vec<OptionValue> = Vec::new();
        let mut i: usize = 0;
        while i < self.options.len()
            invariant
                i <= self.options.len(),
                values.len() == i,
                forall|k: int| 0 <= k < i ==> (#[trigger] values[k])@ == self@[k].default,
            decreases self.options.len() - i,
        {
            values.push(self.options[i].default.clone());
            i = i + 1;
        }
        let record = Record { values };
        record
    }
}

} // verus!
