//! Documentation rendered from a schema: one block per option, in
//! declaration order.

use crate::kind::{describe_kind, kind_description};
use crate::schema::{well_formed, OptionDeclView, Schema};
use crate::text::{push_spaces, spaces};
use crate::value::value_text;
use vstd::prelude::*;
use vstd::string::*;

verus! {

/// The width of the name column: the length of the longest option name.
pub open spec fn name_width(options: Seq<OptionDeclView>) -> nat
    decreases options.len(),
{
    if options.len() == 0 {
        0
    } else {
        let before = name_width(options.drop_last());
        if options.last().name.len() > before {
            options.last().name.len()
        } else {
            before
        }
    }
}

/// The first line of a block: the name, right-aligned in a column of
/// `width` characters, a blank, the description of the legal values, the
/// word `Default:` and the default, then a line break.
pub open spec fn heading_line(
    name: Seq<char>,
    kind: Seq<char>,
    default: Seq<char>,
    width: nat,
) -> Seq<char> {
    let padding: nat = if width >= name.len() {
        (width - name.len()) as nat
    } else {
        0
    };
    spaces(padding) + name + seq![' '] + kind + " Default: "@ + default + seq!['\n']
}

/// One line of help, indented to stand beneath the legal values.
pub open spec fn help_line(line: Seq<char>, width: nat) -> Seq<char> {
    spaces(width + 1) + line + seq!['\n']
}

/// The lines of help, in order.
pub open spec fn help_lines(help: Seq<Seq<char>>, width: nat) -> Seq<char>
    decreases help.len(),
{
    if help.len() == 0 {
        Seq::empty()
    } else {
        help_lines(help.drop_last(), width) + help_line(help.last(), width)
    }
}

/// The block of one option: its heading line, its lines of help, and a
/// blank line.
pub open spec fn block_layout(
    name: Seq<char>,
    kind: Seq<char>,
    default: Seq<char>,
    help: Seq<Seq<char>>,
    width: nat,
) -> Seq<char> {
    heading_line(name, kind, default, width) + help_lines(help, width) + seq!['\n']
}

/// The block of a declared option.
pub open spec fn option_block(option: OptionDeclView, width: nat) -> Seq<char> {
    block_layout(
        option.name,
        kind_description(option.kind),
        value_text(option.kind, option.default),
        option.help,
        width,
    )
}

/// The blocks of `options`, in order.
pub open spec fn option_blocks(options: Seq<OptionDeclView>, width: nat) -> Seq<char>
    decreases options.len(),
{
    if options.len() == 0 {
        Seq::empty()
    } else {
        option_blocks(options.drop_last(), width) + option_block(options.last(), width)
    }
}

/// The documentation of a schema: the block of every option, in
/// declaration order, with the names aligned on the longest of them.
pub open spec fn documentation(options: Seq<OptionDeclView>) -> Seq<char> {
    option_blocks(options, name_width(options))
}

/// The documentation under its title line.
pub open spec fn documentation_page(options: Seq<OptionDeclView>) -> Seq<char> {
    "Configuration Options:"@ + seq!['\n'] + documentation(options)
}

/// Appends the block of one option to `out`, from the texts that make it
/// up.
pub fn push_block(
    out: &mut String,
    name: &str,
    kind: &str,
    default: &str,
    help: &Vec<String>,
    width: usize,
)
    ensures
        final(out)@ == old(out)@ + block_layout(
            name@,
            kind@,
            default@,
            help.deep_view(),
            width as nat,
        ),
{
    proof {
        reveal_strlit(" ");
        reveal_strlit("\n");
    }
    let ghost lines = help.deep_view();
    let length = name.unicode_len();
    let padding = if width >= length {
        width - length
    } else {
        0
    };
    push_spaces(out, padding);
    out.append(name);
    out.append(" ");
    out.append(kind);
    out.append(" Default: ");
    out.append(default);
    out.append("\n");
    let ghost after_heading = out@;
    let mut i: usize = 0;
    while i < help.len()
        invariant
            i <= help.len(),
            lines == help.deep_view(),
            " "@ == seq![' '],
            "\n"@ == seq!['\n'],
            out@ == after_heading + help_lines(lines.take(i as int), width as nat),
        decreases help.len() - i,
    {
        push_spaces(out, width);
        out.append(" ");
        out.append(help[i].as_str());
        out.append("\n");
        assert(lines.take(i + 1).drop_last() =~= lines.take(i as int));
        i = i + 1;
    }
    out.append("\n");
    assert(lines.take(help.len() as int) =~= lines);
}

impl Schema {
    /// The length of the longest option name.
    pub fn name_width(&self) -> (width: usize)
        ensures
            width == name_width(self@),
    {
        let options = self.options();
        let mut width: usize = 0;
        let mut i: usize = 0;
        while i < options.len()
            invariant
                i <= options.len(),
                options.deep_view() == self@,
                width == name_width(self@.take(i as int)),
            decreases options.len() - i,
        {
            let length = options[i].name.as_str().unicode_len();
            if length > width {
                width = length;
            }
            assert(self@.take(i + 1).drop_last() =~= self@.take(i as int));
            i = i + 1;
        }
        assert(self@.take(options.len() as int) =~= self@);
        width
    }

    /// Renders the documentation of every option: for each, in declaration
    /// order, its name aligned on the longest name, the description of its
    /// legal values, its default, its lines of help, and a blank line.
    pub fn render_documentation(&self) -> (text: String)
        ensures
            text@ == documentation(self@),
    {
        let options = self.options();
        let width = self.name_width();
        let mut out = String::new();
        let mut i: usize = 0;
        while i < options.len()
            invariant
                i <= options.len(),
                options.deep_view() == self@,
                well_formed(self@),
                out@ == option_blocks(self@.take(i as int), width as nat),
            decreases options.len() - i,
        {
            let option = &options[i];
            let kind = describe_kind(&option.kind);
            let mut default = String::new();
            assert(self@[i as int] == option@);
            option.default.push_text(&option.kind, &mut default);
            push_block(
                &mut out,
                option.name.as_str(),
                kind.as_str(),
                default.as_str(),
                &option.help,
                width,
            );
            assert(self@.take(i + 1).drop_last() =~= self@.take(i as int));
            i = i + 1;
        }
        assert(self@.take(options.len() as int) =~= self@);
        out
    }

    /// Renders the documentation under the title line `Configuration
    /// Options:`.
    pub fn render_documentation_page(&self) -> (text: String)
        ensures
            text@ == documentation_page(self@),
    {
        proof {
            reveal_strlit("\n");
        }
        let mut out = String::from_str("Configuration Options:");
        out.append("\n");
        let body = self.render_documentation();
        out.append(body.as_str());
        out
    }
}

} // verus!
