//! The options of the tool itself: their schema, and the typed record that
//! the rest of the tool reads.

use crate::docs::documentation;
use crate::error::ParseError;
use crate::load::loaded;
use crate::record::Record;
use crate::schema::{
    default_values, flag_option, number_option, record_conforms, text_option, well_formed,
    OptionDecl, OptionDeclView, Schema,
};
use crate::value::{OptionValue, OptionValueView};
use vstd::prelude::*;
use vstd::string::*;

verus! {

/// The options of the tool, in declaration order.
pub open spec fn tool_options() -> Seq<OptionDeclView> {
    seq![
        text_option("build_command"@, "cargo build"@, "command to call to build"@),
        text_option(
            "edit_command"@,
            ""@,
            "command to call to edit; can use $file, $line, and $col."@,
        ),
        number_option("port"@, 7878, "port to run rustw on"@),
        flag_option("demo_mode"@, false, "run in demo mode"@),
        text_option("demo_mode_root_path"@, ""@, "path to use in URLs in demo mode"@),
        number_option(
            "context_lines"@,
            2,
            "lines of context to show before and after code snippets"@,
        ),
        flag_option("build_on_load"@, true, "build on page load and refresh"@),
        text_option("source_directory"@, "src"@, "root of the source directory"@),
        flag_option("save_analysis"@, false, "whether to run the save_analysis pass"@),
    ]
}

/// The tool's configuration: one typed field per option of the tool.
#[derive(Clone, Debug, PartialEq, Eq)]
pub struct Config {
    pub build_command: String,
    pub edit_command: String,
    pub port: usize,
    pub demo_mode: bool,
    pub demo_mode_root_path: String,
    pub context_lines: usize,
    pub build_on_load: bool,
    pub source_directory: String,
    pub save_analysis: bool,
}

/// Mathematical model of a [`Config`].
pub struct ConfigView {
    pub build_command: Seq<char>,
    pub edit_command: Seq<char>,
    pub port: nat,
    pub demo_mode: bool,
    pub demo_mode_root_path: Seq<char>,
    pub context_lines: nat,
    pub build_on_load: bool,
    pub source_directory: Seq<char>,
    pub save_analysis: bool,
}

impl View for Config {
    type V = ConfigView;

    open spec fn view(&self) -> ConfigView {
        ConfigView {
            build_command: self.build_command@,
            edit_command: self.edit_command@,
            port: self.port as nat,
            demo_mode: self.demo_mode,
            demo_mode_root_path: self.demo_mode_root_path@,
            context_lines: self.context_lines as nat,
            build_on_load: self.build_on_load,
            source_directory: self.source_directory@,
            save_analysis: self.save_analysis,
        }
    }
}

/// The record that holds the fields of `config`, in declaration order.
pub open spec fn record_of(config: ConfigView) -> Seq<OptionValueView> {
    seq![
        OptionValueView::Text(config.build_command),
        OptionValueView::Text(config.edit_command),
        OptionValueView::UnsignedInteger(config.port),
        OptionValueView::Boolean(config.demo_mode),
        OptionValueView::Text(config.demo_mode_root_path),
        OptionValueView::UnsignedInteger(config.context_lines),
        OptionValueView::Boolean(config.build_on_load),
        OptionValueView::Text(config.source_directory),
        OptionValueView::Boolean(config.save_analysis),
    ]
}

/// The configuration in which every option has its declared default.
pub open spec fn tool_defaults() -> ConfigView {
    ConfigView {
        build_command: "cargo build"@,
        edit_command: ""@,
        port: 7878,
        demo_mode: false,
        demo_mode_root_path: ""@,
        context_lines: 2,
        build_on_load: true,
        source_directory: "src"@,
        save_analysis: false,
    }
}

/// The tool's options form a schema, and the defaults they declare are the
/// fields of `tool_defaults`.
pub proof fn tool_options_are_a_schema()
    ensures
        well_formed(tool_options()),
        default_values(tool_options()) == record_of(tool_defaults()),
{
    reveal_strlit("build_command");
    reveal_strlit("edit_command");
    reveal_strlit("port");
    reveal_strlit("demo_mode");
    reveal_strlit("demo_mode_root_path");
    reveal_strlit("context_lines");
    reveal_strlit("build_on_load");
    reveal_strlit("source_directory");
    reveal_strlit("save_analysis");
    let options = tool_options();
    assert forall|i: int, j: int| 0 <= i < j < options.len() implies (#[trigger] options[i]).name
        != (#[trigger] options[j]).name by {
        let a = options[i].name;
        let b = options[j].name;
        if a.len() == b.len() {
            assert(a[0] != b[0] || a[1] != b[1] || a[6] != b[6]);
        }
    }
}

fn text_at(record: &Record, position: usize) -> (text: Option<String>)
    ensures
        match text {
            Some(text) => position < record@.len() && record@[position as int]
                == OptionValueView::Text(text@),
            None => !(position < record@.len() && record@[position as int] is Text),
        },
{
    if position < record.values.len() {
        match &record.values[position] {
            OptionValue::Text(text) => Some(text.clone()),
            _ => None,
        }
    } else {
        None
    }
}

fn number_at(record: &Record, position: usize) -> (number: Option<usize>)
    ensures
        match number {
            Some(number) => position < record@.len() && record@[position as int]
                == OptionValueView::UnsignedInteger(number as nat),
            None => !(position < record@.len() && record@[position as int] is UnsignedInteger),
        },
{
    if position < record.values.len() {
        match &record.values[position] {
            OptionValue::UnsignedInteger(number) => Some(*number),
            _ => None,
        }
    } else {
        None
    }
}

fn flag_at(record: &Record, position: usize) -> (flag: Option<bool>)
    ensures
        match flag {
            Some(flag) => position < record@.len() && record@[position as int]
                == OptionValueView::Boolean(flag),
            None => !(position < record@.len() && record@[position as int] is Boolean),
        },
{
    if position < record.values.len() {
        match &record.values[position] {
            OptionValue::Boolean(flag) => Some(*flag),
            _ => None,
        }
    } else {
        None
    }
}

impl Config {
    /// The schema of the tool's options.
    pub fn schema() -> (schema: Schema)
        ensures
            schema@ == tool_options(),
    {
        let mut options: Vec<OptionDecl> = Vec::new();
        options.push(OptionDecl::text("build_command", "cargo build", "command to call to build"));
        options.push(
            OptionDecl::text(
                "edit_command",
                "",
                "command to call to edit; can use $file, $line, and $col.",
            ),
        );
        options.push(OptionDecl::number("port", 7878, "port to run rustw on"));
        options.push(OptionDecl::flag("demo_mode", false, "run in demo mode"));
        options.push(
            OptionDecl::text("demo_mode_root_path", "", "path to use in URLs in demo mode"),
        );
        options.push(
            OptionDecl::number(
                "context_lines",
                2,
                "lines of context to show before and after code snippets",
            ),
        );
        options.push(OptionDecl::flag("build_on_load", true, "build on page load and refresh"));
        options.push(OptionDecl::text("source_directory", "src", "root of the source directory"));
        options.push(
            OptionDecl::flag("save_analysis", false, "whether to run the save_analysis pass"),
        );
        proof {
            tool_options_are_a_schema();
        }
        Schema::from_well_formed(options)
    }

    /// The typed form of a record of the tool's schema; `None` for a record
    /// that is not one.
    pub fn from_record(record: &Record) -> (config: Option<Config>)
        ensures
            match config {
                Some(config) => record@ == record_of(config@),
                None => !record_conforms(tool_options(), record@),
            },
    {
        if record.values.len() != 9 {
            return None;
        }
        let build_command = text_at(record, 0);
        let edit_command = text_at(record, 1);
        let port = number_at(record, 2);
        let demo_mode = flag_at(record, 3);
        let demo_mode_root_path = text_at(record, 4);
        let context_lines = number_at(record, 5);
        let build_on_load = flag_at(record, 6);
        let source_directory = text_at(record, 7);
        let save_analysis = flag_at(record, 8);
        match (
            build_command,
            edit_command,
            port,
            demo_mode,
            demo_mode_root_path,
            context_lines,
            build_on_load,
            source_directory,
            save_analysis,
        ) {
            (
                Some(build_command),
                Some(edit_command),
                Some(port),
                Some(demo_mode),
                Some(demo_mode_root_path),
                Some(context_lines),
                Some(build_on_load),
                Some(source_directory),
                Some(save_analysis),
            ) => Some(
                Config {
                    build_command,
                    edit_command,
                    port,
                    demo_mode,
                    demo_mode_root_path,
                    context_lines,
                    build_on_load,
                    source_directory,
                    save_analysis,
                },
            ),
            _ => None,
        }
    }

    /// The record that holds the fields of this configuration.
    pub fn to_record(&self) -> (record: Record)
        ensures
            record@ == record_of(self@),
            record_conforms(tool_options(), record@),
    {
        let mut values: Vec<OptionValue> = Vec::new();
        values.push(OptionValue::Text(self.build_command.clone()));
        values.push(OptionValue::Text(self.edit_command.clone()));
        values.push(OptionValue::UnsignedInteger(self.port));
        values.push(OptionValue::Boolean(self.demo_mode));
        values.push(OptionValue::Text(self.demo_mode_root_path.clone()));
        values.push(OptionValue::UnsignedInteger(self.context_lines));
        values.push(OptionValue::Boolean(self.build_on_load));
        values.push(OptionValue::Text(self.source_directory.clone()));
        values.push(OptionValue::Boolean(self.save_analysis));
        let record = Record { values };
        proof {
            record_of_conforms(self@);
        }
        record
    }

    /// Loads the tool's configuration from document text: every option the
    /// document gives takes the document's value, every other option its
    /// default.
    pub fn from_toml(text: &str) -> (outcome: Result<Config, ParseError>)
        ensures
            match outcome {
                Ok(config) => loaded(tool_options(), text@) == Ok::<
                    Seq<OptionValueView>,
                    ParseError,
                >(record_of(config@)),
                Err(error) => loaded(tool_options(), text@) == Err::<
                    Seq<OptionValueView>,
                    ParseError,
                >(error),
            },
    {
        match Config::schema().load(text) {
            Err(error) => Err(error),
            Ok(record) => Ok(Config::from_record(&record).unwrap()),
        }
    }

    /// Renders the documentation of the tool's options.
    pub fn render_documentation() -> (text: String)
        ensures
            text@ == documentation(tool_options()),
    {
        Config::schema().render_documentation()
    }
}

/// The record of any configuration is a record of the tool's schema.
pub proof fn record_of_conforms(config: ConfigView)
    ensures
        record_conforms(tool_options(), record_of(config)),
{
}

impl Default for Config {
    /// The configuration in which every option has its declared default.
    fn default() -> (config: Config)
        ensures
            config@ == tool_defaults(),
    {
        Config {
            build_command: String::from_str("cargo build"),
            edit_command: String::from_str(""),
            port: 7878,
            demo_mode: false,
            demo_mode_root_path: String::from_str(""),
            context_lines: 2,
            build_on_load: true,
            source_directory: String::from_str("src"),
            save_analysis: false,
        }
    }
}

} // verus!
