use rustw_config::docs::push_block;
use rustw_config::text::{push_alternatives, push_debug, push_decimal, push_spaces};
use rustw_config::{Config, Enumeration, OptionDecl, OptionValue, Schema, ValueKind};

fn decimal(n: usize) -> String {
    let mut out = String::new();
    push_decimal(&mut out, n);
    out
}

#[test]
fn the_tool_documents_every_option() {
    let expected = [
        "      build_command <string> Default: \"cargo build\"\n",
        "                    command to call to build\n",
        "\n",
        "       edit_command <string> Default: \"\"\n",
        "                    command to call to edit; can use $file, $line, and $col.\n",
        "\n",
        "               port <unsigned integer> Default: 7878\n",
        "                    port to run rustw on\n",
        "\n",
        "          demo_mode <boolean> Default: false\n",
        "                    run in demo mode\n",
        "\n",
        "demo_mode_root_path <string> Default: \"\"\n",
        "                    path to use in URLs in demo mode\n",
        "\n",
        "      context_lines <unsigned integer> Default: 2\n",
        "                    lines of context to show before and after code snippets\n",
        "\n",
        "      build_on_load <boolean> Default: true\n",
        "                    build on page load and refresh\n",
        "\n",
        "   source_directory <string> Default: \"src\"\n",
        "                    root of the source directory\n",
        "\n",
        "      save_analysis <boolean> Default: false\n",
        "                    whether to run the save_analysis pass\n",
        "\n",
    ]
    .concat();
    assert_eq!(Config::render_documentation(), expected);
    assert_eq!(Config::schema().render_documentation(), expected);
}

#[test]
fn the_page_starts_with_its_title() {
    let page = Config::schema().render_documentation_page();
    let body = Config::schema().render_documentation();
    assert_eq!(page, format!("Configuration Options:\n{}", body));
}

#[test]
fn a_schema_without_options_has_no_documentation() {
    let schema = Schema::new(vec![]).unwrap();
    assert_eq!(schema.render_documentation(), "");
    assert_eq!(schema.render_documentation_page(), "Configuration Options:\n");
    assert_eq!(schema.name_width(), 0);
}

#[test]
fn names_are_aligned_on_the_longest() {
    let schema = Schema::new(vec![
        OptionDecl::flag("a", true, "first"),
        OptionDecl::number("long_name", 10, "second"),
    ])
    .unwrap();
    assert_eq!(schema.name_width(), 9);
    let expected = "        a <boolean> Default: true\n          first\n\n\
                    long_name <unsigned integer> Default: 10\n          second\n\n";
    assert_eq!(schema.render_documentation(), expected);
}

#[test]
fn a_choice_shows_its_names_and_its_default_by_name() {
    let colours = Enumeration { variants: vec!["Auto".to_string(), "Always".to_string(), "Never".to_string()] };
    let schema = Schema::new(vec![OptionDecl::choice("colour", colours, 2, "when to colour")]).unwrap();
    let expected = "colour [Auto|Always|Never] Default: Never\n       when to colour\n\n";
    assert_eq!(schema.render_documentation(), expected);
}

#[test]
fn a_text_default_is_shown_quoted_and_escaped() {
    let schema = Schema::new(vec![OptionDecl::text("greeting", "say \"hi\"\n\\o/", "what to say")]).unwrap();
    let expected = "greeting <string> Default: \"say \\\"hi\\\"\\n\\\\o/\"\n         what to say\n\n";
    assert_eq!(schema.render_documentation(), expected);
}

#[test]
fn every_line_of_help_is_shown_indented() {
    let mut option = OptionDecl::number("depth", 3, "how deep to go");
    option.help.push("zero means no limit".to_string());
    option.help.push("".to_string());
    let schema = Schema::new(vec![option]).unwrap();
    let expected = "depth <unsigned integer> Default: 3\n      how deep to go\n      zero means no limit\n      \n\n";
    assert_eq!(schema.render_documentation(), expected);
}

#[test]
fn an_option_without_help_is_a_heading_and_a_blank_line() {
    let option = OptionDecl {
        name: "bare".to_string(),
        kind: ValueKind::Boolean,
        default: OptionValue::Boolean(false),
        help: vec![],
    };
    let schema = Schema::new(vec![option]).unwrap();
    assert_eq!(schema.render_documentation(), "bare <boolean> Default: false\n\n");
}

#[test]
fn a_block_is_laid_out_from_its_texts() {
    let mut out = String::from("before|");
    let help = vec!["one".to_string(), "two".to_string()];
    push_block(&mut out, "port", "<kind>", "80", &help, 6);
    assert_eq!(out, "before|  port <kind> Default: 80\n       one\n       two\n\n");
}

#[test]
fn a_name_wider_than_the_column_is_not_cut() {
    let mut out = String::new();
    push_block(&mut out, "wide_name", "<kind>", "x", &vec!["help".to_string()], 4);
    assert_eq!(out, "wide_name <kind> Default: x\n     help\n\n");
    let mut out = String::new();
    push_block(&mut out, "n", "", "", &vec![], 0);
    assert_eq!(out, "n  Default: \n\n");
}

#[test]
fn the_column_is_measured_in_characters() {
    let schema = Schema::new(vec![
        OptionDecl::flag("é", true, "short"),
        OptionDecl::flag("abc", true, "long"),
    ])
    .unwrap();
    assert_eq!(schema.name_width(), 3);
    let expected = "  é <boolean> Default: true\n    short\n\nabc <boolean> Default: true\n    long\n\n";
    assert_eq!(schema.render_documentation(), expected);
}

#[test]
fn numerals_are_decimal_without_leading_zeros() {
    assert_eq!(decimal(0), "0");
    assert_eq!(decimal(7), "7");
    assert_eq!(decimal(9), "9");
    assert_eq!(decimal(10), "10");
    assert_eq!(decimal(109), "109");
    assert_eq!(decimal(7878), "7878");
    assert_eq!(decimal(1234567890), "1234567890");
    assert_eq!(decimal(usize::MAX), format!("{}", usize::MAX));
}

#[test]
fn numerals_are_appended() {
    let mut out = String::from("port ");
    push_decimal(&mut out, 80);
    push_decimal(&mut out, 0);
    assert_eq!(out, "port 800");
}

#[test]
fn blanks_are_appended() {
    let mut out = String::from("x");
    push_spaces(&mut out, 3);
    push_spaces(&mut out, 0);
    out.push('y');
    assert_eq!(out, "x   y");
}

#[test]
fn alternatives_are_separated_by_bars() {
    let mut out = String::from("<");
    push_alternatives(&mut out, &vec!["a".to_string(), "".to_string(), "c".to_string()]);
    assert_eq!(out, "<a||c");
    let mut out = String::new();
    push_alternatives(&mut out, &vec![]);
    assert_eq!(out, "");
}

#[test]
fn debug_text_is_quoted_and_escaped() {
    let mut out = String::from("=");
    push_debug(&mut out, "cargo build");
    assert_eq!(out, "=\"cargo build\"");
    let mut out = String::new();
    push_debug(&mut out, "");
    assert_eq!(out, "\"\"");
    let mut out = String::new();
    push_debug(&mut out, "a\tb'c\"");
    assert_eq!(out, "\"a\\tb'c\\\"\"");
}

#[test]
fn values_are_shown_by_kind() {
    let colours = ValueKind::Choice(Enumeration { variants: vec!["Auto".to_string(), "Never".to_string()] });
    let mut out = String::new();
    OptionValue::Boolean(true).push_text(&ValueKind::Boolean, &mut out);
    out.push(' ');
    OptionValue::Boolean(false).push_text(&ValueKind::Boolean, &mut out);
    out.push(' ');
    OptionValue::UnsignedInteger(42).push_text(&ValueKind::UnsignedInteger, &mut out);
    out.push(' ');
    OptionValue::Text("t".to_string()).push_text(&ValueKind::Text, &mut out);
    out.push(' ');
    OptionValue::Choice(1).push_text(&colours, &mut out);
    assert_eq!(out, "true false 42 \"t\" Never");
}
