use markdown_ppp::ast::Alignment;
use markdown_ppp::latex_printer::config::{CodeBlockStyle, Config, TableStyle};
use markdown_ppp::latex_printer::table::create_column_spec;
use markdown_ppp::latex_printer::util::escape_latex;

#[test]
fn test_escape_latex() {
    assert_eq!(escape_latex("hello"), "hello");
    assert_eq!(escape_latex("$100"), r"\$100");
    assert_eq!(escape_latex("A & B"), r"A \& B");
    assert_eq!(escape_latex("50%"), r"50\%");
    assert_eq!(escape_latex("#hashtag"), r"\#hashtag");
    assert_eq!(escape_latex("x^2"), r"x\textasciicircum{}2");
    assert_eq!(escape_latex("file_name"), r"file\_name");
    assert_eq!(escape_latex("~home"), r"\textasciitilde{}home");
    assert_eq!(escape_latex("{code}"), r"\{code\}");
    assert_eq!(escape_latex(r"\command"), r"\textbackslash{}command");
}

#[test]
fn test_config_equality() {
    let config1 = Config::default()
        .with_width(80)
        .with_table_style(TableStyle::Tabular)
        .with_code_block_style(CodeBlockStyle::Verbatim);

    let _config2 = Config::default()
        .with_width(80)
        .with_table_style(TableStyle::Tabular)
        .with_code_block_style(CodeBlockStyle::Verbatim);

    let config3 = Config::default()
        .with_width(100)
        .with_table_style(TableStyle::Tabular)
        .with_code_block_style(CodeBlockStyle::Verbatim);

    // Same configurations should be equal (if we implement PartialEq)
    // Different configurations should not be equal
    assert_ne!(config1.width, config3.width);
}

#[test]
fn escape_latex_of_nothing_is_nothing() {
    assert_eq!(escape_latex(""), "");
}

#[test]
fn escape_latex_keeps_other_characters() {
    assert_eq!(escape_latex("αβγ 中文 é!"), "αβγ 中文 é!");
}

#[test]
fn escape_latex_goes_piece_by_piece() {
    let a = "a_b";
    let b = "{c}~";
    let whole = format!("{a}{b}");
    assert_eq!(
        escape_latex(&whole),
        format!("{}{}", escape_latex(a), escape_latex(b))
    );
}

#[test]
fn config_default_values() {
    let config = Config::default();
    assert_eq!(config.width, 80);
    assert_eq!(config.table_style, TableStyle::Tabular);
    assert_eq!(config.code_block_style, CodeBlockStyle::Verbatim);
}

#[test]
fn config_builders_change_one_field() {
    let config = Config::default().with_width(120);
    assert_eq!(config.width, 120);
    assert_eq!(config.table_style, TableStyle::Tabular);
    let config = config.with_table_style(TableStyle::Booktabs);
    assert_eq!(config.width, 120);
    assert_eq!(config.table_style, TableStyle::Booktabs);
    assert_eq!(config.code_block_style, CodeBlockStyle::Verbatim);
    let config = config.with_code_block_style(CodeBlockStyle::Minted);
    assert_eq!(config.table_style, TableStyle::Booktabs);
    assert_eq!(config.code_block_style, CodeBlockStyle::Minted);
}

#[test]
fn column_spec_letters() {
    let spec = create_column_spec(&vec![
        Alignment::Left,
        Alignment::Unset,
        Alignment::Center,
        Alignment::Right,
    ]);
    assert_eq!(spec, "llcr");
    assert_eq!(create_column_spec(&vec![]), "");
}
