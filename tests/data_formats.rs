use dev_utils::data_formats::{indent_width, DataConverterFormatterPage};

#[test]
fn indent_widths_offered() {
    assert_eq!(indent_width(0), 2);
    assert_eq!(indent_width(1), 4);
    assert_eq!(indent_width(2), 8);
}

#[test]
fn json_is_pretty_printed_with_indent() {
    let mut page = DataConverterFormatterPage::new();
    page.input = "{\"a\":[1,2]}".to_string();
    page.convert_input();
    assert_eq!(page.output, "{\n  \"a\": [\n    1,\n    2\n  ]\n}");
    page.change_indent(1);
    assert_eq!(page.output, "{\n    \"a\": [\n        1,\n        2\n    ]\n}");
}

#[test]
fn unreadable_input_keeps_output() {
    let mut page = DataConverterFormatterPage::new();
    page.input = "{\"a\":1}".to_string();
    page.convert_input();
    let before = page.output.clone();
    page.input = "{not json".to_string();
    page.convert_input();
    assert_eq!(page.output, before);
}

#[test]
fn toml_reads_into_json() {
    let mut page = DataConverterFormatterPage::new();
    page.change_input_format(3);
    page.input = "a = 1\nb = \"x\"\n".to_string();
    page.convert_input();
    assert_eq!(page.output, "{\n  \"a\": 1,\n  \"b\": \"x\"\n}");
}

#[test]
fn json_writes_as_yaml_and_toml() {
    let mut page = DataConverterFormatterPage::new();
    page.input = "{\"a\":1}".to_string();
    page.change_output_format(1);
    assert!(page.output.contains("a: 1"));
    page.change_output_format(3);
    assert_eq!(page.output, "a = 1\n");
}

#[test]
fn yaml_reads_into_json() {
    let mut page = DataConverterFormatterPage::new();
    page.change_input_format(1);
    page.input = "a: 1\n".to_string();
    page.convert_input();
    assert_eq!(page.output, "{\n  \"a\": 1\n}");
}

#[test]
fn json_writes_as_xml_under_root() {
    let mut page = DataConverterFormatterPage::new();
    page.input = "{\"a\":1}".to_string();
    page.change_output_format(2);
    assert!(page.output.starts_with("<root>"));
    assert!(page.output.contains("<a>1</a>"));
}

#[test]
fn top_level_array_keeps_toml_output() {
    let mut page = DataConverterFormatterPage::new();
    page.input = "[1,2]".to_string();
    page.change_output_format(3);
    assert_eq!(page.output, "");
}

#[test]
fn indent_outside_choices_changes_nothing() {
    let mut page = DataConverterFormatterPage::new();
    page.input = "{\"a\":1}".to_string();
    page.convert_input();
    let before = page.output.clone();
    page.change_indent(3);
    assert_eq!(page.selected_indent, 0);
    assert_eq!(page.output, before);
}

#[test]
fn every_input_format_reads_into_each_output() {
    let mut page = DataConverterFormatterPage::new();
    page.change_input_format(2);
    page.input = "<root><a>1</a></root>".to_string();
    page.convert_input();
    assert!(page.output.contains("\"a\""));
    page.change_input_format(1);
    page.input = "a: 1\n".to_string();
    page.change_output_format(1);
    assert!(page.output.contains("a: 1"));
    page.change_output_format(7);
    assert_eq!(page.output, "a = 1\n");
}
