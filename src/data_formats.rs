//! The data converter and formatter page: a document read as JSON, YAML, XML
//! or TOML and written out again, pretty-printed, in any of the four.

use vstd::prelude::*;

verus! {

/// The text of the document that `s` holds in format `from`, written in
/// format `to` with `indent` spaces per level (formats numbered as for
/// `format_of`); `None` where reading fails, or where writing JSON, YAML or
/// TOML fails. An XML writer that fails gives what it wrote before failing.
pub uninterp spec fn written_document(s: Seq<char>, from: int, to: int, indent: int) -> Option<
    Seq<char>,
>;

/// Reads JSON with `serde_json::from_str` into a `serde_json::Value` and writes it
/// as JSON with serde_json's `PrettyFormatter::with_indent` into a vector.
#[verifier::external_body]
fn json_to_json(s: &str, indent: usize) -> (r: Option<String>)
    ensures
        match r {
            Some(o) => written_document(s@, 0, 0, indent as int) == Some(o@),
            None => written_document(s@, 0, 0, indent as int) is None,
        },
{
    let v: serde_json::Value = serde_json::from_str(s).ok()?;
    let spaces = " ".repeat(indent);
    let formatter = serde_json::ser::PrettyFormatter::with_indent(spaces.as_bytes());
    let mut buf = Vec::new();
    let mut serializer = serde_json::Serializer::with_formatter(&mut buf, formatter);
    serde::Serialize::serialize(&v, &mut serializer).ok()?;
    String::from_utf8(buf).ok()
}

/// Reads JSON with `serde_json::from_str` into a `serde_json::Value` and writes it
/// as YAML with serde_saphyr's `YamlSerializer::with_indent`, which refuses an indent of 0 or over 64.
#[verifier::external_body]
fn json_to_yaml(s: &str, indent: usize) -> (r: Option<String>)
    requires
        1 <= indent <= 64,
    ensures
        match r {
            Some(o) => written_document(s@, 0, 1, indent as int) == Some(o@),
            None => written_document(s@, 0, 1, indent as int) is None,
        },
{
    let v: serde_json::Value = serde_json::from_str(s).ok()?;
    let mut out = String::new();
    let mut serializer = serde_saphyr::ser::YamlSerializer::with_indent(&mut out, indent).ok()?;
    serde::Serialize::serialize(&v, &mut serializer).ok()?;
    Some(out)
}

/// Reads JSON with `serde_json::from_str` into a `serde_json::Value` and writes it
/// as XML with quick_xml's `se::Serializer::with_root` under a `root` element, keeping what was written before an error.
#[verifier::external_body]
fn json_to_xml(s: &str, indent: usize) -> (r: Option<String>)
    ensures
        match r {
            Some(o) => written_document(s@, 0, 2, indent as int) == Some(o@),
            None => written_document(s@, 0, 2, indent as int) is None,
        },
{
    let v: serde_json::Value = serde_json::from_str(s).ok()?;
    let mut out = String::new();
    if let Ok(mut serializer) = quick_xml::se::Serializer::with_root(&mut out, Some("root")) {
        serializer.indent(' ', indent);
        serializer.empty_element_handling(quick_xml::se::EmptyElementHandling::SelfClosedWithSpace);
        let _ = serde::Serialize::serialize(&v, serializer);
    }
    Some(out)
}

/// Reads JSON with `serde_json::from_str` into a `serde_json::Value` and writes it
/// as TOML with `toml::to_string_pretty`, which fails where the document is no table.
#[verifier::external_body]
fn json_to_toml(s: &str, _indent: usize) -> (r: Option<String>)
    ensures
        match r {
            Some(o) => written_document(s@, 0, 3, _indent as int) == Some(o@),
            None => written_document(s@, 0, 3, _indent as int) is None,
        },
{
    let v: serde_json::Value = serde_json::from_str(s).ok()?;
    toml::to_string_pretty(&v).ok()
}

/// Reads YAML with `serde_saphyr::from_str` into a `serde_json::Value` and writes it
/// as JSON with serde_json's `PrettyFormatter::with_indent` into a vector.
#[verifier::external_body]
fn yaml_to_json(s: &str, indent: usize) -> (r: Option<String>)
    ensures
        match r {
            Some(o) => written_document(s@, 1, 0, indent as int) == Some(o@),
            None => written_document(s@, 1, 0, indent as int) is None,
        },
{
    let v: serde_json::Value = serde_saphyr::from_str(s).ok()?;
    let spaces = " ".repeat(indent);
    let formatter = serde_json::ser::PrettyFormatter::with_indent(spaces.as_bytes());
    let mut buf = Vec::new();
    let mut serializer = serde_json::Serializer::with_formatter(&mut buf, formatter);
    serde::Serialize::serialize(&v, &mut serializer).ok()?;
    String::from_utf8(buf).ok()
}

/// Reads YAML with `serde_saphyr::from_str` into a `serde_json::Value` and writes it
/// as YAML with serde_saphyr's `YamlSerializer::with_indent`, which refuses an indent of 0 or over 64.
#[verifier::external_body]
fn yaml_to_yaml(s: &str, indent: usize) -> (r: Option<String>)
    requires
        1 <= indent <= 64,
    ensures
        match r {
            Some(o) => written_document(s@, 1, 1, indent as int) == Some(o@),
            None => written_document(s@, 1, 1, indent as int) is None,
        },
{
    let v: serde_json::Value = serde_saphyr::from_str(s).ok()?;
    let mut out = String::new();
    let mut serializer = serde_saphyr::ser::YamlSerializer::with_indent(&mut out, indent).ok()?;
    serde::Serialize::serialize(&v, &mut serializer).ok()?;
    Some(out)
}

/// Reads YAML with `serde_saphyr::from_str` into a `serde_json::Value` and writes it
/// as XML with quick_xml's `se::Serializer::with_root` under a `root` element, keeping what was written before an error.
#[verifier::external_body]
fn yaml_to_xml(s: &str, indent: usize) -> (r: Option<String>)
    ensures
        match r {
            Some(o) => written_document(s@, 1, 2, indent as int) == Some(o@),
            None => written_document(s@, 1, 2, indent as int) is None,
        },
{
    let v: serde_json::Value = serde_saphyr::from_str(s).ok()?;
    let mut out = String::new();
    if let Ok(mut serializer) = quick_xml::se::Serializer::with_root(&mut out, Some("root")) {
        serializer.indent(' ', indent);
        serializer.empty_element_handling(quick_xml::se::EmptyElementHandling::SelfClosedWithSpace);
        let _ = serde::Serialize::serialize(&v, serializer);
    }
    Some(out)
}

/// Reads YAML with `serde_saphyr::from_str` into a `serde_json::Value` and writes it
/// as TOML with `toml::to_string_pretty`, which fails where the document is no table.
#[verifier::external_body]
fn yaml_to_toml(s: &str, _indent: usize) -> (r: Option<String>)
    ensures
        match r {
            Some(o) => written_document(s@, 1, 3, _indent as int) == Some(o@),
            None => written_document(s@, 1, 3, _indent as int) is None,
        },
{
    let v: serde_json::Value = serde_saphyr::from_str(s).ok()?;
    toml::to_string_pretty(&v).ok()
}

/// Reads XML with `quick_xml::de::from_str` into a `serde_json::Value` and writes it
/// as JSON with serde_json's `PrettyFormatter::with_indent` into a vector.
#[verifier::external_body]
fn xml_to_json(s: &str, indent: usize) -> (r: Option<String>)
    ensures
        match r {
            Some(o) => written_document(s@, 2, 0, indent as int) == Some(o@),
            None => written_document(s@, 2, 0, indent as int) is None,
        },
{
    let v: serde_json::Value = quick_xml::de::from_str(s).ok()?;
    let spaces = " ".repeat(indent);
    let formatter = serde_json::ser::PrettyFormatter::with_indent(spaces.as_bytes());
    let mut buf = Vec::new();
    let mut serializer = serde_json::Serializer::with_formatter(&mut buf, formatter);
    serde::Serialize::serialize(&v, &mut serializer).ok()?;
    String::from_utf8(buf).ok()
}

/// Reads XML with `quick_xml::de::from_str` into a `serde_json::Value` and writes it
/// as YAML with serde_saphyr's `YamlSerializer::with_indent`, which refuses an indent of 0 or over 64.
#[verifier::external_body]
fn xml_to_yaml(s: &str, indent: usize) -> (r: Option<String>)
    requires
        1 <= indent <= 64,
    ensures
        match r {
            Some(o) => written_document(s@, 2, 1, indent as int) == Some(o@),
            None => written_document(s@, 2, 1, indent as int) is None,
        },
{
    let v: serde_json::Value = quick_xml::de::from_str(s).ok()?;
    let mut out = String::new();
    let mut serializer = serde_saphyr::ser::YamlSerializer::with_indent(&mut out, indent).ok()?;
    serde::Serialize::serialize(&v, &mut serializer).ok()?;
    Some(out)
}

/// Reads XML with `quick_xml::de::from_str` into a `serde_json::Value` and writes it
/// as XML with quick_xml's `se::Serializer::with_root` under a `root` element, keeping what was written before an error.
#[verifier::external_body]
fn xml_to_xml(s: &str, indent: usize) -> (r: Option<String>)
    ensures
        match r {
            Some(o) => written_document(s@, 2, 2, indent as int) == Some(o@),
            None => written_document(s@, 2, 2, indent as int) is None,
        },
{
    let v: serde_json::Value = quick_xml::de::from_str(s).ok()?;
    let mut out = String::new();
    if let Ok(mut serializer) = quick_xml::se::Serializer::with_root(&mut out, Some("root")) {
        serializer.indent(' ', indent);
        serializer.empty_element_handling(quick_xml::se::EmptyElementHandling::SelfClosedWithSpace);
        let _ = serde::Serialize::serialize(&v, serializer);
    }
    Some(out)
}

/// Reads XML with `quick_xml::de::from_str` into a `serde_json::Value` and writes it
/// as TOML with `toml::to_string_pretty`, which fails where the document is no table.
#[verifier::external_body]
fn xml_to_toml(s: &str, _indent: usize) -> (r: Option<String>)
    ensures
        match r {
            Some(o) => written_document(s@, 2, 3, _indent as int) == Some(o@),
            None => written_document(s@, 2, 3, _indent as int) is None,
        },
{
    let v: serde_json::Value = quick_xml::de::from_str(s).ok()?;
    toml::to_string_pretty(&v).ok()
}

/// Reads TOML with `toml::from_str` into a `serde_json::Value` and writes it
/// as JSON with serde_json's `PrettyFormatter::with_indent` into a vector.
#[verifier::external_body]
fn toml_to_json(s: &str, indent: usize) -> (r: Option<String>)
    ensures
        match r {
            Some(o) => written_document(s@, 3, 0, indent as int) == Some(o@),
            None => written_document(s@, 3, 0, indent as int) is None,
        },
{
    let v: serde_json::Value = toml::from_str(s).ok()?;
    let spaces = " ".repeat(indent);
    let formatter = serde_json::ser::PrettyFormatter::with_indent(spaces.as_bytes());
    let mut buf = Vec::new();
    let mut serializer = serde_json::Serializer::with_formatter(&mut buf, formatter);
    serde::Serialize::serialize(&v, &mut serializer).ok()?;
    String::from_utf8(buf).ok()
}

/// Reads TOML with `toml::from_str` into a `serde_json::Value` and writes it
/// as YAML with serde_saphyr's `YamlSerializer::with_indent`, which refuses an indent of 0 or over 64.
#[verifier::external_body]
fn toml_to_yaml(s: &str, indent: usize) -> (r: Option<String>)
    requires
        1 <= indent <= 64,
    ensures
        match r {
            Some(o) => written_document(s@, 3, 1, indent as int) == Some(o@),
            None => written_document(s@, 3, 1, indent as int) is None,
        },
{
    let v: serde_json::Value = toml::from_str(s).ok()?;
    let mut out = String::new();
    let mut serializer = serde_saphyr::ser::YamlSerializer::with_indent(&mut out, indent).ok()?;
    serde::Serialize::serialize(&v, &mut serializer).ok()?;
    Some(out)
}

/// Reads TOML with `toml::from_str` into a `serde_json::Value` and writes it
/// as XML with quick_xml's `se::Serializer::with_root` under a `root` element, keeping what was written before an error.
#[verifier::external_body]
fn toml_to_xml(s: &str, indent: usize) -> (r: Option<String>)
    ensures
        match r {
            Some(o) => written_document(s@, 3, 2, indent as int) == Some(o@),
            None => written_document(s@, 3, 2, indent as int) is None,
        },
{
    let v: serde_json::Value = toml::from_str(s).ok()?;
    let mut out = String::new();
    if let Ok(mut serializer) = quick_xml::se::Serializer::with_root(&mut out, Some("root")) {
        serializer.indent(' ', indent);
        serializer.empty_element_handling(quick_xml::se::EmptyElementHandling::SelfClosedWithSpace);
        let _ = serde::Serialize::serialize(&v, serializer);
    }
    Some(out)
}

/// Reads TOML with `toml::from_str` into a `serde_json::Value` and writes it
/// as TOML with `toml::to_string_pretty`, which fails where the document is no table.
#[verifier::external_body]
fn toml_to_toml(s: &str, _indent: usize) -> (r: Option<String>)
    ensures
        match r {
            Some(o) => written_document(s@, 3, 3, _indent as int) == Some(o@),
            None => written_document(s@, 3, 3, _indent as int) is None,
        },
{
    let v: serde_json::Value = toml::from_str(s).ok()?;
    toml::to_string_pretty(&v).ok()
}

/// The indent widths offered, in spaces.
pub open spec fn indent_widths() -> Seq<usize> {
    seq![2usize, 4usize, 8usize]
}

/// The format that a selection stands for: 0 JSON, 1 YAML, 2 XML, and 3
/// (TOML) for any other.
pub open spec fn format_of(selection: usize) -> int {
    if selection < 3 {
        selection as int
    } else {
        3
    }
}

/// The output after converting `input` from the format chosen by `from` to
/// the one chosen by `to`, indented by the width at `indent`: the document
/// written, or the old output where reading or writing fails.
pub open spec fn data_output(
    input: Seq<char>,
    from: usize,
    to: usize,
    indent: usize,
    output: Seq<char>,
) -> Seq<char> {
    match written_document(input, format_of(from), format_of(to), indent_widths()[indent as int] as int) {
        Some(o) => o,
        None => output,
    }
}

/// The indent width at position `selection` of the widths offered.
pub fn indent_width(selection: usize) -> (r: usize)
    requires
        selection < indent_widths().len(),
    ensures
        r == indent_widths()[selection as int],
{
    if selection == 0 {
        2
    } else if selection == 1 {
        4
    } else {
        8
    }
}

/// The data page: its input and output texts, the formats chosen on each
/// side (as for `format_of`) and the indent chosen.
pub struct DataConverterFormatterPage {
    pub input: String,
    pub output: String,
    pub input_format: usize,
    pub output_format: usize,
    pub selected_indent: usize,
}

impl DataConverterFormatterPage {
    /// The indent chosen is one of those offered.
    pub open spec fn wf(&self) -> bool {
        self.selected_indent < indent_widths().len()
    }

    pub fn new() -> (r: Self)
        ensures
            r.wf(),
            r.input@.len() == 0,
            r.output@.len() == 0,
            r.input_format == 0,
            r.output_format == 0,
            r.selected_indent == 0,
    {
        DataConverterFormatterPage {
            input: String::new(),
            output: String::new(),
            input_format: 0,
            output_format: 0,
            selected_indent: 0,
        }
    }

    /// Reads the input in the input format and writes it in the output
    /// format. Where reading or writing fails the output is left as it was,
    /// except in XML, where what was written before the failure is kept.
    pub fn convert_input(&mut self)
        requires
            old(self).wf(),
        ensures
            final(self).wf(),
            final(self).input@ == old(self).input@,
            final(self).input_format == old(self).input_format,
            final(self).output_format == old(self).output_format,
            final(self).selected_indent == old(self).selected_indent,
            final(self).output@ == data_output(
                old(self).input@,
                old(self).input_format,
                old(self).output_format,
                old(self).selected_indent,
                old(self).output@,
            ),
    {
        let text = self.input.as_str();
        let indent = indent_width(self.selected_indent);
        let from: usize = if self.input_format < 3 { self.input_format } else { 3 };
        let to: usize = if self.output_format < 3 { self.output_format } else { 3 };
        let written = match (from, to) {
            (0, 0) => json_to_json(text, indent),
            (0, 1) => json_to_yaml(text, indent),
            (0, 2) => json_to_xml(text, indent),
            (0, 3) => json_to_toml(text, indent),
            (1, 0) => yaml_to_json(text, indent),
            (1, 1) => yaml_to_yaml(text, indent),
            (1, 2) => yaml_to_xml(text, indent),
            (1, 3) => yaml_to_toml(text, indent),
            (2, 0) => xml_to_json(text, indent),
            (2, 1) => xml_to_yaml(text, indent),
            (2, 2) => xml_to_xml(text, indent),
            (2, 3) => xml_to_toml(text, indent),
            (3, 0) => toml_to_json(text, indent),
            (3, 1) => toml_to_yaml(text, indent),
            (3, 2) => toml_to_xml(text, indent),
            _ => toml_to_toml(text, indent),
        };
        if let Some(out) = written {
            self.output = out;
        }
    }

    /// Chooses the input format; nothing is converted.
    pub fn change_input_format(&mut self, selection: usize)
        requires
            old(self).wf(),
        ensures
            final(self).wf(),
            final(self).input_format == selection,
            final(self).input@ == old(self).input@,
            final(self).output@ == old(self).output@,
            final(self).output_format == old(self).output_format,
            final(self).selected_indent == old(self).selected_indent,
    {
        self.input_format = selection;
    }

    /// Chooses the output format and converts at once.
    pub fn change_output_format(&mut self, selection: usize)
        requires
            old(self).wf(),
        ensures
            final(self).wf(),
            final(self).output_format == selection,
            final(self).input@ == old(self).input@,
            final(self).input_format == old(self).input_format,
            final(self).selected_indent == old(self).selected_indent,
            final(self).output@ == data_output(
                old(self).input@,
                old(self).input_format,
                selection,
                old(self).selected_indent,
                old(self).output@,
            ),
    {
        self.output_format = selection;
        self.convert_input();
    }

    /// Chooses an indent among those offered and converts at once; a choice
    /// outside them changes nothing.
    pub fn change_indent(&mut self, selection: usize)
        requires
            old(self).wf(),
        ensures
            final(self).wf(),
            final(self).input@ == old(self).input@,
            final(self).input_format == old(self).input_format,
            final(self).output_format == old(self).output_format,
            selection < indent_widths().len() ==> final(self).selected_indent == selection
                && final(self).output@ == data_output(
                old(self).input@,
                old(self).input_format,
                old(self).output_format,
                selection,
                old(self).output@,
            ),
            selection >= indent_widths().len() ==> final(self).output@ == old(self).output@
                && final(self).selected_indent == old(self).selected_indent,
    {
        if selection < 3 {
            self.selected_indent = selection;
            self.convert_input();
        }
    }
}

} // verus!
