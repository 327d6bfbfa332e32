//! Output formats and the text written for a JSON response.
use vstd::prelude::*;
use serde_json::Value;
use crate::json::{json_content, serde_json_pretty, serde_yaml_text, pretty_text, to_yaml};

verus! {

/// How command results are written.
#[derive(Debug, Clone, Copy, PartialEq, Eq)]
pub enum OutputFormat {
    Table,
    Json,
    Yaml,
}

impl OutputFormat {
    /// The name of the format as users write it.
    pub open spec fn name_spec(self) -> Seq<char> {
        match self {
            OutputFormat::Table => "table"@,
            OutputFormat::Json => "json"@,
            OutputFormat::Yaml => "yaml"@,
        }
    }

    /// The name of the format ("table", "json" or "yaml").
    pub fn to_display_string(&self) -> (s: String)
        ensures
            s@ == self.name_spec(),
    {
        match self {
            OutputFormat::Table => String::from_str("table"),
            OutputFormat::Json => String::from_str("json"),
            OutputFormat::Yaml => String::from_str("yaml"),
        }
    }

    /// Whether results are written as a whole document (JSON or YAML)
    /// rather than as tables and summaries.
    pub fn is_structured(&self) -> (b: bool)
        ensures
            b == (*self is Json || *self is Yaml),
    {
        match self {
            OutputFormat::Table => false,
            _ => true,
        }
    }
}

/// The text written for a value: pretty JSON and a newline for the table
/// and JSON formats, the YAML document for YAML.
pub open spec fn value_text(format: OutputFormat, v: crate::json::JsonValue) -> Result<Seq<char>, Seq<char>> {
    match format {
        OutputFormat::Yaml => serde_yaml_text(v),
        _ => match serde_json_pretty(v) {
            Ok(s) => Ok(s + seq!['\n']),
            Err(e) => Err(e),
        },
    }
}

/// The text `print_value` writes for `value` in `format`.
pub fn render_value(format: &OutputFormat, value: &Value) -> (res: Result<String, String>)
    ensures
        match res {
            Ok(s) => value_text(*format, json_content(*value)) == Ok::<Seq<char>, Seq<char>>(s@),
            Err(e) => value_text(*format, json_content(*value)) == Err::<Seq<char>, Seq<char>>(e@),
        },
{
    match format {
        OutputFormat::Yaml => to_yaml(value),
        _ => {
            let mut s = pretty_text(value);
            let ghost before = s@;
            s.push('\n');
            assert(s@ =~= before + seq!['\n']);
            Ok(s)
        },
    }
}

} // verus!
