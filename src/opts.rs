use vstd::prelude::*;

use crate::text::str_eq;

verus! {

/// The two document formats a table can be converted into.
#[derive(Clone, Copy, Debug, PartialEq, Eq, Structural)]
pub enum OutputFormat {
    Json,
    Yaml,
}

/// The literal that names a format on the command line and in file extensions.
pub open spec fn format_name(format: OutputFormat) -> Seq<char> {
    match format {
        OutputFormat::Json => "json"@,
        OutputFormat::Yaml => "yaml"@,
    }
}

impl OutputFormat {
    /// The format's literal spelling.
    pub fn as_str(&self) -> (r: &'static str)
        ensures
            r@ == format_name(*self),
    {
        match self {
            OutputFormat::Json => "json",
            OutputFormat::Yaml => "yaml",
        }
    }

    /// The format's literal spelling as an owned string.
    pub fn to_string(&self) -> (r: String)
        ensures
            r@ == format_name(*self),
    {
        self.as_str().to_string()
    }
}

impl From<OutputFormat> for &'static str {
    fn from(format: OutputFormat) -> (r: &'static str) {
        match format {
            OutputFormat::Json => "json",
            OutputFormat::Yaml => "yaml",
        }
    }
}

impl vstd::std_specs::convert::FromSpecImpl<OutputFormat> for &'static str {
    open spec fn obeys_from_spec() -> bool {
        true
    }

    open spec fn from_spec(v: OutputFormat) -> &'static str {
        match v {
            OutputFormat::Json => "json",
            OutputFormat::Yaml => "yaml",
        }
    }
}

/// A format literal that names neither supported format.
#[derive(Clone, Debug)]
pub struct FormatError {
    pub format: String,
}

impl FormatError {
    /// Human-readable description of the failure.
    pub fn message(&self) -> (r: String)
        ensures
            r@ == "Invalid format"@,
    {
        "Invalid format".to_string()
    }
}

/// Maps `"json"` and `"yaml"` to their formats and rejects every other literal.
pub fn parse_format(format: &str) -> (r: Result<OutputFormat, FormatError>)
    ensures
        format@ == "json"@ ==> r == Ok::<OutputFormat, FormatError>(OutputFormat::Json),
        format@ == "yaml"@ ==> r == Ok::<OutputFormat, FormatError>(OutputFormat::Yaml),
        r matches Ok(f) ==> format@ == format_name(f),
        r matches Err(e) ==> e.format@ == format@,
        r is Err <==> (format@ != "json"@ && format@ != "yaml"@),
{
    proof {
        reveal_strlit("json");
        reveal_strlit("yaml");
        assert("json"@[0] != "yaml"@[0]);
    }
    if str_eq(format, "json") {
        Ok(OutputFormat::Json)
    } else if str_eq(format, "yaml") {
        Ok(OutputFormat::Yaml)
    } else {
        Err(FormatError { format: format.to_string() })
    }
}

impl std::str::FromStr for OutputFormat {
    type Err = FormatError;

    fn from_str(s: &str) -> (r: Result<OutputFormat, FormatError>)
        ensures
            s@ == "json"@ ==> r == Ok::<OutputFormat, FormatError>(OutputFormat::Json),
            s@ == "yaml"@ ==> r == Ok::<OutputFormat, FormatError>(OutputFormat::Yaml),
            r is Err <==> (s@ != "json"@ && s@ != "yaml"@),
            r matches Ok(f) ==> s@ == format_name(f),
            r matches Err(e) ==> e.format@ == s@,
    {
        parse_format(s)
    }
}

/// The output file used when none is given: `output.<format>`.
pub fn default_output_name(format: OutputFormat) -> (r: String)
    ensures
        r@ == "output."@ + format_name(format),
{
    let mut name = "output.".to_string();
    name.append(format.as_str());
    name
}

/// Accepts an input path that exists and reports one that does not.
///
/// Whether the path exists is found out by the caller.
pub fn verify_input_file(filename: &str, exists: bool) -> (r: Result<String, String>)
    ensures
        exists ==> (r matches Ok(s) && s@ == filename@),
        !exists ==> (r matches Err(m) && m@ == "File not found: "@ + filename@),
{
    if exists {
        Ok(filename.to_string())
    } else {
        let mut m = "File not found: ".to_string();
        m.append(filename);
        Err(m)
    }
}

/// Options of the table conversion command.
#[derive(Clone, Debug)]
pub struct CsvOpts {
    pub input: String,
    pub output: Option<String>,
    pub format: OutputFormat,
    pub delimiter: char,
    pub header: bool,
}

/// Options of the password generation command.
#[derive(Clone, Debug)]
pub struct GenPassOpts {
    pub length: u8,
    pub no_upper: bool,
    pub no_lower: bool,
    pub no_number: bool,
    pub no_symbol: bool,
}

/// The commands the tool offers.
#[derive(Clone, Debug)]
pub enum SubCommand {
    Csv(CsvOpts),
    GenPass(GenPassOpts),
}

/// The parsed command line.
#[derive(Clone, Debug)]
pub struct Opts {
    pub cmd: SubCommand,
}

} // verus!
