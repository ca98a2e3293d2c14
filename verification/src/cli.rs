//! What the command line shows: results as text, and errors.

use crate::bindings::{
    debug_text, decimal, json_of, json_text, pretty_json_of, pretty_json_text, u64_to_string,
    utf8_text,
};
use vstd::prelude::*;
use vstd::string::StringExecFns;
use vstd::utf8::{decode_utf8, valid_utf8};

verus! {

/// How a list is written out.
#[derive(Clone, Copy, Debug, PartialEq, Eq, Structural)]
pub enum ListFormat {
    Lines,
    Comma,
    JSON,
    UglyJSON,
    PrettyJSON,
}

/// The kind of an error.
#[derive(Clone, Copy, Debug, PartialEq, Eq, Structural)]
pub enum ErrorCode {
    EPRSG,
    ECNPF,
    EIORD,
    EIOWR,
    EIOTY,
}

/// The name of an error code, as it is written out.
pub open spec fn code_name(code: ErrorCode) -> Seq<char> {
    match code {
        ErrorCode::EPRSG => "EPRSG"@,
        ErrorCode::ECNPF => "ECNPF"@,
        ErrorCode::EIORD => "EIORD"@,
        ErrorCode::EIOWR => "EIOWR"@,
        ErrorCode::EIOTY => "EIOTY"@,
    }
}

/// What an error code stands for, in words.
pub open spec fn code_title(code: ErrorCode) -> Seq<char> {
    match code {
        ErrorCode::EPRSG => "Parsing error"@,
        ErrorCode::ECNPF => "Error converting to NPF format"@,
        ErrorCode::EIORD => "IO error on read operation"@,
        ErrorCode::EIOWR => "IO error on write operation"@,
        ErrorCode::EIOTY => "IO error on input/output type"@,
    }
}

impl ErrorCode {
    /// The name of the code, as it is written out.
    pub fn to_string(&self) -> (r: String)
        ensures
            r@ == code_name(*self),
    {
        String::from_str(
            match self {
                ErrorCode::EPRSG => "EPRSG",
                ErrorCode::ECNPF => "ECNPF",
                ErrorCode::EIORD => "EIORD",
                ErrorCode::EIOWR => "EIOWR",
                ErrorCode::EIOTY => "EIOTY",
            },
        )
    }

    /// What the code stands for, in words.
    pub fn title(&self) -> (r: &'static str)
        ensures
            r@ == code_title(*self),
    {
        match self {
            ErrorCode::EPRSG => "Parsing error",
            ErrorCode::ECNPF => "Error converting to NPF format",
            ErrorCode::EIORD => "IO error on read operation",
            ErrorCode::EIOWR => "IO error on write operation",
            ErrorCode::EIOTY => "IO error on input/output type",
        }
    }
}

/// An error, as the command line reports it.
#[derive(Debug)]
pub struct CliError {
    pub description: String,
    pub code: ErrorCode,
    pub fix: Option<String>,
    pub url: Option<String>,
}

/// The report of an error: its code and what the code stands for, the
/// description, and, where they are given, how to fix it and where to read
/// more.
pub open spec fn report(error: CliError) -> Seq<char> {
    "Error "@ + code_name(error.code) + " - \""@ + code_title(error.code) + "\" \n"@
        + error.description@ + (match error.fix {
        Some(fix) => "\nFix: "@ + fix@,
        None => Seq::empty(),
    }) + (match error.url {
        Some(url) => "\nMore info: "@ + url@,
        None => Seq::empty(),
    })
}

impl CliError {
    /// An error of the kind `code` that `description` describes, with no
    /// advice and no reference.
    pub fn new(code: ErrorCode, description: String) -> (r: Self)
        ensures
            r == (CliError { description, code, fix: None, url: None }),
    {
        CliError { description, code, fix: None, url: None }
    }

    /// The report of the error, as it is shown.
    pub fn to_string(&self) -> (r: String)
        ensures
            r@ == report(*self),
    {
        let mut out = String::from_str("Error ");
        out.append(self.code.to_string().as_str());
        out.append(" - \"");
        out.append(self.code.title());
        out.append("\" \n");
        out.append(self.description.as_str());
        if let Some(fix) = &self.fix {
            out.append("\nFix: ");
            out.append(fix.as_str());
        }
        if let Some(url) = &self.url {
            out.append("\nMore info: ");
            out.append(url.as_str());
        }
        out
    }
}

/// The texts of `items`, one after the other, with `sep` between each two.
pub open spec fn joined(items: Seq<Seq<char>>, sep: Seq<char>) -> Seq<char>
    decreases items.len(),
{
    if items.len() == 0 {
        Seq::empty()
    } else if items.len() == 1 {
        items[0]
    } else {
        joined(items.drop_last(), sep) + sep + items.last()
    }
}

/// Writes the strings of `list` one after the other, with `sep` between each
/// two.
pub fn join(list: &Vec<String>, sep: &str) -> (r: String)
    ensures
        r@ == joined(list.deep_view(), sep@),
{
    let ghost items = list.deep_view();
    let mut out = String::new();
    let mut i: usize = 0;
    while i < list.len()
        invariant
            i <= list.len(),
            items == list.deep_view(),
            out@ == joined(items.take(i as int), sep@),
        decreases list.len() - i,
    {
        let ghost before = items.take(i as int);
        if i > 0 {
            out.append(sep);
        }
        out.append(list[i].as_str());
        proof {
            let now = items.take(i + 1);
            assert(now.drop_last() =~= before);
        }
        i += 1;
    }
    assert(items.take(list.len() as int) =~= items);
    out
}

/// A result that the command line shows.
#[derive(Debug)]
pub enum ResultType {
    /// A list of strings.
    List(Vec<String>),
    /// A text.
    String(String),
    /// A document written out as Markdown, in bytes.
    Markdown(Vec<u8>),
    /// An error.
    Failure(CliError),
}

/// The parsing error that `description` describes, with no advice and no
/// reference.
pub open spec fn parsing_error(description: Seq<char>, error: CliError) -> bool {
    error.description@ == description && error.code == ErrorCode::EPRSG && error.fix is None
        && error.url is None
}

/// What is said of a list that could not be written as JSON: where the
/// writer stopped, and the list as `list` shows it.
pub open spec fn json_failure(line: nat, column: nat, list: Seq<char>) -> Seq<char> {
    "Failed to parse list vector into a JSON output on line "@ + decimal(line) + ", column "@
        + decimal(column) + ". Used vector: \n"@ + list
}

/// What is said of bytes that are no text, with the error as `error` shows
/// it.
pub open spec fn utf8_failure(error: Seq<char>) -> Seq<char> {
    "Error making string from utf8, after markdown formatting\n"@ + error
}

/// What writing a list as JSON gives, once the text was made: the text, or
/// the parsing error that says where the writer stopped and shows the list
/// as `list` does.
pub fn written(outcome: Result<String, (usize, usize)>, list: &str) -> (r: Result<String, CliError>)
    ensures
        match outcome {
            Ok(text) => r == Ok::<String, CliError>(text),
            Err((line, column)) => r matches Err(error) && parsing_error(
                json_failure(line as nat, column as nat, list@),
                error,
            ),
        },
{
    match outcome {
        Ok(text) => Ok(text),
        Err((line, column)) => {
            let mut description = String::from_str(
                "Failed to parse list vector into a JSON output on line ",
            );
            description.append(u64_to_string(line as u64).as_str());
            description.append(", column ");
            description.append(u64_to_string(column as u64).as_str());
            description.append(". Used vector: \n");
            description.append(list);
            Err(CliError::new(ErrorCode::EPRSG, description))
        },
    }
}

/// What reading bytes as text gives, once it was tried: the text, or the
/// parsing error that shows why the bytes are no text.
pub fn read(outcome: Result<String, String>) -> (r: Result<String, CliError>)
    ensures
        match outcome {
            Ok(text) => r == Ok::<String, CliError>(text),
            Err(error) => r matches Err(e) && parsing_error(utf8_failure(error@), e),
        },
{
    match outcome {
        Ok(text) => Ok(text),
        Err(error) => {
            let mut description = String::from_str(
                "Error making string from utf8, after markdown formatting\n",
            );
            description.append(error.as_str());
            Err(CliError::new(ErrorCode::EPRSG, description))
        },
    }
}

/// The text for `result`: a list in the format `list_format`, a text as it
/// is, a document as the text that its bytes encode; for an error, the error
/// itself.
pub fn result_to_str(result: ResultType, list_format: &ListFormat) -> (r: Result<String, CliError>)
    ensures
        match result {
            ResultType::List(list) => match *list_format {
                ListFormat::Lines => r matches Ok(text) && text@ == joined(
                    list.deep_view(),
                    "\n"@,
                ),
                ListFormat::Comma => r matches Ok(text) && text@ == joined(list.deep_view(), ","@),
                ListFormat::UglyJSON | ListFormat::JSON => match r {
                    Ok(text) => text@ == json_of(list.deep_view()),
                    Err(error) => exists|line: nat, column: nat, shown: Seq<char>|
                        parsing_error(#[trigger] json_failure(line, column, shown), error),
                },
                ListFormat::PrettyJSON => match r {
                    Ok(text) => text@ == pretty_json_of(list.deep_view()),
                    Err(error) => exists|line: nat, column: nat, shown: Seq<char>|
                        parsing_error(#[trigger] json_failure(line, column, shown), error),
                },
            },
            ResultType::String(text) => r == Ok::<String, CliError>(text),
            ResultType::Markdown(bytes) => if valid_utf8(bytes@) {
                r matches Ok(text) && text@ == decode_utf8(bytes@)
            } else {
                r matches Err(error) && exists|shown: Seq<char>|
                    parsing_error(#[trigger] utf8_failure(shown), error)
            },
            ResultType::Failure(error) => r == Err::<String, CliError>(error),
        },
{
    match result {
        ResultType::List(list) => match list_format {
            ListFormat::Lines => Ok(join(&list, "\n")),
            ListFormat::Comma => Ok(join(&list, ",")),
            ListFormat::UglyJSON | ListFormat::JSON => {
                let made = json_text(&list);
                if made.is_ok() {
                    written(made, "")
                } else {
                    written(made, debug_text(&list).as_str())
                }
            },
            ListFormat::PrettyJSON => {
                let made = pretty_json_text(&list);
                if made.is_ok() {
                    written(made, "")
                } else {
                    written(made, debug_text(&list).as_str())
                }
            },
        },
        ResultType::String(s) => Ok(s),
        ResultType::Markdown(bytes) => read(utf8_text(bytes)),
        ResultType::Failure(e) => Err(e),
    }
}

} // verus!
