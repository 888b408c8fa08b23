//! The words in which a harvest reports itself.

use vstd::prelude::*;
use vstd::string::StringExecFns;
use crate::batch::Failure;
use crate::batch::FailureView;
use crate::error::FetchCause;
use crate::error::FetchCauseView;
use crate::error::Mismatch;
use crate::error::ScrapeError;
use crate::error::ScrapeErrorView;

verus! {

/// The character of a decimal digit.
pub open spec fn digit_char(d: nat) -> char {
    if d == 0 {
        '0'
    } else if d == 1 {
        '1'
    } else if d == 2 {
        '2'
    } else if d == 3 {
        '3'
    } else if d == 4 {
        '4'
    } else if d == 5 {
        '5'
    } else if d == 6 {
        '6'
    } else if d == 7 {
        '7'
    } else if d == 8 {
        '8'
    } else {
        '9'
    }
}

/// A number written in decimal digits, without leading zeros.
pub open spec fn decimal_digits(n: nat) -> Seq<char>
    decreases n,
{
    if n < 10 {
        seq![digit_char(n)]
    } else {
        decimal_digits(n / 10).push(digit_char(n % 10))
    }
}

/// The text of one decimal digit.
fn digit_text(d: u64) -> (text: &'static str)
    requires
        d < 10,
    ensures
        text@ == seq![digit_char(d as nat)],
{
    proof {
        reveal_strlit("0");
        reveal_strlit("1");
        reveal_strlit("2");
        reveal_strlit("3");
        reveal_strlit("4");
        reveal_strlit("5");
        reveal_strlit("6");
        reveal_strlit("7");
        reveal_strlit("8");
        reveal_strlit("9");
    }
    let text = if d == 0 {
        "0"
    } else if d == 1 {
        "1"
    } else if d == 2 {
        "2"
    } else if d == 3 {
        "3"
    } else if d == 4 {
        "4"
    } else if d == 5 {
        "5"
    } else if d == 6 {
        "6"
    } else if d == 7 {
        "7"
    } else if d == 8 {
        "8"
    } else {
        "9"
    };
    assert(text@ =~= seq![digit_char(d as nat)]);
    text
}

/// Writes `n` in decimal digits.
pub fn decimal(n: u64) -> (text: String)
    ensures
        text@ == decimal_digits(n as nat),
    decreases n,
{
    if n < 10 {
        String::from_str(digit_text(n))
    } else {
        let text = decimal(n / 10).concat(digit_text(n % 10));
        assert(text@ =~= decimal_digits(n as nat));
        text
    }
}

/// How the status with the number `code` is written out: the number and
/// the standard reason phrase of the status; nothing where the number is
/// that of no status.
pub uninterp spec fn status_display(code: u16) -> Option<Seq<char>>;

/// Calls `reqwest::StatusCode::from_u16` on the number and writes the
/// status out by its `Display` (`to_string`), which gives the number, a
/// space and the reason phrase; a number that `from_u16` refuses gives
/// nothing. The contract only gives the outcome its name: the same number
/// is written out the same way.
#[verifier::external_body]
fn display_status(code: u16) -> (shown: Option<String>)
    ensures
        shown.deep_view() == status_display(code),
{
    reqwest::StatusCode::from_u16(code).ok().map(|status| status.to_string())
}

/// What is said of a page that came with a status other than success:
/// the address, and the status as it is written out, or its bare number
/// where it cannot be written out.
pub open spec fn status_failure_text(url: Seq<char>, code: u16, shown: Option<Seq<char>>) -> Seq<
    char,
> {
    "Failed to fetch URL: "@ + url + " with status "@ + match shown {
        Some(text) => text,
        None => decimal_digits(code as nat),
    }
}

/// What is said of a mismatch.
pub open spec fn mismatch_text(what: Mismatch) -> Seq<char> {
    match what {
        Mismatch::Container => "The index page has no list of constants."@,
        Mismatch::Link => "An entry of the index page has no link."@,
        Mismatch::Name => "An entry of the index page has no name."@,
        Mismatch::Target => "An entry of the index page links to nothing."@,
    }
}

/// What is said of an error.
pub open spec fn error_text(e: ScrapeErrorView) -> Seq<char> {
    match e {
        ScrapeErrorView::Fetch { url, cause: FetchCauseView::Status(code) } => status_failure_text(
            url,
            code,
            status_display(code),
        ),
        ScrapeErrorView::Fetch { url, cause: FetchCauseView::Transport(cause) } => cause,
        ScrapeErrorView::StructuralMismatch(what) => mismatch_text(what),
        ScrapeErrorView::CodeBlockNotFound { url } => "在页面上找不到图标代码点: "@ + url,
        ScrapeErrorView::HexNotParsed { url } => "没有解析到 icon图标, "@ + url,
        ScrapeErrorView::NoIconsFound =>
            "No icons were found. The website structure may have changed again."@,
        ScrapeErrorView::Serialization(cause) => cause,
        ScrapeErrorView::Write(cause) => cause,
    }
}

/// The line in which the failure of one task is logged.
pub open spec fn failure_text(f: FailureView) -> Seq<char> {
    match f {
        FailureView::Resolution { name, error } => "Failed to load icon '"@ + name + "': "@
            + error_text(error),
        FailureView::Execution(cause) => "Task failed to execute: "@ + cause,
    }
}

/// The line in which the failure of the whole harvest is reported.
pub open spec fn failure_report(e: ScrapeErrorView) -> Seq<char> {
    match e {
        ScrapeErrorView::Serialization(_) => "Error serializing to JSON: "@ + error_text(e),
        ScrapeErrorView::Write(_) => "Error writing to file: "@ + error_text(e),
        _ => "Error fetching icons: "@ + error_text(e),
    }
}

/// The line in which a harvest of `count` icons, stored at `path`, is
/// reported.
pub open spec fn success_report(path: Seq<char>, count: nat) -> Seq<char> {
    "Successfully wrote icons to "@ + path + ", size: "@ + decimal_digits(count)
}

/// Says that the page at `url` came with the status `code`, which is
/// written out as `shown`.
pub fn status_failure_message(url: &str, code: u16, shown: Option<String>) -> (text: String)
    ensures
        text@ == status_failure_text(url@, code, shown.deep_view()),
{
    let begun = String::from_str("Failed to fetch URL: ").concat(url).concat(" with status ");
    match shown {
        Some(status) => begun.concat(status.as_str()),
        None => begun.concat(decimal(code as u64).as_str()),
    }
}

impl Mismatch {
    /// Says what the index page lacks.
    pub fn message(&self) -> (text: String)
        ensures
            text@ == mismatch_text(*self),
    {
        match self {
            Mismatch::Container => String::from_str("The index page has no list of constants."),
            Mismatch::Link => String::from_str("An entry of the index page has no link."),
            Mismatch::Name => String::from_str("An entry of the index page has no name."),
            Mismatch::Target => String::from_str("An entry of the index page links to nothing."),
        }
    }
}

impl ScrapeError {
    /// Says what went wrong.
    pub fn message(&self) -> (text: String)
        ensures
            text@ == error_text(self@),
    {
        match self {
            ScrapeError::Fetch { url, cause } => match cause {
                FetchCause::Status(code) => status_failure_message(
                    url.as_str(),
                    *code,
                    display_status(*code),
                ),
                FetchCause::Transport(cause) => cause.clone(),
            },
            ScrapeError::StructuralMismatch(what) => what.message(),
            ScrapeError::CodeBlockNotFound { url } => String::from_str(
                "在页面上找不到图标代码点: ",
            ).concat(url.as_str()),
            ScrapeError::HexNotParsed { url } => String::from_str("没有解析到 icon图标, ").concat(
                url.as_str(),
            ),
            ScrapeError::NoIconsFound => String::from_str(
                "No icons were found. The website structure may have changed again.",
            ),
            ScrapeError::Serialization(cause) => cause.clone(),
            ScrapeError::Write(cause) => cause.clone(),
        }
    }

    /// Writes the line in which this failure of the whole harvest is
    /// reported.
    pub fn report(&self) -> (line: String)
        ensures
            line@ == failure_report(self@),
    {
        let said = self.message();
        match self {
            ScrapeError::Serialization(_) => String::from_str("Error serializing to JSON: ").concat(
                said.as_str(),
            ),
            ScrapeError::Write(_) => String::from_str("Error writing to file: ").concat(
                said.as_str(),
            ),
            _ => String::from_str("Error fetching icons: ").concat(said.as_str()),
        }
    }
}

impl Failure {
    /// Writes the line in which this failure is logged.
    pub fn message(&self) -> (line: String)
        ensures
            line@ == failure_text(self@),
    {
        match self {
            Failure::Resolution { name, error } => String::from_str("Failed to load icon '").concat(
                name.as_str(),
            ).concat("': ").concat(error.message().as_str()),
            Failure::Execution(cause) => String::from_str("Task failed to execute: ").concat(
                cause.as_str(),
            ),
        }
    }
}

/// Writes the line in which a harvest of `count` icons, stored at `path`,
/// is reported.
pub fn report_success(path: &str, count: usize) -> (line: String)
    ensures
        line@ == success_report(path@, count as nat),
{
    String::from_str("Successfully wrote icons to ").concat(path).concat(", size: ").concat(
        decimal(count as u64).as_str(),
    )
}

} // verus!
