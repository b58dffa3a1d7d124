//! Failures of a download and the text that reports them.

use vstd::prelude::*;

verus! {

/// Why a download did not produce its file.
#[derive(Debug, PartialEq, Eq)]
pub enum DownloadError {
    /// The request could not be sent or the response could not be received.
    /// Holds the transport's own description of the failure.
    Transport(String),
    /// A response arrived whose status code lies outside 200 to 299.
    HttpStatus { code: u16 },
    /// The address is not an absolute URL. Holds the parser's description.
    UrlParse(String),
    /// The output file could not be created or written. Holds the file
    /// system's description.
    Io(String),
}

/// The value of a [`DownloadError`], with each text as a sequence of
/// characters.
pub enum ErrorView {
    Transport(Seq<char>),
    HttpStatus { code: u16 },
    UrlParse(Seq<char>),
    Io(Seq<char>),
}

impl View for DownloadError {
    type V = ErrorView;

    open spec fn view(&self) -> ErrorView {
        match self {
            DownloadError::Transport(cause) => ErrorView::Transport(cause@),
            DownloadError::HttpStatus { code } => ErrorView::HttpStatus { code: *code },
            DownloadError::UrlParse(cause) => ErrorView::UrlParse(cause@),
            DownloadError::Io(cause) => ErrorView::Io(cause@),
        }
    }
}

/// The character that stands for a single decimal digit.
pub open spec fn digit_char(d: nat) -> char
    recommends
        d < 10,
{
    "0123456789"@[d as int]
}

/// The decimal numeral of `n`, most significant digit first and without
/// leading zeros.
pub open spec fn decimal(n: nat) -> Seq<char>
    decreases n,
{
    if n < 10 {
        seq![digit_char(n)]
    } else {
        decimal(n / 10).push(digit_char(n % 10))
    }
}

/// The number that a digit character stands for; characters that are no
/// digit count as zero.
pub open spec fn digit_value(c: char) -> nat {
    if '0' <= c <= '9' {
        (c as nat - '0' as nat) as nat
    } else {
        0
    }
}

/// The number that a sequence of digit characters denotes in base ten.
pub open spec fn numeral_value(digits: Seq<char>) -> nat
    decreases digits.len(),
{
    if digits.len() == 0 {
        0
    } else {
        numeral_value(digits.drop_last()) * 10 + digit_value(digits.last())
    }
}

/// What every report of a rejected status starts with.
pub open spec fn status_prefix() -> Seq<char> {
    "Failed to download: HTTP "@
}

/// The report of a response that was rejected for its status code.
pub open spec fn status_message(code: u16) -> Seq<char> {
    status_prefix() + decimal(code as nat)
}

impl ErrorView {
    /// The text that reports this failure: the embedded description, or for
    /// a rejected status the fixed prefix followed by the code in decimal.
    pub open spec fn message(self) -> Seq<char> {
        match self {
            ErrorView::Transport(cause) => cause,
            ErrorView::HttpStatus { code } => status_message(code),
            ErrorView::UrlParse(cause) => cause,
            ErrorView::Io(cause) => cause,
        }
    }
}

/// The text of one decimal digit.
fn digit_text(d: u16) -> (text: &'static str)
    requires
        d < 10,
    ensures
        text@ == seq![digit_char(d as nat)],
{
    let digits = "0123456789";
    proof {
        reveal_strlit("0123456789");
    }
    let text = digits.substring_char(d as usize, d as usize + 1);
    assert(text@ =~= seq![digit_char(d as nat)]);
    text
}

/// Writes a number in decimal.
pub fn decimal_string(n: u16) -> (text: String)
    ensures
        text@ == decimal(n as nat),
    decreases n,
{
    if n < 10 {
        digit_text(n).to_owned()
    } else {
        let mut text = decimal_string(n / 10);
        text.append(digit_text(n % 10));
        assert(text@ =~= decimal((n / 10) as nat).push(digit_char((n % 10) as nat)));
        text
    }
}

impl DownloadError {
    /// The text that reports this failure to the user.
    pub fn message(&self) -> (text: String)
        ensures
            text@ == self@.message(),
    {
        match self {
            DownloadError::Transport(cause) => cause.clone(),
            DownloadError::HttpStatus { code } => {
                let mut text = "Failed to download: HTTP ".to_owned();
                let digits = decimal_string(*code);
                text.append(digits.as_str());
                text
            },
            DownloadError::UrlParse(cause) => cause.clone(),
            DownloadError::Io(cause) => cause.clone(),
        }
    }
}

/// A decimal numeral denotes the number it was written from: no two
/// numbers share a numeral, so a report of a rejected status identifies
/// its code.
pub proof fn decimal_reads_back(n: nat)
    ensures
        numeral_value(decimal(n)) == n,
        decimal(n).len() >= 1,
    decreases n,
{
    reveal_strlit("0123456789");
    if n < 10 {
        let d = decimal(n);
        assert(d.drop_last() =~= Seq::<char>::empty());
        assert(numeral_value(d.drop_last()) == 0);
        assert(d.last() == digit_char(n));
        assert(digit_value(digit_char(n)) == n);
    } else {
        decimal_reads_back(n / 10);
        let d = decimal(n);
        assert(d.drop_last() =~= decimal(n / 10));
        assert(d.last() == digit_char(n % 10));
        assert(digit_value(digit_char(n % 10)) == n % 10);
    }
}

} // verus!
