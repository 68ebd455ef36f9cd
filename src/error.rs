use vstd::prelude::*;

verus! {

/// The mathematical value of a [`SyntaxError`].
pub struct ErrorModel {
    pub message: Seq<char>,
    pub line: int,
}

/// A diagnostic: what went wrong and on which line.
#[derive(Debug)]
pub struct SyntaxError {
    pub message: String,
    pub line_number: usize,
}

impl View for SyntaxError {
    type V = ErrorModel;

    open spec fn view(&self) -> ErrorModel {
        ErrorModel { message: self.message@, line: self.line_number as int }
    }
}

/// The model of the result of a recognition step.
pub open spec fn result_view(r: Result<(), SyntaxError>) -> Result<(), ErrorModel> {
    match r {
        Ok(()) => Ok(()),
        Err(e) => Err(e@),
    }
}

pub open spec fn error_at(message: Seq<char>, line: int) -> ErrorModel {
    ErrorModel { message, line }
}

pub open spec fn digit_chars() -> Seq<char> {
    "0123456789"@
}

/// The decimal digits of `n`, most significant first, without leading zeros.
pub open spec fn decimal(n: nat) -> Seq<char>
    decreases n,
{
    if n < 10 {
        seq![digit_chars()[n as int]]
    } else {
        decimal(n / 10).push(digit_chars()[(n % 10) as int])
    }
}

/// The one line by which a diagnostic is shown.
pub open spec fn rendered(e: ErrorModel) -> Seq<char> {
    "ERROR !! "@ + e.message + " in Line "@ + decimal(e.line as nat) + "."@
}

/// Relies on `usize`'s `Display`, through `to_string`: the decimal digits of `n`.
#[verifier::external_body]
fn decimal_string(n: usize) -> (r: String)
    ensures
        r@ == decimal(n as nat),
{
    n.to_string()
}

impl SyntaxError {
    /// The diagnostic as printed: `ERROR !! <message> in Line <line>.`
    pub fn render(&self) -> (r: String)
        ensures
            r@ == rendered(self@),
    {
        let line = decimal_string(self.line_number);
        String::from_str("ERROR !! ").concat(self.message.as_str()).concat(" in Line ").concat(
            line.as_str(),
        ).concat(".")
    }

    pub fn new(message: String, line_number: usize) -> (r: SyntaxError)
        ensures
            r@ == error_at(message@, line_number as int),
    {
        SyntaxError { message, line_number }
    }

    /// A copy of this error with the same message and line.
    pub fn duplicate(&self) -> (r: SyntaxError)
        ensures
            r@ == self@,
    {
        SyntaxError { message: self.message.clone(), line_number: self.line_number }
    }

    pub fn message(&self) -> (r: &str)
        ensures
            r@ == self@.message,
    {
        self.message.as_str()
    }

    pub fn line_number(&self) -> (r: usize)
        ensures
            r as int == self@.line,
    {
        self.line_number
    }
}

} // verus!
