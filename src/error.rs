use vstd::prelude::*;

verus! {

/// Why a call into the native engine produced nothing usable.
#[derive(Debug, PartialEq, Eq)]
pub enum Error {
    /// The native constructor returned no object.
    NoConstructionFromNullPtr(String),
    /// A native operation returned no result.
    GeosError(String),
}

pub type GResult<T> = Result<T, Error>;

/// The view of an optional string.
pub open spec fn opt_view(s: Option<String>) -> Option<Seq<char>> {
    match s {
        Some(x) => Some(x@),
        None => None,
    }
}

/// What a failure report adds when the context recorded a native error.
pub open spec fn last_error_suffix(last_error: Option<Seq<char>>) -> Seq<char> {
    match last_error {
        Some(x) => "\nLast error: "@ + x,
        None => Seq::empty(),
    }
}

/// The full text of a failure report: what failed, then the last native error, if any.
pub open spec fn failure_text(what: Seq<char>, last_error: Option<Seq<char>>) -> Seq<char> {
    what + last_error_suffix(last_error)
}

impl Error {
    /// The text that the error carries.
    pub open spec fn text(&self) -> Seq<char> {
        match self {
            Error::NoConstructionFromNullPtr(m) => m@,
            Error::GeosError(m) => m@,
        }
    }

    pub fn message(&self) -> (r: &String)
        ensures
            r@ == self.text(),
    {
        match self {
            Error::NoConstructionFromNullPtr(m) => m,
            Error::GeosError(m) => m,
        }
    }

    pub fn is_construction_failure(&self) -> (r: bool)
        ensures
            r == (self is NoConstructionFromNullPtr),
    {
        match self {
            Error::NoConstructionFromNullPtr(_) => true,
            Error::GeosError(_) => false,
        }
    }
}

/// Builds a failure report from what failed and the context's last native error.
pub fn describe_failure(what: &str, last_error: Option<String>) -> (r: String)
    ensures
        r@ == failure_text(what@, opt_view(last_error)),
{
    let mut text = String::from_str(what);
    match last_error {
        Some(x) => {
            text.append("\nLast error: ");
            text.append(x.as_str());
        },
        None => {},
    }
    text
}

/// Turns what a native operation handed back into an owned result: the output
/// itself, or, where the operation returned nothing, an operation failure that
/// names the caller and carries the last native error.
pub fn managed_string(output: Option<String>, caller: &str, last_error: Option<String>) -> (r:
    GResult<String>)
    ensures
        output is Some ==> r == Ok::<String, Error>(output->Some_0),
        output is None ==> r is Err && r->Err_0 is GeosError && r->Err_0.text() == failure_text(
            caller@,
            opt_view(last_error),
        ),
{
    match output {
        Some(s) => Ok(s),
        None => Err(Error::GeosError(describe_failure(caller, last_error))),
    }
}

} // verus!
