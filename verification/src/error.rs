use vstd::prelude::*;

verus! {

/// The library's general error: a reason as a text.
#[derive(Debug, PartialEq)]
pub enum Error {
    Generic(String),
}

impl View for Error {
    type V = Seq<char>;

    /// The reason.
    open spec fn view(&self) -> Seq<char> {
        match self {
            Error::Generic(reason) => reason@,
        }
    }
}

impl Error {
    /// The text shown for this error: the reason after the word `Generic`.
    pub fn to_string(&self) -> (text: String)
        ensures
            text@ == "Generic: "@ + self@,
    {
        match self {
            Error::Generic(reason) => "Generic: ".to_owned().concat(reason.as_str()),
        }
    }
}

} // verus!
