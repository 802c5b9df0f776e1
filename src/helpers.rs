//! Helpers for test assertions.
use vstd::prelude::*;
use vstd::string::*;
use crate::text::has_substring;

verus! {

/// An error that can be read as text.
pub trait ErrorText {
    spec fn text_spec(&self) -> Seq<char>;

    fn error_text(&self) -> (r: String)
        ensures
            r@ == self.text_spec();
}

impl<'a> ErrorText for &'a str {
    open spec fn text_spec(&self) -> Seq<char> {
        (**self)@
    }

    fn error_text(&self) -> (r: String) {
        String::from_str(*self)
    }
}

impl ErrorText for String {
    open spec fn text_spec(&self) -> Seq<char> {
        self@
    }

    fn error_text(&self) -> (r: String) {
        self.clone()
    }
}

/// Which outcome a test expects of a result: success, or an error whose text
/// contains the given words.
pub enum Unwrap {
    Succeeds,
    Fails(&'static str),
}

impl Unwrap {
    /// Whether `result` is the outcome that this expectation names.
    pub open spec fn expects<T, E: ErrorText>(&self, result: Result<T, E>) -> bool {
        match self {
            Unwrap::Succeeds => result is Ok,
            Unwrap::Fails(s) => result matches Err(e) && has_substring(e.text_spec(), (*s)@),
        }
    }

    /// The value of an expected success, and nothing for an expected error.
    pub fn unwrap<T, E: ErrorText>(self, result: Result<T, E>) -> (r: Option<T>)
        requires
            self.expects(result),
        ensures
            match (self, result) {
                (Unwrap::Succeeds, Ok(v)) => r == Some(v),
                _ => r is None,
            },
    {
        match self {
            Unwrap::Succeeds => match result {
                Ok(v) => Some(v),
                Err(_) => None,
            },
            Unwrap::Fails(_) => None,
        }
    }

    /// Whether `result` is the outcome that this expectation names, for a
    /// caller that cannot know it beforehand.
    pub fn matches<T, E: ErrorText>(&self, result: &Result<T, E>) -> (r: bool)
        ensures
            r == self.expects(*result),
    {
        match self {
            Unwrap::Succeeds => result.is_ok(),
            Unwrap::Fails(s) => match result {
                Ok(_) => false,
                Err(e) => {
                    let text = e.error_text();
                    crate::text::contains_str(text.as_str(), *s)
                },
            },
        }
    }
}

} // verus!
