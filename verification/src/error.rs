//! Errors the library reports, and text assembly for their messages.
use vstd::prelude::*;
use vstd::string::StringExecFns;

verus! {

/// An error that ends a request.
pub enum Error {
    /// No window matches the given label.
    WindowNotFound(String),
    /// A window operation could not be carried out.
    WindowOperationFailed(String),
    /// Any other failure, described by its message.
    Anyhow(String),
}

/// The mathematical form of an [`Error`].
pub enum ErrorView {
    WindowNotFound(Seq<char>),
    WindowOperationFailed(Seq<char>),
    Anyhow(Seq<char>),
}

impl View for Error {
    type V = ErrorView;

    open spec fn view(&self) -> ErrorView {
        match self {
            Error::WindowNotFound(s) => ErrorView::WindowNotFound(s@),
            Error::WindowOperationFailed(s) => ErrorView::WindowOperationFailed(s@),
            Error::Anyhow(s) => ErrorView::Anyhow(s@),
        }
    }
}

/// A result whose error is taken by its view.
pub open spec fn result_view<T>(r: Result<T, Error>) -> Result<T, ErrorView> {
    match r {
        Ok(t) => Ok(t),
        Err(e) => Err(e@),
    }
}

/// `a` followed by `b`.
pub fn concat(a: &str, b: &str) -> (r: String)
    ensures
        r@ == a@ + b@,
{
    let mut s = String::from_str(a);
    s.append(b);
    s
}

/// `a`, then `b`, then `c`.
pub fn concat3(a: &str, b: &str, c: &str) -> (r: String)
    ensures
        r@ == a@ + b@ + c@,
{
    let mut s = String::from_str(a);
    s.append(b);
    s.append(c);
    s
}

} // verus!
