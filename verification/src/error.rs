//! The library's error type, its HTTP status codes and its messages.

use vstd::prelude::*;
use crate::text::push_decimal;
use crate::text::decimal_chars;

verus! {

/// What can go wrong when storing, serving or deleting a page.
pub enum LinkdropError {
    /// A page with this slug exists and overwriting was not asked for.
    SlugExists(String),
    /// No page is stored under this slug.
    NotFound(String),
    /// The slug (or a TTL) is malformed; the payload explains how.
    InvalidSlug(String),
    /// The content is larger than `max` bytes.
    TooLarge { max: usize },
    /// The page's time to live has run out.
    Expired(String),
    /// Any other failure, carried by its message.
    Other(String),
}

/// The abstract value of a [`LinkdropError`]: the same variants over character sequences.
pub enum ErrorView {
    SlugExists(Seq<char>),
    NotFound(Seq<char>),
    InvalidSlug(Seq<char>),
    TooLarge { max: usize },
    Expired(Seq<char>),
    Other(Seq<char>),
}

impl View for LinkdropError {
    type V = ErrorView;

    open spec fn view(&self) -> ErrorView {
        match self {
            LinkdropError::SlugExists(s) => ErrorView::SlugExists(s@),
            LinkdropError::NotFound(s) => ErrorView::NotFound(s@),
            LinkdropError::InvalidSlug(s) => ErrorView::InvalidSlug(s@),
            LinkdropError::TooLarge { max } => ErrorView::TooLarge { max: *max },
            LinkdropError::Expired(s) => ErrorView::Expired(s@),
            LinkdropError::Other(s) => ErrorView::Other(s@),
        }
    }
}

/// A result whose error is a [`LinkdropError`], with the error taken by its view.
pub open spec fn result_view<T>(r: Result<T, LinkdropError>) -> Result<T, ErrorView> {
    match r {
        Ok(v) => Ok(v),
        Err(e) => Err(e@),
    }
}

/// The HTTP status that answers an error.
pub open spec fn status_of(e: ErrorView) -> u16 {
    match e {
        ErrorView::SlugExists(_) => 409,
        ErrorView::NotFound(_) => 404,
        ErrorView::InvalidSlug(_) => 400,
        ErrorView::TooLarge { .. } => 413,
        ErrorView::Expired(_) => 404,
        ErrorView::Other(_) => 500,
    }
}

/// The human-readable message of an error.
pub open spec fn message_of(e: ErrorView) -> Seq<char> {
    match e {
        ErrorView::SlugExists(s) => "slug already exists: "@ + s,
        ErrorView::NotFound(s) => "page not found: "@ + s,
        ErrorView::InvalidSlug(s) => "invalid slug: "@ + s,
        ErrorView::TooLarge { max } => "content exceeds maximum size of "@ + decimal_chars(
            max as nat,
        ) + " bytes"@,
        ErrorView::Expired(s) => "page expired: "@ + s,
        ErrorView::Other(s) => s,
    }
}

impl LinkdropError {
    /// The HTTP status code that answers this error.
    pub fn status_code(&self) -> (code: u16)
        ensures
            code == status_of(self@),
    {
        match self {
            LinkdropError::SlugExists(_) => 409,
            LinkdropError::NotFound(_) => 404,
            LinkdropError::InvalidSlug(_) => 400,
            LinkdropError::TooLarge { .. } => 413,
            LinkdropError::Expired(_) => 404,
            LinkdropError::Other(_) => 500,
        }
    }

    /// The error's message, as its `Display` renders it.
    pub fn message(&self) -> (m: String)
        ensures
            m@ == message_of(self@),
    {
        match self {
            LinkdropError::SlugExists(s) => {
                let mut m = String::from_str("slug already exists: ");
                m.append(s.as_str());
                m
            },
            LinkdropError::NotFound(s) => {
                let mut m = String::from_str("page not found: ");
                m.append(s.as_str());
                m
            },
            LinkdropError::InvalidSlug(s) => {
                let mut m = String::from_str("invalid slug: ");
                m.append(s.as_str());
                m
            },
            LinkdropError::TooLarge { max } => {
                let mut m = String::from_str("content exceeds maximum size of ");
                push_decimal(&mut m, *max as u64);
                m.append(" bytes");
                m
            },
            LinkdropError::Expired(s) => {
                let mut m = String::from_str("page expired: ");
                m.append(s.as_str());
                m
            },
            LinkdropError::Other(s) => s.clone(),
        }
    }
}

/// Every error is answered with a client error (4xx) or a server error (5xx),
/// and a missing page and an expired page are answered alike.
pub proof fn status_codes_are_errors(e: ErrorView)
    ensures
        400 <= status_of(e) < 600,
        e is Expired ==> status_of(e) == 404,
        e is NotFound ==> status_of(e) == 404,
{
}

} // verus!
