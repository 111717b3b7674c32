//! What came back from an exchange, and how its status is classified.

use crate::colour::Colour;
use crate::text::{clone_pairs, clone_texts};
use crate::traits::ToColour;
use vstd::prelude::*;
use vstd::string::StringExecFns;

verus! {

/// An HTTP status code.
pub type StatusCode = u16;

/// The three classes into which a status code falls.
#[derive(Clone, Copy, Debug, PartialEq, Eq, Structural)]
pub enum StatusClass {
    /// 200 to 399.
    Success,
    /// 400 to 499.
    ClientError,
    /// Every other code: server errors and codes outside the usual ranges.
    OtherError,
}

/// The class of a status code.
pub open spec fn class_of(status: StatusCode) -> StatusClass {
    if 200 <= status <= 399 {
        StatusClass::Success
    } else if 400 <= status <= 499 {
        StatusClass::ClientError
    } else {
        StatusClass::OtherError
    }
}

/// Computes [`class_of`].
pub fn status_class(status: StatusCode) -> (class: StatusClass)
    ensures
        class == class_of(status),
{
    if 200 <= status && status <= 399 {
        StatusClass::Success
    } else if 400 <= status && status <= 499 {
        StatusClass::ClientError
    } else {
        StatusClass::OtherError
    }
}

/// The plain colour of a status code: green, orange or red by its class.
pub fn status_colour(status_code: &StatusCode) -> (colour: Colour)
    ensures
        colour == match class_of(*status_code) {
            StatusClass::Success => Colour::Green,
            StatusClass::ClientError => Colour::Orange,
            StatusClass::OtherError => Colour::Red,
        },
{
    match status_class(*status_code) {
        StatusClass::Success => Colour::Green,
        StatusClass::ClientError => Colour::Orange,
        StatusClass::OtherError => Colour::Red,
    }
}

impl ToColour for StatusCode {
    /// The accent of a status code: a soft green, orange or red by its class,
    /// whatever the theme.
    open spec fn colour(&self, dark_mode: bool) -> Colour {
        match class_of(*self) {
            StatusClass::Success => Colour::Rgb(60, 215, 60),
            StatusClass::ClientError => Colour::Orange,
            StatusClass::OtherError => Colour::Red,
        }
    }

    fn to_colour(&self, dark_mode: bool) -> (colour: Colour) {
        match status_class(*self) {
            StatusClass::Success => Colour::Rgb(60, 215, 60),
            StatusClass::ClientError => Colour::Orange,
            StatusClass::OtherError => Colour::Red,
        }
    }
}

/// The reason phrase that `reqwest::StatusCode` knows for a status code: that of
/// `canonical_reason` on the code that `from_u16` makes of the number, and `None`
/// where `from_u16` refuses the number or the code has no phrase.
pub uninterp spec fn canonical_reason(status: StatusCode) -> Option<Seq<char>>;

/// Calls `reqwest::StatusCode::from_u16` and, on the code it returns,
/// `canonical_reason`. Both read nothing but the number.
#[verifier::external_body]
fn lookup_reason(status: StatusCode) -> (phrase: Option<String>)
    ensures
        phrase.deep_view() == canonical_reason(status),
{
    match reqwest::StatusCode::from_u16(status) {
        Ok(code) => code.canonical_reason().map(|phrase| phrase.to_string()),
        Err(_) => None,
    }
}

/// The reason that is shown for a looked-up phrase: the phrase, or `UNKNOWN`
/// where there is none.
pub open spec fn reason_or_unknown(phrase: Option<Seq<char>>) -> Seq<char> {
    match phrase {
        Some(words) => words,
        None => "UNKNOWN"@,
    }
}

/// Computes [`reason_or_unknown`].
pub fn shown_reason(phrase: Option<String>) -> (reason: String)
    ensures
        reason@ == reason_or_unknown(phrase.deep_view()),
{
    match phrase {
        Some(words) => words,
        None => String::from_str("UNKNOWN"),
    }
}

/// The reason that is shown for a status code.
pub fn reason_phrase(status: StatusCode) -> (reason: String)
    ensures
        reason@ == reason_or_unknown(canonical_reason(status)),
{
    shown_reason(lookup_reason(status))
}

/// The model of a [`Response`].
pub struct ResponseView {
    pub status: StatusCode,
    pub reason: Seq<char>,
    pub headers: Seq<(Seq<char>, Seq<char>)>,
    pub cookies: Seq<Seq<char>>,
    pub body: Seq<char>,
}

impl ResponseView {
    /// The response of a request that has not been answered.
    pub open spec fn empty() -> ResponseView {
        ResponseView {
            status: 0,
            reason: Seq::empty(),
            headers: Seq::empty(),
            cookies: Seq::empty(),
            body: Seq::empty(),
        }
    }
}

/// The answer to a request. A transport failure is held in the same shape, with
/// the error's text as the body.
pub struct Response {
    pub status: StatusCode,
    pub reason: String,
    pub headers: Vec<(String, String)>,
    pub cookies: Vec<String>,
    pub body: String,
}

impl View for Response {
    type V = ResponseView;

    open spec fn view(&self) -> ResponseView {
        ResponseView {
            status: self.status,
            reason: self.reason@,
            headers: self.headers.deep_view(),
            cookies: self.cookies.deep_view(),
            body: self.body@,
        }
    }
}

impl Default for Response {
    fn default() -> (response: Self)
        ensures
            response@ == ResponseView::empty(),
    {
        let response = Response {
            status: 0,
            reason: String::new(),
            headers: Vec::new(),
            cookies: Vec::new(),
            body: String::new(),
        };
        assert(response.headers.deep_view() =~= Seq::empty());
        assert(response.cookies.deep_view() =~= Seq::empty());
        response
    }
}

impl Clone for Response {
    fn clone(&self) -> (copy: Self)
        ensures
            copy@ == self@,
    {
        Response {
            status: self.status,
            reason: self.reason.clone(),
            headers: clone_pairs(&self.headers),
            cookies: clone_texts(&self.cookies),
            body: self.body.clone(),
        }
    }
}

} // verus!
