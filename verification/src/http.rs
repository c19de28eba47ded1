//! The two ends of an HTTP exchange: the request that is sent, and the status that comes back.

use crate::text::decimal;
use vstd::prelude::*;

verus! {

/// The method of a request.
#[derive(Debug, Clone, Copy, PartialEq, Eq, Structural)]
pub enum Method {
    Get,
    Post,
}

/// A request, ready to be sent.
#[derive(Debug, Clone, PartialEq, Eq)]
pub struct HttpRequest {
    pub method: Method,
    pub url: String,
    /// Names and values, in the order in which they are sent.
    pub headers: Vec<(String, String)>,
    pub body: Option<String>,
}

/// The view of an [`HttpRequest`].
pub struct RequestView {
    pub method: Method,
    pub url: Seq<char>,
    pub headers: Seq<(Seq<char>, Seq<char>)>,
    pub body: Option<Seq<char>>,
}

impl View for HttpRequest {
    type V = RequestView;

    open spec fn view(&self) -> RequestView {
        RequestView {
            method: self.method,
            url: self.url@,
            headers: self.headers@.map_values(|h: (String, String)| (h.0@, h.1@)),
            body: crate::template::optional_text(self.body),
        }
    }
}

/// The status of an answer, a number from 100 to 999.
#[derive(Debug, Clone, Copy, PartialEq, Eq)]
pub struct Status {
    code: u16,
}

impl View for Status {
    type V = u16;

    closed spec fn view(&self) -> u16 {
        self.code
    }
}

/// Whether a status says that the request succeeded.
pub open spec fn success(code: u16) -> bool {
    200 <= code < 300
}

/// The words that `http::StatusCode` puts behind a code: its canonical reason, or a placeholder
/// where it has none.
pub uninterp spec fn reason_phrase(code: u16) -> Seq<char>;

/// A status in words: the code and its reason.
pub open spec fn status_text(code: u16) -> Seq<char> {
    decimal(code as nat) + " "@ + reason_phrase(code)
}

/// Formats a code through `reqwest::StatusCode`, whose `Display` writes the code in decimal, a
/// space, and words that depend on the code alone. `from_u16` takes exactly the codes from 100
/// to 999.
#[verifier::external_body]
fn display_status(code: u16) -> (r: Option<String>)
    ensures
        r is Some <==> 100 <= code <= 999,
        r matches Some(t) ==> t@ == decimal(code as nat) + " "@ + reason_phrase(code),
{
    match reqwest::StatusCode::from_u16(code) {
        Ok(status) => Some(format!("{}", status)),
        Err(_) => None,
    }
}

impl Status {
    #[verifier::type_invariant]
    spec fn inv(self) -> bool {
        100 <= self.code <= 999
    }

    /// The status with the given code, where that is a code at all.
    pub fn from_u16(code: u16) -> (r: Option<Status>)
        ensures
            match r {
                Some(status) => 100 <= code <= 999 && status@ == code,
                None => !(100 <= code <= 999),
            },
    {
        if 100 <= code && code <= 999 {
            Some(Status { code })
        } else {
            None
        }
    }

    /// The code.
    pub fn as_u16(&self) -> (r: u16)
        ensures
            r == self@,
            100 <= r <= 999,
    {
        proof {
            use_type_invariant(self);
        }
        self.code
    }

    /// Whether the request succeeded.
    pub fn is_success(&self) -> (r: bool)
        ensures
            r == success(self@),
    {
        200 <= self.code && self.code < 300
    }

    /// The status in words.
    pub fn text(&self) -> (r: String)
        ensures
            r@ == status_text(self@),
    {
        proof {
            use_type_invariant(self);
        }
        match display_status(self.code) {
            Some(t) => t,
            None => String::new(),
        }
    }
}

} // verus!
