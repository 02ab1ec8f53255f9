//! What all requests share: the token, the converter and the count of
//! conversions.

use crate::pdf_converter::PdfConverter;
use vstd::prelude::*;
use vstd::string::StringExecFns;

verus! {

/// The state that all requests share.
#[derive(Debug)]
pub struct AppState {
    auth_token: String,
    pdf_converter: PdfConverter,
    count_conversions: usize,
}

/// The count after one more conversion: one more than before, and zero
/// after the largest count that a `usize` holds.
pub open spec fn next_count(count: usize) -> usize {
    if count == usize::MAX {
        0
    } else {
        (count + 1) as usize
    }
}

impl AppState {
    /// The token that a request has to show; empty where none is asked for.
    pub closed spec fn token(&self) -> Seq<char> {
        self.auth_token@
    }

    /// The converter of the service.
    pub closed spec fn converter(&self) -> PdfConverter {
        self.pdf_converter
    }

    /// The number of conversions so far.
    pub closed spec fn conversions(&self) -> usize {
        self.count_conversions
    }

    /// The state of a service that has converted nothing yet.
    pub fn new(auth_token: String, pdfium_lib: String) -> (state: Self)
        ensures
            state.token() == auth_token@,
            state.converter().library()@ == pdfium_lib@,
            state.conversions() == 0,
    {
        Self { auth_token, pdf_converter: PdfConverter::new(pdfium_lib), count_conversions: 0 }
    }

    /// Counts one more conversion. The count wraps to zero after the
    /// largest count that a `usize` holds.
    pub fn increase_conversion_counter(&mut self)
        ensures
            final(self).conversions() == next_count(old(self).conversions()),
            old(self).conversions() < usize::MAX ==> final(self).conversions() == old(
                self,
            ).conversions() + 1,
            final(self).token() == old(self).token(),
            final(self).converter() == old(self).converter(),
    {
        self.count_conversions = self.count_conversions.wrapping_add(1);
    }

    /// The number of conversions so far.
    pub fn count_conversions(&self) -> (count: usize)
        ensures
            count == self.conversions(),
    {
        self.count_conversions
    }

    /// The token that a request has to show; empty where none is asked for.
    pub fn auth_token(&self) -> (token: &String)
        ensures
            token@ == self.token(),
    {
        &self.auth_token
    }

    /// The converter of the service.
    pub fn pdf_converter(&self) -> (converter: &PdfConverter)
        ensures
            *converter == self.converter(),
    {
        &self.pdf_converter
    }

    /// The value of the `Authorization` header that lets a request pass:
    /// the word `token`, a space, and the token.
    pub open spec fn required_authorization(&self) -> Seq<char> {
        "token "@ + self.token()
    }

    /// Whether a request with the given `Authorization` value may pass: it
    /// has one, and it is the required one.
    pub fn authorizes(&self, authorization: Option<&str>) -> (passes: bool)
        ensures
            passes <==> (authorization matches Some(value) && value@
                == self.required_authorization()),
    {
        match authorization {
            None => false,
            Some(value) => {
                let mut required = "token ".to_owned();
                required.append(self.auth_token.as_str());
                value.to_owned() == required
            },
        }
    }
}

} // verus!
