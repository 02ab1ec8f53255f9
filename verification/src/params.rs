//! Conversion parameters and how a request's `Accept` value selects them.

use crate::text::{contains, decimal, decimal_text, occurs_in};
use vstd::prelude::*;
use vstd::string::StringExecFns;
use vstd::utf8::encode_utf8;

verus! {

/// The raster format in which pages are handed back.
#[derive(Clone, Copy, Debug, PartialEq, Eq, Structural)]
pub enum OutputImageType {
    Png,
    Gif,
    Jpeg,
    Webp,
}

impl OutputImageType {
    /// The file suffix of the format, as a sequence of characters.
    pub open spec fn suffix_text(self) -> Seq<char> {
        match self {
            OutputImageType::Png => ".png"@,
            OutputImageType::Gif => ".gif"@,
            OutputImageType::Jpeg => ".jpg"@,
            OutputImageType::Webp => ".webp"@,
        }
    }

    /// The file suffix under which an image of this format is stored.
    pub fn suffix(&self) -> (text: &'static str)
        ensures
            text@ == self.suffix_text(),
    {
        match self {
            OutputImageType::Png => ".png",
            OutputImageType::Gif => ".gif",
            OutputImageType::Jpeg => ".jpg",
            OutputImageType::Webp => ".webp",
        }
    }
}

/// The parameters of one conversion.
#[derive(Debug)]
pub struct ConvertParams {
    /// The format of the images handed back.
    pub output_type: OutputImageType,
    /// Whether the pages are handed back as an archive.
    pub allow_zip: bool,
    /// The resolution at which pages are rendered, in dots per inch.
    pub dpi: u32,
    /// Accepted and kept; rendering does not look at it.
    pub preserve_alpha: bool,
    /// Accepted and kept; rendering does not look at it.
    pub background_color: String,
}

impl Default for ConvertParams {
    /// PNG images, no archive, 72 dots per inch, alpha not preserved, a
    /// white background.
    fn default() -> (params: Self)
        ensures
            params.output_type == OutputImageType::Png,
            !params.allow_zip,
            params.dpi == 72,
            !params.preserve_alpha,
            params.background_color@ == "white"@,
    {
        Self {
            output_type: OutputImageType::Png,
            allow_zip: false,
            dpi: 72,
            preserve_alpha: false,
            background_color: "white".to_owned(),
        }
    }
}

/// The bytes of an `Accept` value; a request without one counts as one that
/// accepts `image/png`.
pub open spec fn accept_bytes(accept: Option<Seq<char>>) -> Seq<u8> {
    match accept {
        Some(value) => encode_utf8(value),
        None => encode_utf8("image/png"@),
    }
}

/// The text of a header value that a request may lack.
pub open spec fn header_text(value: Option<&str>) -> Option<Seq<char>> {
    match value {
        Some(text) => Some(text@),
        None => None,
    }
}

/// The `Accept` value holds the given media type somewhere.
pub open spec fn mentions(accept: Seq<u8>, media_type: Seq<char>) -> bool {
    occurs_in(accept, encode_utf8(media_type))
}

/// The `Accept` value asks for an archive: it holds `application/zip`.
pub open spec fn wants_zip(accept: Seq<u8>) -> bool {
    mentions(accept, "application/zip"@)
}

/// The format that the `Accept` value selects: GIF where it holds
/// `image/gif`; else JPEG where it holds `image/jpeg`; else WebP where it
/// holds `image/webp`; else PNG.
pub open spec fn preferred_type(accept: Seq<u8>) -> OutputImageType {
    if mentions(accept, "image/gif"@) {
        OutputImageType::Gif
    } else if mentions(accept, "image/jpeg"@) {
        OutputImageType::Jpeg
    } else if mentions(accept, "image/webp"@) {
        OutputImageType::Webp
    } else {
        OutputImageType::Png
    }
}

/// Sets the format and the wish for an archive from the `Accept` value of a
/// request, and leaves the other parameters as they are.
pub fn read_accept_header(accept: Option<&str>, params: &mut ConvertParams)
    ensures
        final(params).allow_zip == wants_zip(accept_bytes(header_text(accept))),
        final(params).output_type == preferred_type(accept_bytes(header_text(accept))),
        final(params).dpi == old(params).dpi,
        final(params).preserve_alpha == old(params).preserve_alpha,
        final(params).background_color == old(params).background_color,
{
    let value: &str = match accept {
        Some(value) => value,
        None => "image/png",
    };
    let bytes = value.as_bytes();
    params.allow_zip = contains(bytes, "application/zip".as_bytes());
    if contains(bytes, "image/gif".as_bytes()) {
        params.output_type = OutputImageType::Gif;
    } else if contains(bytes, "image/jpeg".as_bytes()) {
        params.output_type = OutputImageType::Jpeg;
    } else if contains(bytes, "image/webp".as_bytes()) {
        params.output_type = OutputImageType::Webp;
    } else {
        params.output_type = OutputImageType::Png;
    }
}

/// An `Accept` value that holds `image/gif` selects GIF, whatever else it
/// holds; one that holds `image/jpeg` and not `image/gif` selects JPEG; and
/// whether an archive is asked for does not depend on the format.
pub proof fn lemma_accept_priority(accept: Seq<u8>)
    ensures
        mentions(accept, "image/gif"@) ==> preferred_type(accept) == OutputImageType::Gif,
        mentions(accept, "image/jpeg"@) && !mentions(accept, "image/gif"@) ==> preferred_type(
            accept,
        ) == OutputImageType::Jpeg,
        wants_zip(accept) <==> mentions(accept, "application/zip"@),
{
}

impl ConvertParams {
    /// The parameters in words.
    pub open spec fn description(&self) -> Seq<char> {
        "Type: "@ + self.output_type.suffix_text() + ", "@ + (if self.allow_zip {
            "Multi page to ZIP"@
        } else {
            "Multi page to image"@
        }) + ", DPI "@ + decimal_text(self.dpi as nat) + ", "@ + (if self.preserve_alpha {
            "Preserve alpha"@
        } else {
            "Remove alpha"@
        }) + ", background: "@ + self.background_color@
    }

    /// Writes the parameters in words, as a line for a log.
    pub fn describe(&self) -> (text: String)
        ensures
            text@ == self.description(),
    {
        let mut text = "Type: ".to_owned();
        text.append(self.output_type.suffix());
        text.append(", ");
        text.append(
            if self.allow_zip {
                "Multi page to ZIP"
            } else {
                "Multi page to image"
            },
        );
        text.append(", DPI ");
        text.append(decimal(self.dpi).as_str());
        text.append(", ");
        text.append(
            if self.preserve_alpha {
                "Preserve alpha"
            } else {
                "Remove alpha"
            },
        );
        text.append(", background: ");
        text.append(self.background_color.as_str());
        text
    }
}

} // verus!
