//! Names under which images are stored.

use vstd::prelude::*;
use vstd::string::StringSliceAdditionalSpecFns;
use vstd::utf8::encode_utf8;

verus! {

/// The longest name, in bytes, that an entry of an archive can have.
pub const MAX_NAME_BYTES: usize = 65535;

/// The text is short enough to name an entry of an archive: its UTF-8 form
/// has no more than [`MAX_NAME_BYTES`] bytes.
pub open spec fn fits_entry_name(text: Seq<char>) -> bool {
    encode_utf8(text).len() <= MAX_NAME_BYTES
}

/// The name of a stored image: a text that can also name an entry of an
/// archive.
#[derive(Debug)]
pub struct FileName {
    text: String,
}

impl View for FileName {
    type V = Seq<char>;

    closed spec fn view(&self) -> Seq<char> {
        self.text@
    }
}

impl FileName {
    /// The invariant of the type: the name is short enough.
    #[verifier::type_invariant]
    pub closed spec fn inv(self) -> bool {
        fits_entry_name(self@)
    }

    /// The name with the given text, or nothing where the text is too long.
    pub fn new(text: String) -> (made: Option<FileName>)
        ensures
            made is Some <==> fits_entry_name(text@),
            made matches Some(name) ==> name@ == text@,
    {
        if text.as_str().as_bytes().len() <= MAX_NAME_BYTES {
            Some(FileName { text })
        } else {
            None
        }
    }

    /// The text of the name.
    pub fn as_str(&self) -> (text: &str)
        ensures
            text@ == self@,
            fits_entry_name(self@),
    {
        proof {
            use_type_invariant(self);
        }
        self.text.as_str()
    }

    /// Gives up the name for its text.
    pub fn into_string(self) -> (text: String)
        ensures
            text@ == self@,
            fits_entry_name(self@),
    {
        proof {
            use_type_invariant(&self);
        }
        self.text
    }
}

} // verus!
