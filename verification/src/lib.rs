//! Conversion of Japanese text between character-width and script variants:
//! half-width and full-width ASCII, digits and katakana, and hiragana and
//! katakana.  Every conversion is a pure, table-driven substitution over the
//! characters of the input string.
use vstd::prelude::*;

pub mod charsets;
pub mod conv_option;
pub mod conv_table;
pub mod convert;
pub mod laws;
mod text;

pub use convert::h2z;
pub use convert::hira2hkata;
pub use convert::hira2kata;
pub use convert::kata2hira;
pub use convert::z2h;

verus! {

/// Options for one conversion call: which character classes take part in a
/// width conversion, and which characters are passed through unchanged.
#[derive(Debug)]
pub struct ConvOption {
    /// Include ASCII letters and punctuation in width conversion.
    pub ascii: bool,
    /// Include digits in width conversion.
    pub digit: bool,
    /// Characters to exclude from conversion.
    pub ignore: String,
    /// Include katakana in width conversion.
    pub kana: bool,
}

impl Default for ConvOption {
    /// All classes off and nothing excluded.
    fn default() -> (r: Self)
        ensures
            !r.ascii,
            !r.digit,
            !r.kana,
            r.ignore@ == Seq::<char>::empty(),
    {
        ConvOption { ascii: false, digit: false, ignore: String::new(), kana: false }
    }
}

} // verus!
