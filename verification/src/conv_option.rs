//! A conversion option record with accessor methods, and its builder.
use vstd::prelude::*;

use crate::text::chars_of;

verus! {

/// Convert option
#[derive(Debug)]
pub struct ConvOption {
    ascii: bool,
    digit: bool,
    ignore: Vec<char>,
    kana: bool,
}

impl ConvOption {
    /// Whether ascii characters take part.
    pub closed spec fn spec_ascii(&self) -> bool {
        self.ascii
    }

    /// Whether digit characters take part.
    pub closed spec fn spec_digit(&self) -> bool {
        self.digit
    }

    /// Whether katakana characters take part.
    pub closed spec fn spec_kana(&self) -> bool {
        self.kana
    }

    /// The characters excluded from conversion.
    pub closed spec fn spec_ignore(&self) -> Seq<char> {
        self.ignore@
    }

    /// Returns a builder of `ConvOption`.
    pub fn build() -> (b: ConvOptionBuilder)
        ensures
            !b.spec_ascii(),
            !b.spec_digit(),
            !b.spec_kana(),
            b.spec_ignore() == Seq::<char>::empty(),
    {
        ConvOptionBuilder::new()
    }

    /// Whether convert with ascii or not.
    pub fn convert_ascii(&self) -> (r: bool)
        ensures
            r == self.spec_ascii(),
    {
        self.ascii
    }

    /// Whether convert with digit or not.
    pub fn convert_digit(&self) -> (r: bool)
        ensures
            r == self.spec_digit(),
    {
        self.digit
    }

    /// Whether convert with kana or not.
    pub fn convert_kana(&self) -> (r: bool)
        ensures
            r == self.spec_kana(),
    {
        self.kana
    }

    /// Ignore characters when convert.
    pub fn ignore_chars(&self) -> (r: &Vec<char>)
        ensures
            r@ == self.spec_ignore(),
    {
        &self.ignore
    }
}

/// Builder of ConvOption
#[derive(Debug)]
pub struct ConvOptionBuilder {
    ascii: bool,
    digit: bool,
    ignore: Vec<char>,
    kana: bool,
}

impl ConvOptionBuilder {
    /// Whether ascii characters take part.
    pub closed spec fn spec_ascii(&self) -> bool {
        self.ascii
    }

    /// Whether digit characters take part.
    pub closed spec fn spec_digit(&self) -> bool {
        self.digit
    }

    /// Whether katakana characters take part.
    pub closed spec fn spec_kana(&self) -> bool {
        self.kana
    }

    /// The characters excluded from conversion.
    pub closed spec fn spec_ignore(&self) -> Seq<char> {
        self.ignore@
    }

    /// Returns a `ConvOptionBuilder` with default options.
    pub fn new() -> (b: Self)
        ensures
            !b.spec_ascii(),
            !b.spec_digit(),
            !b.spec_kana(),
            b.spec_ignore() == Seq::<char>::empty(),
    {
        ConvOptionBuilder { ascii: false, digit: false, ignore: Vec::new(), kana: false }
    }

    /// Set a flag of ascii.
    pub fn ascii(self, ascii: bool) -> (b: Self)
        ensures
            b.spec_ascii() == ascii,
            b.spec_digit() == self.spec_digit(),
            b.spec_kana() == self.spec_kana(),
            b.spec_ignore() == self.spec_ignore(),
    {
        let mut this = self;
        this.ascii = ascii;
        this
    }

    /// Set a flag of digit.
    pub fn digit(self, digit: bool) -> (b: Self)
        ensures
            b.spec_ascii() == self.spec_ascii(),
            b.spec_digit() == digit,
            b.spec_kana() == self.spec_kana(),
            b.spec_ignore() == self.spec_ignore(),
    {
        let mut this = self;
        this.digit = digit;
        this
    }

    /// Disabled convert with ascii.
    pub fn disable_ascii(self) -> (b: Self)
        ensures
            !b.spec_ascii(),
            b.spec_digit() == self.spec_digit(),
            b.spec_kana() == self.spec_kana(),
            b.spec_ignore() == self.spec_ignore(),
    {
        self.ascii(false)
    }

    /// Disabled convert with digit.
    pub fn disable_digit(self) -> (b: Self)
        ensures
            b.spec_ascii() == self.spec_ascii(),
            !b.spec_digit(),
            b.spec_kana() == self.spec_kana(),
            b.spec_ignore() == self.spec_ignore(),
    {
        self.digit(false)
    }

    /// Disabled convert with kana.
    pub fn disable_kana(self) -> (b: Self)
        ensures
            b.spec_ascii() == self.spec_ascii(),
            b.spec_digit() == self.spec_digit(),
            !b.spec_kana(),
            b.spec_ignore() == self.spec_ignore(),
    {
        self.kana(false)
    }

    /// Enabled convert with ascii.
    pub fn enable_ascii(self) -> (b: Self)
        ensures
            b.spec_ascii(),
            b.spec_digit() == self.spec_digit(),
            b.spec_kana() == self.spec_kana(),
            b.spec_ignore() == self.spec_ignore(),
    {
        self.ascii(true)
    }

    /// Enabled convert with digit.
    pub fn enable_digit(self) -> (b: Self)
        ensures
            b.spec_ascii() == self.spec_ascii(),
            b.spec_digit(),
            b.spec_kana() == self.spec_kana(),
            b.spec_ignore() == self.spec_ignore(),
    {
        self.digit(true)
    }

    /// Enabled convert with kana.
    pub fn enable_kana(self) -> (b: Self)
        ensures
            b.spec_ascii() == self.spec_ascii(),
            b.spec_digit() == self.spec_digit(),
            b.spec_kana(),
            b.spec_ignore() == self.spec_ignore(),
    {
        self.kana(true)
    }

    /// Build a `ConvOption`.
    pub fn finalize(self) -> (o: ConvOption)
        ensures
            o.spec_ascii() == self.spec_ascii(),
            o.spec_digit() == self.spec_digit(),
            o.spec_kana() == self.spec_kana(),
            o.spec_ignore() == self.spec_ignore(),
    {
        ConvOption {
            ascii: self.ascii,
            digit: self.digit,
            ignore: self.ignore,
            kana: self.kana,
        }
    }

    /// Set ignore characters.
    pub fn ignore(self, ignore: &str) -> (b: Self)
        ensures
            b.spec_ascii() == self.spec_ascii(),
            b.spec_digit() == self.spec_digit(),
            b.spec_kana() == self.spec_kana(),
            b.spec_ignore() == ignore@,
    {
        let mut this = self;
        this.ignore = chars_of(ignore);
        this
    }

    /// Set a flag of kana.
    pub fn kana(self, kana: bool) -> (b: Self)
        ensures
            b.spec_ascii() == self.spec_ascii(),
            b.spec_digit() == self.spec_digit(),
            b.spec_kana() == kana,
            b.spec_ignore() == self.spec_ignore(),
    {
        let mut this = self;
        this.kana = kana;
        this
    }
}

} // verus!
