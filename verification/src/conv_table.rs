//! Conversion tables: the direction and target-subset selectors, and the
//! construction of a code-point-to-replacement mapping from the character
//! sets.
use vstd::prelude::*;

use std::collections::HashMap;

use crate::charsets::{
    full_ascii, full_ascii_seq, full_digit, full_digit_seq, full_kana, full_kana_seion,
    full_kana_seion_seq, full_kana_seq, half_ascii, half_ascii_seq, half_digit, half_digit_seq,
    half_kana, half_kana_entries, half_kana_seion, half_kana_seion_seq, hiragana, hiragana_seq,
};
use crate::text::strings_of_chars;
use crate::ConvOption;

verus! {

broadcast use vstd::std_specs::hash::group_hash_axioms;

/// Which character classes take part in a width conversion.
#[derive(Debug, Eq, PartialEq, Structural)]
pub enum Target {
    /// Ascii, digits and katakana
    All,
    /// Only ascii
    Ascii,
    /// Ascii and digits
    AsciiAndDigits,
    /// Ascii and katakana
    AsciiAndKana,
    /// Only digits
    Digits,
    /// Digits and katakana
    DigitsAndKana,
    /// Only katakana
    Kana,
}

/// The target subset that a choice of option flags selects: any combination
/// with neither ascii nor digit set falls back to katakana only.
pub open spec fn target_spec(ascii: bool, digit: bool, kana: bool) -> Target {
    match (ascii, digit, kana) {
        (true, true, true) => Target::All,
        (true, true, false) => Target::AsciiAndDigits,
        (true, false, true) => Target::AsciiAndKana,
        (true, false, false) => Target::Ascii,
        (false, true, true) => Target::DigitsAndKana,
        (false, true, false) => Target::Digits,
        _ => Target::Kana,
    }
}

impl Target {
    /// The target subset that the given options select.
    pub fn from(option: &ConvOption) -> (t: Target)
        ensures
            t == target_spec(option.ascii, option.digit, option.kana),
    {
        match (option.ascii, option.digit, option.kana) {
            (true, true, true) => Target::All,
            (true, true, false) => Target::AsciiAndDigits,
            (true, false, true) => Target::AsciiAndKana,
            (true, false, false) => Target::Ascii,
            (false, true, true) => Target::DigitsAndKana,
            (false, true, false) => Target::Digits,
            _ => Target::Kana,
        }
    }
}

/// A conversion direction together with its target subset.
#[derive(Debug)]
pub enum Method {
    /// From full-width to half-width
    FullToHalf(Target),
    /// From half-width to full-width
    HalfToFull(Target),
    /// From hiragana to katakana(half-width)
    HiraToHalfKana,
    /// From hiragana to katakana(full-width)
    HiraToKana,
    /// From katakana(full-width) to hiragana
    KanaToHira,
}

/// One-character entries lifted to one-character replacement sequences.
pub open spec fn lift(s: Seq<char>) -> Seq<Seq<char>> {
    Seq::new(s.len(), |i: int| seq![s[i]])
}

/// The mapping that paired key and replacement sequences build: entry `i`
/// maps the code point of `keys[i]` to `vals[i]`; on a duplicate key the
/// later entry wins, as when the pairs are inserted into a map in order.
pub open spec fn zip_map(keys: Seq<char>, vals: Seq<Seq<char>>) -> Map<u32, Seq<char>>
    decreases keys.len(),
{
    if keys.len() == 0 || vals.len() == 0 {
        Map::empty()
    } else {
        zip_map(keys.drop_last(), vals.drop_last()).insert(keys.last() as u32, vals.last())
    }
}

/// The keys of a zip mapping are exactly the code points of its key
/// characters.
pub proof fn lemma_zip_map_dom(keys: Seq<char>, vals: Seq<Seq<char>>)
    requires
        keys.len() == vals.len(),
    ensures
        forall|k: u32| #[trigger] zip_map(keys, vals).contains_key(k) <==> exists|i: int|
            0 <= i < keys.len() && keys[i] as u32 == k,
    decreases keys.len(),
{
    if keys.len() == 0 {
        assert(zip_map(keys, vals) == Map::<u32, Seq<char>>::empty());
    } else {
        lemma_zip_map_dom(keys.drop_last(), vals.drop_last());
        assert(zip_map(keys, vals) == zip_map(keys.drop_last(), vals.drop_last()).insert(
            keys.last() as u32,
            vals.last(),
        ));
        assert forall|k: u32| #[trigger] zip_map(keys, vals).contains_key(k) implies exists|i: int|
            0 <= i < keys.len() && keys[i] as u32 == k by {
            if k == keys.last() as u32 {
                assert(keys[keys.len() - 1] as u32 == k);
            } else {
                assert(zip_map(keys.drop_last(), vals.drop_last()).contains_key(k));
                let i = choose|i: int|
                    0 <= i < keys.drop_last().len() && keys.drop_last()[i] as u32 == k;
                assert(keys[i] as u32 == k);
            }
        }
        assert forall|k: u32| (exists|i: int| 0 <= i < keys.len() && keys[i] as u32 == k)
            implies #[trigger] zip_map(keys, vals).contains_key(k) by {
            let i = choose|i: int| 0 <= i < keys.len() && keys[i] as u32 == k;
            if i < keys.len() - 1 {
                assert(keys.drop_last()[i] as u32 == k);
                assert(zip_map(keys.drop_last(), vals.drop_last()).contains_key(k));
            }
        }
    }
}

/// A key character with no later duplicate maps to its aligned value.
pub proof fn lemma_zip_map_at(keys: Seq<char>, vals: Seq<Seq<char>>, i: int)
    requires
        keys.len() == vals.len(),
        0 <= i < keys.len(),
        forall|j: int| i < j < keys.len() ==> keys[j] != keys[i],
    ensures
        zip_map(keys, vals).contains_key(keys[i] as u32),
        zip_map(keys, vals)[keys[i] as u32] == vals[i],
    decreases keys.len(),
{
    assert(zip_map(keys, vals) == zip_map(keys.drop_last(), vals.drop_last()).insert(
        keys.last() as u32,
        vals.last(),
    ));
    if i == keys.len() - 1 {
        assert(keys.last() == keys[i]);
        assert(vals.last() == vals[i]);
    } else {
        assert(keys.drop_last()[i] == keys[i]);
        assert(vals.drop_last()[i] == vals[i]);
        assert(keys.last() == keys[keys.len() - 1]);
        assert(keys.last() != keys[i]);
        vstd::utf8::char_u32_cast(keys.last(), keys.last() as u32);
        vstd::utf8::char_u32_cast(keys[i], keys[i] as u32);
        assert(keys.last() as u32 != keys[i] as u32);
        lemma_zip_map_at(keys.drop_last(), vals.drop_last(), i);
    }
}

/// Every value of a zip mapping is one of the replacement entries.
pub proof fn lemma_zip_map_values(keys: Seq<char>, vals: Seq<Seq<char>>)
    requires
        keys.len() == vals.len(),
    ensures
        forall|k: u32| #[trigger] zip_map(keys, vals).contains_key(k) ==> exists|i: int|
            0 <= i < vals.len() && zip_map(keys, vals)[k] == vals[i],
    decreases keys.len(),
{
    if keys.len() == 0 {
        assert(zip_map(keys, vals) == Map::<u32, Seq<char>>::empty());
    } else {
        lemma_zip_map_values(keys.drop_last(), vals.drop_last());
        assert(zip_map(keys, vals) == zip_map(keys.drop_last(), vals.drop_last()).insert(
            keys.last() as u32,
            vals.last(),
        ));
        assert forall|k: u32| #[trigger] zip_map(keys, vals).contains_key(k) implies exists|i: int|
            0 <= i < vals.len() && zip_map(keys, vals)[k] == vals[i] by {
            if k == keys.last() as u32 {
                assert(zip_map(keys, vals)[k] == vals[vals.len() - 1]);
            } else {
                assert(zip_map(keys.drop_last(), vals.drop_last()).contains_key(k));
                let i = choose|i: int|
                    0 <= i < vals.drop_last().len() && zip_map(
                        keys.drop_last(),
                        vals.drop_last(),
                    )[k] == vals.drop_last()[i];
                assert(zip_map(keys, vals)[k] == vals[i]);
            }
        }
    }
}

/// The source characters of a method, in table order: ascii, then digits,
/// then katakana, for the classes its target selects.
pub open spec fn source_seq(m: Method) -> Seq<char> {
    match m {
        Method::FullToHalf(t) => match t {
            Target::All => full_ascii_seq() + full_digit_seq() + full_kana_seq(),
            Target::Ascii => full_ascii_seq(),
            Target::AsciiAndDigits => full_ascii_seq() + full_digit_seq(),
            Target::AsciiAndKana => full_ascii_seq() + full_kana_seq(),
            Target::Digits => full_digit_seq(),
            Target::DigitsAndKana => full_digit_seq() + full_kana_seq(),
            Target::Kana => full_kana_seq(),
        },
        Method::HalfToFull(t) => match t {
            Target::All => half_ascii_seq() + half_digit_seq() + half_kana_seion_seq(),
            Target::Ascii => half_ascii_seq(),
            Target::AsciiAndDigits => half_ascii_seq() + half_digit_seq(),
            Target::AsciiAndKana => half_ascii_seq() + half_kana_seion_seq(),
            Target::Digits => half_digit_seq(),
            Target::DigitsAndKana => half_digit_seq() + half_kana_seion_seq(),
            Target::Kana => half_kana_seion_seq(),
        },
        Method::HiraToHalfKana => hiragana_seq(),
        Method::HiraToKana => hiragana_seq(),
        Method::KanaToHira => full_kana_seq(),
    }
}

/// The replacement entries of a method, aligned with `source_seq`.
pub open spec fn value_seq(m: Method) -> Seq<Seq<char>> {
    match m {
        Method::FullToHalf(t) => match t {
            Target::All => lift(half_ascii_seq()) + lift(half_digit_seq()) + half_kana_entries(),
            Target::Ascii => lift(half_ascii_seq()),
            Target::AsciiAndDigits => lift(half_ascii_seq()) + lift(half_digit_seq()),
            Target::AsciiAndKana => lift(half_ascii_seq()) + half_kana_entries(),
            Target::Digits => lift(half_digit_seq()),
            Target::DigitsAndKana => lift(half_digit_seq()) + half_kana_entries(),
            Target::Kana => half_kana_entries(),
        },
        Method::HalfToFull(t) => match t {
            Target::All => lift(full_ascii_seq()) + lift(full_digit_seq()) + lift(
                full_kana_seion_seq(),
            ),
            Target::Ascii => lift(full_ascii_seq()),
            Target::AsciiAndDigits => lift(full_ascii_seq()) + lift(full_digit_seq()),
            Target::AsciiAndKana => lift(full_ascii_seq()) + lift(full_kana_seion_seq()),
            Target::Digits => lift(full_digit_seq()),
            Target::DigitsAndKana => lift(full_digit_seq()) + lift(full_kana_seion_seq()),
            Target::Kana => lift(full_kana_seion_seq()),
        },
        Method::HiraToHalfKana => half_kana_entries(),
        Method::HiraToKana => lift(full_kana_seq()),
        Method::KanaToHira => lift(hiragana_seq()),
    }
}

/// The conversion mapping of a method: each source code point beside its
/// replacement sequence.
pub open spec fn table_map(m: Method) -> Map<u32, Seq<char>> {
    zip_map(source_seq(m), value_seq(m))
}

/// The abstract content of an executable table: each key beside the
/// character sequence of its replacement string.
pub open spec fn map_view(t: Map<u32, String>) -> Map<u32, Seq<char>> {
    Map::new(|k: u32| t.dom().contains(k), |k: u32| t[k]@)
}

/// The source characters of a method's table.
fn source_chars(m: &Method) -> (v: Vec<char>)
    ensures
        v@ == source_seq(*m),
{
    match m {
        Method::FullToHalf(t) => match t {
            Target::All => {
                let mut v = full_ascii();
                v.append(&mut full_digit());
                v.append(&mut full_kana());
                v
            },
            Target::Ascii => full_ascii(),
            Target::AsciiAndDigits => {
                let mut v = full_ascii();
                v.append(&mut full_digit());
                v
            },
            Target::AsciiAndKana => {
                let mut v = full_ascii();
                v.append(&mut full_kana());
                v
            },
            Target::Digits => full_digit(),
            Target::DigitsAndKana => {
                let mut v = full_digit();
                v.append(&mut full_kana());
                v
            },
            Target::Kana => full_kana(),
        },
        Method::HalfToFull(t) => match t {
            Target::All => {
                let mut v = half_ascii();
                v.append(&mut half_digit());
                v.append(&mut half_kana_seion());
                v
            },
            Target::Ascii => half_ascii(),
            Target::AsciiAndDigits => {
                let mut v = half_ascii();
                v.append(&mut half_digit());
                v
            },
            Target::AsciiAndKana => {
                let mut v = half_ascii();
                v.append(&mut half_kana_seion());
                v
            },
            Target::Digits => half_digit(),
            Target::DigitsAndKana => {
                let mut v = half_digit();
                v.append(&mut half_kana_seion());
                v
            },
            Target::Kana => half_kana_seion(),
        },
        Method::HiraToHalfKana => hiragana(),
        Method::HiraToKana => hiragana(),
        Method::KanaToHira => full_kana(),
    }
}

/// The replacement strings of a method's table, aligned with `source_chars`.
fn value_strings(m: &Method) -> (v: Vec<String>)
    ensures
        v@.len() == value_seq(*m).len(),
        forall|i: int| 0 <= i < v@.len() ==> #[trigger] v@[i]@ == value_seq(*m)[i],
{
    match m {
        Method::FullToHalf(t) => match t {
            Target::All => {
                let mut v = strings_of_chars(&half_ascii());
                v.append(&mut strings_of_chars(&half_digit()));
                v.append(&mut half_kana());
                v
            },
            Target::Ascii => strings_of_chars(&half_ascii()),
            Target::AsciiAndDigits => {
                let mut v = strings_of_chars(&half_ascii());
                v.append(&mut strings_of_chars(&half_digit()));
                v
            },
            Target::AsciiAndKana => {
                let mut v = strings_of_chars(&half_ascii());
                v.append(&mut half_kana());
                v
            },
            Target::Digits => strings_of_chars(&half_digit()),
            Target::DigitsAndKana => {
                let mut v = strings_of_chars(&half_digit());
                v.append(&mut half_kana());
                v
            },
            Target::Kana => half_kana(),
        },
        Method::HalfToFull(t) => match t {
            Target::All => {
                let mut v = strings_of_chars(&full_ascii());
                v.append(&mut strings_of_chars(&full_digit()));
                v.append(&mut strings_of_chars(&full_kana_seion()));
                v
            },
            Target::Ascii => strings_of_chars(&full_ascii()),
            Target::AsciiAndDigits => {
                let mut v = strings_of_chars(&full_ascii());
                v.append(&mut strings_of_chars(&full_digit()));
                v
            },
            Target::AsciiAndKana => {
                let mut v = strings_of_chars(&full_ascii());
                v.append(&mut strings_of_chars(&full_kana_seion()));
                v
            },
            Target::Digits => strings_of_chars(&full_digit()),
            Target::DigitsAndKana => {
                let mut v = strings_of_chars(&full_digit());
                v.append(&mut strings_of_chars(&full_kana_seion()));
                v
            },
            Target::Kana => strings_of_chars(&full_kana_seion()),
        },
        Method::HiraToHalfKana => half_kana(),
        Method::HiraToKana => strings_of_chars(&full_kana()),
        Method::KanaToHira => strings_of_chars(&hiragana()),
    }
}

impl Method {
    /// The conversion table of this method, as a map from source code point
    /// to replacement string.
    pub fn table(&self) -> (t: HashMap<u32, String>)
        ensures
            map_view(t@) == table_map(*self),
    {
        let keys = source_chars(self);
        let vals = value_strings(self);
        let ghost m = *self;
        assert(keys@.len() == value_seq(m).len());
        let mut t: HashMap<u32, String> = HashMap::new();
        proof {
            assert(map_view(t@) =~= zip_map(keys@.take(0), value_seq(m).take(0)));
        }
        let mut i: usize = 0;
        while i < keys.len()
            invariant
                keys@ == source_seq(m),
                vals@.len() == keys@.len(),
                keys@.len() == value_seq(m).len(),
                forall|j: int| 0 <= j < vals@.len() ==> #[trigger] vals@[j]@ == value_seq(m)[j],
                i <= keys@.len(),
                map_view(t@) == zip_map(keys@.take(i as int), value_seq(m).take(i as int)),
            decreases keys@.len() - i,
        {
            let ghost prev = t@;
            let k = keys[i] as u32;
            t.insert(k, vals[i].clone());
            proof {
                let vi = value_seq(m)[i as int];
                assert(vals@[i as int]@ == vi);
                assert(t@ == prev.insert(k, vals@[i as int]));
                assert(map_view(t@) =~= map_view(prev).insert(k, vi));
                assert(keys@.take(i + 1 as int).drop_last() =~= keys@.take(i as int));
                assert(value_seq(m).take(i + 1 as int).drop_last() =~= value_seq(m).take(i as int));
                assert(keys@.take(i + 1 as int).last() == keys@[i as int]);
                assert(map_view(t@) == zip_map(keys@.take(i + 1 as int), value_seq(m).take(i + 1 as int)));
            }
            i += 1;
        }
        proof {
            assert(keys@.take(keys@.len() as int) =~= source_seq(m));
            assert(value_seq(m).take(keys@.len() as int) =~= value_seq(m));
        }
        t
    }
}

} // verus!
