//! Properties of the conversions, stated over all inputs and proved once.
use vstd::prelude::*;

use crate::charsets::{
    full_ascii_seq, full_digit_seq, full_kana_seq, half_ascii_seq, half_digit_seq,
    half_kana_seion_seq, hiragana_seq, in_full_ascii_block, in_full_digit_block,
    in_full_kana_block, in_half_ascii_block, in_half_digit_block, in_half_kana_seion_block,
    lemma_full_ascii_block, lemma_full_ascii_distinct, lemma_full_digit_block,
    lemma_full_kana_block, lemma_full_kana_distinct, lemma_half_ascii_block,
    lemma_half_ascii_distinct, lemma_half_digit_block, lemma_half_kana_seion_block,
    lemma_hiragana_distinct,
};
use crate::conv_table::{
    lemma_zip_map_at, lemma_zip_map_dom, lemma_zip_map_values, lift, source_seq, table_map,
    target_spec, value_seq, zip_map, Method, Target,
};
use crate::convert::{
    convert_seq, h2z_seq, hira2kata_seq, kata2hira_seq, lemma_convert_seq_concat,
    lemma_convert_seq_pointwise, lemma_convert_seq_single, piece, z2h_seq,
};

verus! {

/// Converting a text whose characters all stand in the exclusion sequence
/// returns the text unchanged, whatever the table.
pub proof fn lemma_convert_all_ignored(
    text: Seq<char>,
    table: Map<u32, Seq<char>>,
    ignore: Seq<char>,
)
    requires
        forall|i: int| 0 <= i < text.len() ==> ignore.contains(#[trigger] text[i]),
    ensures
        convert_seq(text, table, ignore) == text,
    decreases text.len(),
{
    if text.len() == 0 {
        assert(convert_seq(text, table, ignore) =~= text);
    } else {
        assert(ignore.contains(text[0]));
        assert forall|i: int| 0 <= i < text.drop_first().len() implies ignore.contains(
            #[trigger] text.drop_first()[i],
        ) by {
            assert(text.drop_first()[i] == text[i + 1]);
        }
        lemma_convert_all_ignored(text.drop_first(), table, ignore);
        assert(seq![text[0]] + text.drop_first() =~= text);
    }
}

/// A text whose characters' code points all lie outside the table passes
/// through unchanged, whatever the exclusion sequence.
pub proof fn lemma_convert_pass_through(
    text: Seq<char>,
    table: Map<u32, Seq<char>>,
    ignore: Seq<char>,
)
    requires
        forall|i: int| 0 <= i < text.len() ==> !table.contains_key(
            (#[trigger] text[i]) as u32,
        ),
    ensures
        convert_seq(text, table, ignore) == text,
    decreases text.len(),
{
    if text.len() == 0 {
        assert(convert_seq(text, table, ignore) =~= text);
    } else {
        assert(!table.contains_key(text[0] as u32));
        assert forall|i: int| 0 <= i < text.drop_first().len() implies !table.contains_key(
            (#[trigger] text.drop_first()[i]) as u32,
        ) by {
            assert(text.drop_first()[i] == text[i + 1]);
        }
        lemma_convert_pass_through(text.drop_first(), table, ignore);
        assert(seq![text[0]] + text.drop_first() =~= text);
    }
}

/// Every replacement entry of a method whose table pairs one character with
/// one character has length one.
proof fn lemma_zip_single_valued(keys: Seq<char>, vals: Seq<Seq<char>>)
    requires
        keys.len() == vals.len(),
        forall|i: int| 0 <= i < vals.len() ==> #[trigger] vals[i].len() == 1,
    ensures
        forall|k: u32| #[trigger] zip_map(keys, vals).contains_key(k) ==> zip_map(
            keys,
            vals,
        )[k].len() == 1,
{
    lemma_zip_map_values(keys, vals);
}

/// Width conversion restricted to ascii and digits keeps the number of
/// characters: every replacement in those tables is a single character.
/// This does not hold once katakana takes part.
pub proof fn lemma_width_conversion_keeps_len(
    text: Seq<char>,
    ascii: bool,
    digit: bool,
    ignore: Seq<char>,
)
    requires
        ascii || digit,
    ensures
        z2h_seq(text, ascii, digit, false, ignore).len() == text.len(),
        h2z_seq(text, ascii, digit, false, ignore).len() == text.len(),
{
    let t = target_spec(ascii, digit, false);
    let f2h = Method::FullToHalf(t);
    let h2f = Method::HalfToFull(t);
    assert(t == Target::Ascii || t == Target::AsciiAndDigits || t == Target::Digits);
    assert(source_seq(f2h).len() == value_seq(f2h).len());
    assert(source_seq(h2f).len() == value_seq(h2f).len());
    assert forall|i: int| 0 <= i < value_seq(f2h).len() implies #[trigger] value_seq(f2h)[i].len()
        == 1 by {
    }
    assert forall|i: int| 0 <= i < value_seq(h2f).len() implies #[trigger] value_seq(h2f)[i].len()
        == 1 by {
    }
    lemma_zip_single_valued(source_seq(f2h), value_seq(f2h));
    lemma_zip_single_valued(source_seq(h2f), value_seq(h2f));
    lemma_convert_seq_pointwise(text, table_map(f2h), ignore);
    lemma_convert_seq_pointwise(text, table_map(h2f), ignore);
}

/// Converting hiragana to full-width katakana and back, with nothing
/// excluded, returns the original text, for any text drawn entirely from
/// the hiragana table.
pub proof fn lemma_hira_kata_round_trip(text: Seq<char>)
    requires
        forall|i: int| 0 <= i < text.len() ==> hiragana_seq().contains(#[trigger] text[i]),
    ensures
        kata2hira_seq(hira2kata_seq(text, Seq::empty()), Seq::empty()) == text,
    decreases text.len(),
{
    let h2k = table_map(Method::HiraToKana);
    let k2h = table_map(Method::KanaToHira);
    let none = Seq::<char>::empty();
    if text.len() == 0 {
        assert(kata2hira_seq(hira2kata_seq(text, none), none) =~= text);
    } else {
        let c = text[0];
        let rest = text.drop_first();
        assert(hiragana_seq().contains(c));
        let i = choose|i: int| 0 <= i < hiragana_seq().len() && hiragana_seq()[i] == c;
        lemma_hiragana_distinct();
        lemma_full_kana_distinct();
        lemma_zip_map_at(hiragana_seq(), lift(full_kana_seq()), i);
        let kc = full_kana_seq()[i];
        assert(lift(full_kana_seq())[i] == seq![kc]);
        assert(h2k[c as u32] == seq![kc]);
        assert(piece(c, h2k, none) == seq![kc]);
        lemma_zip_map_at(full_kana_seq(), lift(hiragana_seq()), i);
        assert(lift(hiragana_seq())[i] == seq![c]);
        assert(piece(kc, k2h, none) == seq![c]);
        assert forall|j: int| 0 <= j < rest.len() implies hiragana_seq().contains(
            #[trigger] rest[j],
        ) by {
            assert(rest[j] == text[j + 1]);
        }
        lemma_hira_kata_round_trip(rest);
        assert(convert_seq(text, h2k, none) == piece(c, h2k, none) + convert_seq(
            rest,
            h2k,
            none,
        ));
        lemma_convert_seq_concat(seq![kc], convert_seq(rest, h2k, none), k2h, none);
        lemma_convert_seq_single(kc, k2h, none);
        assert(kata2hira_seq(hira2kata_seq(text, none), none) == seq![c] + kata2hira_seq(
            hira2kata_seq(rest, none),
            none,
        ));
        assert(seq![c] + rest =~= text);
    }
}

/// Full-width-to-half-width conversion with only ascii selected: characters
/// outside the full-width ASCII table pass through unchanged, and each
/// full-width ASCII character becomes its half-width counterpart, position
/// by position.
pub proof fn lemma_z2h_ascii_only(text: Seq<char>)
    requires
        forall|i: int| 0 <= i < text.len() ==> full_ascii_seq().contains(#[trigger] text[i])
            || full_digit_seq().contains(text[i]) || full_kana_seq().contains(text[i]),
    ensures
        z2h_seq(text, true, false, false, Seq::empty()).len() == text.len(),
        forall|i: int| 0 <= i < text.len() && !full_ascii_seq().contains(#[trigger] text[i])
            ==> z2h_seq(text, true, false, false, Seq::empty())[i] == text[i],
        forall|i: int, j: int|
            0 <= i < text.len() && 0 <= j < full_ascii_seq().len() && #[trigger] text[i]
                == #[trigger] full_ascii_seq()[j] ==> z2h_seq(
                text,
                true,
                false,
                false,
                Seq::empty(),
            )[i] == half_ascii_seq()[j],
{
    let none = Seq::<char>::empty();
    let table = table_map(Method::FullToHalf(Target::Ascii));
    assert(target_spec(true, false, false) == Target::Ascii);
    assert(full_ascii_seq().len() == lift(half_ascii_seq()).len());
    assert forall|i: int| 0 <= i < lift(half_ascii_seq()).len() implies #[trigger] lift(
        half_ascii_seq(),
    )[i].len() == 1 by {
    }
    lemma_zip_single_valued(full_ascii_seq(), lift(half_ascii_seq()));
    lemma_convert_seq_pointwise(text, table, none);
    lemma_zip_map_dom(full_ascii_seq(), lift(half_ascii_seq()));
    lemma_full_ascii_block();
    lemma_full_digit_block();
    lemma_full_kana_block();
    lemma_full_ascii_distinct();
    assert forall|i: int|
        0 <= i < text.len() && !full_ascii_seq().contains(#[trigger] text[i]) implies z2h_seq(
        text,
        true,
        false,
        false,
        none,
    )[i] == text[i] by {
        let c = text[i];
        if full_digit_seq().contains(c) {
            let j = choose|j: int| 0 <= j < full_digit_seq().len() && full_digit_seq()[j] == c;
            assert(in_full_digit_block(c as u32));
        } else {
            let j = choose|j: int| 0 <= j < full_kana_seq().len() && full_kana_seq()[j] == c;
            assert(in_full_kana_block(c as u32));
        }
        if table.contains_key(c as u32) {
            let j = choose|j: int|
                0 <= j < full_ascii_seq().len() && full_ascii_seq()[j] as u32 == c as u32;
            assert(in_full_ascii_block(full_ascii_seq()[j] as u32));
            assert(false);
        }
        assert(piece(c, table, none) == seq![c]);
    }
    assert forall|i: int, j: int|
        0 <= i < text.len() && 0 <= j < full_ascii_seq().len() && #[trigger] text[i]
            == #[trigger] full_ascii_seq()[j] implies z2h_seq(text, true, false, false, none)[i]
        == half_ascii_seq()[j] by {
        lemma_zip_map_at(full_ascii_seq(), lift(half_ascii_seq()), j);
        assert(lift(half_ascii_seq())[j] == seq![half_ascii_seq()[j]]);
        assert(piece(text[i], table, none) == seq![half_ascii_seq()[j]]);
    }
}

/// Half-width-to-full-width conversion with only ascii selected: characters
/// outside the half-width ASCII table pass through unchanged, and each
/// half-width ASCII character becomes its full-width counterpart, position
/// by position.
pub proof fn lemma_h2z_ascii_only(text: Seq<char>)
    requires
        forall|i: int| 0 <= i < text.len() ==> half_ascii_seq().contains(#[trigger] text[i])
            || half_digit_seq().contains(text[i]) || half_kana_seion_seq().contains(text[i]),
    ensures
        h2z_seq(text, true, false, false, Seq::empty()).len() == text.len(),
        forall|i: int| 0 <= i < text.len() && !half_ascii_seq().contains(#[trigger] text[i])
            ==> h2z_seq(text, true, false, false, Seq::empty())[i] == text[i],
        forall|i: int, j: int|
            0 <= i < text.len() && 0 <= j < half_ascii_seq().len() && #[trigger] text[i]
                == #[trigger] half_ascii_seq()[j] ==> h2z_seq(
                text,
                true,
                false,
                false,
                Seq::empty(),
            )[i] == full_ascii_seq()[j],
{
    let none = Seq::<char>::empty();
    let table = table_map(Method::HalfToFull(Target::Ascii));
    assert(target_spec(true, false, false) == Target::Ascii);
    assert(half_ascii_seq().len() == lift(full_ascii_seq()).len());
    assert forall|i: int| 0 <= i < lift(full_ascii_seq()).len() implies #[trigger] lift(
        full_ascii_seq(),
    )[i].len() == 1 by {
    }
    lemma_zip_single_valued(half_ascii_seq(), lift(full_ascii_seq()));
    lemma_convert_seq_pointwise(text, table, none);
    lemma_zip_map_dom(half_ascii_seq(), lift(full_ascii_seq()));
    lemma_half_ascii_block();
    lemma_half_digit_block();
    lemma_half_kana_seion_block();
    lemma_half_ascii_distinct();
    assert forall|i: int|
        0 <= i < text.len() && !half_ascii_seq().contains(#[trigger] text[i]) implies h2z_seq(
        text,
        true,
        false,
        false,
        none,
    )[i] == text[i] by {
        let c = text[i];
        if half_digit_seq().contains(c) {
            let j = choose|j: int| 0 <= j < half_digit_seq().len() && half_digit_seq()[j] == c;
            assert(in_half_digit_block(c as u32));
        } else {
            let j = choose|j: int|
                0 <= j < half_kana_seion_seq().len() && half_kana_seion_seq()[j] == c;
            assert(in_half_kana_seion_block(c as u32));
        }
        if table.contains_key(c as u32) {
            let j = choose|j: int|
                0 <= j < half_ascii_seq().len() && half_ascii_seq()[j] as u32 == c as u32;
            assert(in_half_ascii_block(half_ascii_seq()[j] as u32));
            assert(false);
        }
        assert(piece(c, table, none) == seq![c]);
    }
    assert forall|i: int, j: int|
        0 <= i < text.len() && 0 <= j < half_ascii_seq().len() && #[trigger] text[i]
            == #[trigger] half_ascii_seq()[j] implies h2z_seq(text, true, false, false, none)[i]
        == full_ascii_seq()[j] by {
        lemma_zip_map_at(half_ascii_seq(), lift(full_ascii_seq()), j);
        assert(lift(full_ascii_seq())[j] == seq![full_ascii_seq()[j]]);
        assert(piece(text[i], table, none) == seq![full_ascii_seq()[j]]);
    }
}

} // verus!
