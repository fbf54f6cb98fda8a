//! The conversion pass: applying a table to a string while honoring an
//! exclusion set, and the voiced-mark merge pre-pass.
use vstd::prelude::*;

use std::collections::HashMap;

use crate::charsets::{kana_pair_seq, map_kana};
use crate::conv_table::{map_view, table_map, target_spec, Method, Target};
use crate::text::{chars_of, chars_to_string};
use crate::ConvOption;

verus! {

broadcast use vstd::std_specs::hash::group_hash_axioms;

/// What one character becomes under a table and an exclusion sequence: its
/// replacement if the table has its code point and it is not excluded, and
/// the character itself otherwise.
pub open spec fn piece(c: char, table: Map<u32, Seq<char>>, ignore: Seq<char>) -> Seq<char> {
    if table.contains_key(c as u32) && !ignore.contains(c) {
        table[c as u32]
    } else {
        seq![c]
    }
}

/// The conversion of a character sequence: each character's piece, in order.
pub open spec fn convert_seq(
    text: Seq<char>,
    table: Map<u32, Seq<char>>,
    ignore: Seq<char>,
) -> Seq<char>
    decreases text.len(),
{
    if text.len() == 0 {
        Seq::empty()
    } else {
        piece(text[0], table, ignore) + convert_seq(text.drop_first(), table, ignore)
    }
}

/// Conversion distributes over concatenation.
pub proof fn lemma_convert_seq_concat(
    a: Seq<char>,
    b: Seq<char>,
    table: Map<u32, Seq<char>>,
    ignore: Seq<char>,
)
    ensures
        convert_seq(a + b, table, ignore) == convert_seq(a, table, ignore) + convert_seq(
            b,
            table,
            ignore,
        ),
    decreases a.len(),
{
    if a.len() == 0 {
        assert(a + b =~= b);
        assert(convert_seq(a, table, ignore) + convert_seq(b, table, ignore) =~= convert_seq(
            b,
            table,
            ignore,
        ));
    } else {
        assert((a + b).drop_first() =~= a.drop_first() + b);
        lemma_convert_seq_concat(a.drop_first(), b, table, ignore);
        assert((a + b)[0] == a[0]);
        assert(piece(a[0], table, ignore) + (convert_seq(a.drop_first(), table, ignore)
            + convert_seq(b, table, ignore)) =~= (piece(a[0], table, ignore) + convert_seq(
            a.drop_first(),
            table,
            ignore,
        )) + convert_seq(b, table, ignore));
    }
}

/// The conversion of a single character is its piece.
pub proof fn lemma_convert_seq_single(c: char, table: Map<u32, Seq<char>>, ignore: Seq<char>)
    ensures
        convert_seq(seq![c], table, ignore) == piece(c, table, ignore),
{
    let s = seq![c];
    assert(s.len() == 1);
    assert(s[0] == c);
    assert(s.drop_first() =~= Seq::<char>::empty());
    assert(convert_seq(s.drop_first(), table, ignore) == Seq::<char>::empty());
    assert(convert_seq(s, table, ignore) == piece(c, table, ignore) + Seq::<char>::empty());
    assert(piece(c, table, ignore) + Seq::<char>::empty() =~= piece(c, table, ignore));
}

/// When every table entry is a single character, conversion keeps the
/// length, and each output character is the piece of the input character at
/// the same position.
pub proof fn lemma_convert_seq_pointwise(
    text: Seq<char>,
    table: Map<u32, Seq<char>>,
    ignore: Seq<char>,
)
    requires
        forall|k: u32| #[trigger] table.contains_key(k) ==> table[k].len() == 1,
    ensures
        convert_seq(text, table, ignore).len() == text.len(),
        forall|i: int| 0 <= i < text.len() ==> convert_seq(text, table, ignore)[i] == piece(
            #[trigger] text[i],
            table,
            ignore,
        )[0],
    decreases text.len(),
{
    if text.len() == 0 {
    } else {
        lemma_convert_seq_pointwise(text.drop_first(), table, ignore);
        assert(piece(text[0], table, ignore).len() == 1);
        assert forall|i: int| 0 <= i < text.len() implies convert_seq(text, table, ignore)[i]
            == piece(#[trigger] text[i], table, ignore)[0] by {
            if i > 0 {
                assert(text.drop_first()[i - 1] == text[i]);
                assert(convert_seq(text, table, ignore)[i] == convert_seq(
                    text.drop_first(),
                    table,
                    ignore,
                )[i - 1]);
            }
        }
    }
}

/// Whether the vector holds the character.
fn contains_char(v: &Vec<char>, c: char) -> (r: bool)
    ensures
        r == v@.contains(c),
{
    let mut i: usize = 0;
    while i < v.len()
        invariant
            i <= v@.len(),
            forall|j: int| 0 <= j < i ==> v@[j] != c,
        decreases v@.len() - i,
    {
        if v[i] == c {
            return true;
        }
        i += 1;
    }
    false
}

/// Converts a string by table lookup, character by character: a character
/// whose code point the table maps, and which is not in the ignore string,
/// is replaced by its mapped string; every other character is kept.
pub fn convert(text: &str, table: HashMap<u32, String>, ignore: &str) -> (r: String)
    ensures
        r@ == convert_seq(text@, map_view(table@), ignore@),
{
    let tchars = chars_of(text);
    let ichars = chars_of(ignore);
    let mut out: Vec<char> = Vec::new();
    let mut i: usize = 0;
    while i < tchars.len()
        invariant
            tchars@ == text@,
            ichars@ == ignore@,
            i <= tchars@.len(),
            out@ == convert_seq(text@.take(i as int), map_view(table@), ignore@),
        decreases tchars@.len() - i,
    {
        let c = tchars[i];
        let excluded = contains_char(&ichars, c);
        let ord = c as u32;
        if excluded {
            out.push(c);
        } else {
            match table.get(&ord) {
                Some(s) => {
                    let mut sc = chars_of(s.as_str());
                    out.append(&mut sc);
                },
                None => {
                    out.push(c);
                },
            }
        }
        proof {
            assert(text@.take(i + 1 as int) =~= text@.take(i as int) + seq![text@[i as int]]);
            lemma_convert_seq_concat(
                text@.take(i as int),
                seq![text@[i as int]],
                map_view(table@),
                ignore@,
            );
            lemma_convert_seq_single(text@[i as int], map_view(table@), ignore@);
        }
        i += 1;
    }
    proof {
        assert(text@.take(tchars@.len() as int) =~= text@);
    }
    chars_to_string(&out)
}

/// One literal replacement pass: every non-overlapping occurrence of `pat`,
/// found left to right, replaced by `rep`.  An empty pattern replaces
/// nothing.
pub open spec fn replace_seq(text: Seq<char>, pat: Seq<char>, rep: Seq<char>) -> Seq<char>
    decreases text.len(),
{
    if pat.len() == 0 || text.len() < pat.len() {
        text
    } else if text.take(pat.len() as int) == pat {
        rep + replace_seq(text.skip(pat.len() as int), pat, rep)
    } else {
        seq![text[0]] + replace_seq(text.drop_first(), pat, rep)
    }
}

/// The replacement passes of all the pairs, applied in order.
pub open spec fn replace_all_seq(text: Seq<char>, pairs: Seq<(Seq<char>, Seq<char>)>) -> Seq<char>
    decreases pairs.len(),
{
    if pairs.len() == 0 {
        text
    } else {
        replace_all_seq(replace_seq(text, pairs[0].0, pairs[0].1), pairs.drop_first())
    }
}

/// The pattern and replacement character sequences of string pairs.
pub open spec fn pairs_view(pairs: Seq<(String, String)>) -> Seq<(Seq<char>, Seq<char>)> {
    Seq::new(pairs.len(), |i: int| (pairs[i].0@, pairs[i].1@))
}

/// Whether `pat` occurs in `text` at position `i`.
fn matches_at(text: &Vec<char>, i: usize, pat: &Vec<char>) -> (b: bool)
    requires
        i <= text@.len(),
    ensures
        b == (i + pat@.len() <= text@.len() && text@.subrange(
            i as int,
            i + pat@.len(),
        ) == pat@),
{
    let n = text.len();
    if pat.len() > n - i {
        return false;
    }
    let m = pat.len();
    let mut j: usize = 0;
    while j < m
        invariant
            n == text@.len(),
            m == pat@.len(),
            i + m <= n,
            j <= m,
            forall|k: int| 0 <= k < j ==> text@[i + k] == pat@[k],
        decreases m - j,
    {
        if text[i + j] != pat[j] {
            proof {
                assert(text@.subrange(i as int, i + pat@.len())[j as int] != pat@[j as int]);
            }
            return false;
        }
        j += 1;
    }
    proof {
        assert(text@.subrange(i as int, i + pat@.len()) =~= pat@);
    }
    true
}

/// One literal replacement pass over a character vector.
fn replace_chars(text: &Vec<char>, pat: &Vec<char>, rep: &Vec<char>) -> (r: Vec<char>)
    ensures
        r@ == replace_seq(text@, pat@, rep@),
{
    let mut out: Vec<char> = Vec::new();
    if pat.len() == 0 {
        let mut i: usize = 0;
        while i < text.len()
            invariant
                i <= text@.len(),
                out@ == text@.take(i as int),
            decreases text@.len() - i,
        {
            out.push(text[i]);
            proof {
                assert(text@.take(i + 1 as int) =~= text@.take(i as int).push(text@[i as int]));
            }
            i += 1;
        }
        proof {
            assert(text@.take(text@.len() as int) =~= text@);
        }
        return out;
    }
    proof {
        assert(text@.skip(0) =~= text@);
        assert(out@ + replace_seq(text@, pat@, rep@) =~= replace_seq(text@, pat@, rep@));
    }
    let mut i: usize = 0;
    while i < text.len()
        invariant
            pat@.len() >= 1,
            i <= text@.len(),
            replace_seq(text@, pat@, rep@) == out@ + replace_seq(
                text@.skip(i as int),
                pat@,
                rep@,
            ),
        decreases text@.len() - i,
    {
        let ghost rest = text@.skip(i as int);
        if matches_at(text, i, pat) {
            let ghost out0 = out@;
            let mut j: usize = 0;
            while j < rep.len()
                invariant
                    j <= rep@.len(),
                    out@ == out0 + rep@.take(j as int),
                decreases rep@.len() - j,
            {
                out.push(rep[j]);
                proof {
                    assert(rep@.take(j + 1 as int) =~= rep@.take(j as int).push(rep@[j as int]));
                }
                j += 1;
            }
            proof {
                assert(rep@.take(rep@.len() as int) =~= rep@);
                assert(rest.take(pat@.len() as int) =~= text@.subrange(
                    i as int,
                    i + pat@.len(),
                ));
                assert(rest.skip(pat@.len() as int) =~= text@.skip(i + pat@.len()));
            }
            i += pat.len();
        } else {
            out.push(text[i]);
            proof {
                if rest.len() >= pat@.len() {
                    assert(rest.take(pat@.len() as int) =~= text@.subrange(
                        i as int,
                        i + pat@.len(),
                    ));
                    assert(rest.take(pat@.len() as int) != pat@);
                }
                assert(rest[0] == text@[i as int]);
                assert(rest.drop_first() =~= text@.skip(i + 1));
                if rest.len() < pat@.len() {
                    assert(replace_seq(rest, pat@, rep@) == rest);
                    assert(rest =~= seq![rest[0]] + rest.drop_first());
                    assert(replace_seq(rest.drop_first(), pat@, rep@) == rest.drop_first());
                }
            }
            i += 1;
        }
    }
    proof {
        assert(text@.skip(text@.len() as int) =~= Seq::<char>::empty());
    }
    out
}

/// Applies each pair's literal replacement to the text, in order; the
/// merge pre-pass before a half-width-to-full-width katakana conversion.
pub fn before_convert(text: &str, pairs: Vec<(String, String)>) -> (r: String)
    ensures
        r@ == replace_all_seq(text@, pairs_view(pairs@)),
{
    let mut cur = chars_of(text);
    proof {
        assert(pairs_view(pairs@).skip(0) =~= pairs_view(pairs@));
    }
    let mut j: usize = 0;
    while j < pairs.len()
        invariant
            j <= pairs@.len(),
            replace_all_seq(text@, pairs_view(pairs@)) == replace_all_seq(
                cur@,
                pairs_view(pairs@).skip(j as int),
            ),
        decreases pairs@.len() - j,
    {
        let pc = chars_of(pairs[j].0.as_str());
        let rc = chars_of(pairs[j].1.as_str());
        let stepped = replace_chars(&cur, &pc, &rc);
        proof {
            let pv = pairs_view(pairs@);
            assert(pv.skip(j as int)[0] == pv[j as int]);
            assert(pv.skip(j as int).drop_first() =~= pv.skip(j + 1 as int));
        }
        cur = stepped;
        j += 1;
    }
    proof {
        assert(pairs_view(pairs@).skip(pairs@.len() as int) =~= Seq::<(
            Seq<char>,
            Seq<char>,
        )>::empty());
    }
    chars_to_string(&cur)
}

/// The result of converting hiragana to full-width katakana.
pub open spec fn hira2kata_seq(text: Seq<char>, ignore: Seq<char>) -> Seq<char> {
    convert_seq(text, table_map(Method::HiraToKana), ignore)
}

/// The result of converting hiragana to half-width katakana.
pub open spec fn hira2hkata_seq(text: Seq<char>, ignore: Seq<char>) -> Seq<char> {
    convert_seq(text, table_map(Method::HiraToHalfKana), ignore)
}

/// The result of converting full-width katakana to hiragana.
pub open spec fn kata2hira_seq(text: Seq<char>, ignore: Seq<char>) -> Seq<char> {
    convert_seq(text, table_map(Method::KanaToHira), ignore)
}

/// The result of converting half-width to full-width: the voiced-mark merge
/// pre-pass when katakana takes part, then the table pass.
pub open spec fn h2z_seq(
    text: Seq<char>,
    ascii: bool,
    digit: bool,
    kana: bool,
    ignore: Seq<char>,
) -> Seq<char> {
    let pre = if kana {
        replace_all_seq(text, kana_pair_seq())
    } else {
        text
    };
    convert_seq(pre, table_map(Method::HalfToFull(target_spec(ascii, digit, kana))), ignore)
}

/// The result of converting full-width to half-width.
pub open spec fn z2h_seq(
    text: Seq<char>,
    ascii: bool,
    digit: bool,
    kana: bool,
    ignore: Seq<char>,
) -> Seq<char> {
    convert_seq(text, table_map(Method::FullToHalf(target_spec(ascii, digit, kana))), ignore)
}

/// Convert from hiragana to full-width katakana.
pub fn hira2kata(text: &str, option: ConvOption) -> (r: String)
    ensures
        r@ == hira2kata_seq(text@, option.ignore@),
{
    let method = Method::HiraToKana;
    convert(text, method.table(), option.ignore.as_str())
}

/// Convert from hiragana to half-width katakana.
pub fn hira2hkata(text: &str, option: ConvOption) -> (r: String)
    ensures
        r@ == hira2hkata_seq(text@, option.ignore@),
{
    let method = Method::HiraToHalfKana;
    convert(text, method.table(), option.ignore.as_str())
}

/// Convert from full-width katakana to hiragana.
pub fn kata2hira(text: &str, option: ConvOption) -> (r: String)
    ensures
        r@ == kata2hira_seq(text@, option.ignore@),
{
    let method = Method::KanaToHira;
    convert(text, method.table(), option.ignore.as_str())
}

/// Convert from half-width to full-width.
pub fn h2z(text: &str, option: ConvOption) -> (r: String)
    ensures
        r@ == h2z_seq(text@, option.ascii, option.digit, option.kana, option.ignore@),
{
    let method = Method::HalfToFull(Target::from(&option));
    if option.kana {
        let pairs = map_kana();
        proof {
            assert(pairs_view(pairs@) =~~= kana_pair_seq());
        }
        let pre = before_convert(text, pairs);
        convert(pre.as_str(), method.table(), option.ignore.as_str())
    } else {
        convert(text, method.table(), option.ignore.as_str())
    }
}

/// Convert from full-width to half-width.
pub fn z2h(text: &str, option: ConvOption) -> (r: String)
    ensures
        r@ == z2h_seq(text@, option.ascii, option.digit, option.kana, option.ignore@),
{
    let method = Method::FullToHalf(Target::from(&option));
    convert(text, method.table(), option.ignore.as_str())
}

} // verus!
