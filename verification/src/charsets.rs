//! The fixed character sets that the conversion tables are built from.
//!
//! Paired sets (the full-width and half-width variant of one class) have
//! the same length, entry by entry: the conversion tables rely on that
//! positional correspondence.
use vstd::prelude::*;

use crate::text::{single_char_string, two_char_string};

verus! {

/// Full-width ASCII letters and punctuation.
pub open spec fn full_ascii_seq() -> Seq<char> {
    seq![
        '！', '＂', '＃', '＄', '％', '＆', '＇', '（', '）', '＊',
        '＋', '，', '－', '．', '／', '：', '；', '＜', '＝', '＞',
        '？', '＠', 'Ａ', 'Ｂ', 'Ｃ', 'Ｄ', 'Ｅ', 'Ｆ', 'Ｇ', 'Ｈ',
        'Ｉ', 'Ｊ', 'Ｋ', 'Ｌ', 'Ｍ', 'Ｎ', 'Ｏ', 'Ｐ', 'Ｑ', 'Ｒ',
        'Ｓ', 'Ｔ', 'Ｕ', 'Ｖ', 'Ｗ', 'Ｘ', 'Ｙ', 'Ｚ', '［', '＼',
        '］', '＾', '＿', '｀', 'ａ', 'ｂ', 'ｃ', 'ｄ', 'ｅ', 'ｆ',
        'ｇ', 'ｈ', 'ｉ', 'ｊ', 'ｋ', 'ｌ', 'ｍ', 'ｎ', 'ｏ', 'ｐ',
        'ｑ', 'ｒ', 'ｓ', 'ｔ', 'ｕ', 'ｖ', 'ｗ', 'ｘ', 'ｙ', 'ｚ',
        '｛', '｜', '｝', '～', '　',
    ]
}

/// Full-width ASCII letters and punctuation.
#[verifier::rlimit(50)]
pub fn full_ascii() -> (v: Vec<char>)
    ensures
        v@ == full_ascii_seq(),
{
    let v: Vec<char> = vec![
        '！', '＂', '＃', '＄', '％', '＆', '＇', '（', '）', '＊',
        '＋', '，', '－', '．', '／', '：', '；', '＜', '＝', '＞',
        '？', '＠', 'Ａ', 'Ｂ', 'Ｃ', 'Ｄ', 'Ｅ', 'Ｆ', 'Ｇ', 'Ｈ',
        'Ｉ', 'Ｊ', 'Ｋ', 'Ｌ', 'Ｍ', 'Ｎ', 'Ｏ', 'Ｐ', 'Ｑ', 'Ｒ',
        'Ｓ', 'Ｔ', 'Ｕ', 'Ｖ', 'Ｗ', 'Ｘ', 'Ｙ', 'Ｚ', '［', '＼',
        '］', '＾', '＿', '｀', 'ａ', 'ｂ', 'ｃ', 'ｄ', 'ｅ', 'ｆ',
        'ｇ', 'ｈ', 'ｉ', 'ｊ', 'ｋ', 'ｌ', 'ｍ', 'ｎ', 'ｏ', 'ｐ',
        'ｑ', 'ｒ', 'ｓ', 'ｔ', 'ｕ', 'ｖ', 'ｗ', 'ｘ', 'ｙ', 'ｚ',
        '｛', '｜', '｝', '～', '　',
    ];
    v
}

/// Half-width ASCII letters and punctuation.
pub open spec fn half_ascii_seq() -> Seq<char> {
    seq![
        '!', '"', '#', '$', '%', '&', '\'', '(', ')', '*',
        '+', ',', '-', '.', '/', ':', ';', '<', '=', '>',
        '?', '@', 'A', 'B', 'C', 'D', 'E', 'F', 'G', 'H',
        'I', 'J', 'K', 'L', 'M', 'N', 'O', 'P', 'Q', 'R',
        'S', 'T', 'U', 'V', 'W', 'X', 'Y', 'Z', '[', '\\',
        ']', '^', '_', '`', 'a', 'b', 'c', 'd', 'e', 'f',
        'g', 'h', 'i', 'j', 'k', 'l', 'm', 'n', 'o', 'p',
        'q', 'r', 's', 't', 'u', 'v', 'w', 'x', 'y', 'z',
        '{', '|', '}', '~', ' ',
    ]
}

/// Half-width ASCII letters and punctuation.
#[verifier::rlimit(50)]
pub fn half_ascii() -> (v: Vec<char>)
    ensures
        v@ == half_ascii_seq(),
{
    let v: Vec<char> = vec![
        '!', '"', '#', '$', '%', '&', '\'', '(', ')', '*',
        '+', ',', '-', '.', '/', ':', ';', '<', '=', '>',
        '?', '@', 'A', 'B', 'C', 'D', 'E', 'F', 'G', 'H',
        'I', 'J', 'K', 'L', 'M', 'N', 'O', 'P', 'Q', 'R',
        'S', 'T', 'U', 'V', 'W', 'X', 'Y', 'Z', '[', '\\',
        ']', '^', '_', '`', 'a', 'b', 'c', 'd', 'e', 'f',
        'g', 'h', 'i', 'j', 'k', 'l', 'm', 'n', 'o', 'p',
        'q', 'r', 's', 't', 'u', 'v', 'w', 'x', 'y', 'z',
        '{', '|', '}', '~', ' ',
    ];
    v
}

/// Full-width digits.
pub open spec fn full_digit_seq() -> Seq<char> {
    seq![
        '０', '１', '２', '３', '４', '５', '６', '７', '８', '９',
    ]
}

/// Full-width digits.
pub fn full_digit() -> (v: Vec<char>)
    ensures
        v@ == full_digit_seq(),
{
    let v: Vec<char> = vec![
        '０', '１', '２', '３', '４', '５', '６', '７', '８', '９',
    ];
    v
}

/// Half-width digits.
pub open spec fn half_digit_seq() -> Seq<char> {
    seq![
        '0', '1', '2', '3', '4', '5', '6', '7', '8', '9',
    ]
}

/// Half-width digits.
pub fn half_digit() -> (v: Vec<char>)
    ensures
        v@ == half_digit_seq(),
{
    let v: Vec<char> = vec![
        '0', '1', '2', '3', '4', '5', '6', '7', '8', '9',
    ];
    v
}

/// Hiragana (full-width only).
pub open spec fn hiragana_seq() -> Seq<char> {
    seq![
        'ぁ', 'あ', 'ぃ', 'い', 'ぅ', 'う', 'ぇ', 'え', 'ぉ', 'お',
        'か', 'が', 'き', 'ぎ', 'く', 'ぐ', 'け', 'げ', 'こ', 'ご',
        'さ', 'ざ', 'し', 'じ', 'す', 'ず', 'せ', 'ぜ', 'そ', 'ぞ',
        'た', 'だ', 'ち', 'ぢ', 'っ', 'つ', 'づ', 'て', 'で', 'と',
        'ど', 'な', 'に', 'ぬ', 'ね', 'の', 'は', 'ば', 'ぱ', 'ひ',
        'び', 'ぴ', 'ふ', 'ぶ', 'ぷ', 'へ', 'べ', 'ぺ', 'ほ', 'ぼ',
        'ぽ', 'ま', 'み', 'む', 'め', 'も', 'ゃ', 'や', 'ゅ', 'ゆ',
        'ょ', 'よ', 'ら', 'り', 'る', 'れ', 'ろ', 'わ', 'を', 'ん',
        'ー', 'ゎ', 'ゐ', 'ゑ', 'ゕ', 'ゖ', 'ゔ', 'ゝ', 'ゞ', '・',
        '「', '」', '。', '、',
    ]
}

/// Hiragana (full-width only).
#[verifier::rlimit(50)]
pub fn hiragana() -> (v: Vec<char>)
    ensures
        v@ == hiragana_seq(),
{
    let v: Vec<char> = vec![
        'ぁ', 'あ', 'ぃ', 'い', 'ぅ', 'う', 'ぇ', 'え', 'ぉ', 'お',
        'か', 'が', 'き', 'ぎ', 'く', 'ぐ', 'け', 'げ', 'こ', 'ご',
        'さ', 'ざ', 'し', 'じ', 'す', 'ず', 'せ', 'ぜ', 'そ', 'ぞ',
        'た', 'だ', 'ち', 'ぢ', 'っ', 'つ', 'づ', 'て', 'で', 'と',
        'ど', 'な', 'に', 'ぬ', 'ね', 'の', 'は', 'ば', 'ぱ', 'ひ',
        'び', 'ぴ', 'ふ', 'ぶ', 'ぷ', 'へ', 'べ', 'ぺ', 'ほ', 'ぼ',
        'ぽ', 'ま', 'み', 'む', 'め', 'も', 'ゃ', 'や', 'ゅ', 'ゆ',
        'ょ', 'よ', 'ら', 'り', 'る', 'れ', 'ろ', 'わ', 'を', 'ん',
        'ー', 'ゎ', 'ゐ', 'ゑ', 'ゕ', 'ゖ', 'ゔ', 'ゝ', 'ゞ', '・',
        '「', '」', '。', '、',
    ];
    v
}

/// Full-width katakana.
pub open spec fn full_kana_seq() -> Seq<char> {
    seq![
        'ァ', 'ア', 'ィ', 'イ', 'ゥ', 'ウ', 'ェ', 'エ', 'ォ', 'オ',
        'カ', 'ガ', 'キ', 'ギ', 'ク', 'グ', 'ケ', 'ゲ', 'コ', 'ゴ',
        'サ', 'ザ', 'シ', 'ジ', 'ス', 'ズ', 'セ', 'ゼ', 'ソ', 'ゾ',
        'タ', 'ダ', 'チ', 'ヂ', 'ッ', 'ツ', 'ヅ', 'テ', 'デ', 'ト',
        'ド', 'ナ', 'ニ', 'ヌ', 'ネ', 'ノ', 'ハ', 'バ', 'パ', 'ヒ',
        'ビ', 'ピ', 'フ', 'ブ', 'プ', 'ヘ', 'ベ', 'ペ', 'ホ', 'ボ',
        'ポ', 'マ', 'ミ', 'ム', 'メ', 'モ', 'ャ', 'ヤ', 'ュ', 'ユ',
        'ョ', 'ヨ', 'ラ', 'リ', 'ル', 'レ', 'ロ', 'ワ', 'ヲ', 'ン',
        'ー', 'ヮ', 'ヰ', 'ヱ', 'ヵ', 'ヶ', 'ヴ', 'ヽ', 'ヾ', '・',
        '「', '」', '。', '、',
    ]
}

/// Full-width katakana.
#[verifier::rlimit(50)]
pub fn full_kana() -> (v: Vec<char>)
    ensures
        v@ == full_kana_seq(),
{
    let v: Vec<char> = vec![
        'ァ', 'ア', 'ィ', 'イ', 'ゥ', 'ウ', 'ェ', 'エ', 'ォ', 'オ',
        'カ', 'ガ', 'キ', 'ギ', 'ク', 'グ', 'ケ', 'ゲ', 'コ', 'ゴ',
        'サ', 'ザ', 'シ', 'ジ', 'ス', 'ズ', 'セ', 'ゼ', 'ソ', 'ゾ',
        'タ', 'ダ', 'チ', 'ヂ', 'ッ', 'ツ', 'ヅ', 'テ', 'デ', 'ト',
        'ド', 'ナ', 'ニ', 'ヌ', 'ネ', 'ノ', 'ハ', 'バ', 'パ', 'ヒ',
        'ビ', 'ピ', 'フ', 'ブ', 'プ', 'ヘ', 'ベ', 'ペ', 'ホ', 'ボ',
        'ポ', 'マ', 'ミ', 'ム', 'メ', 'モ', 'ャ', 'ヤ', 'ュ', 'ユ',
        'ョ', 'ヨ', 'ラ', 'リ', 'ル', 'レ', 'ロ', 'ワ', 'ヲ', 'ン',
        'ー', 'ヮ', 'ヰ', 'ヱ', 'ヵ', 'ヶ', 'ヴ', 'ヽ', 'ヾ', '・',
        '「', '」', '。', '、',
    ];
    v
}

/// Full-width katakana without voiced consonant marks.
pub open spec fn full_kana_seion_seq() -> Seq<char> {
    seq![
        'ァ', 'ア', 'ィ', 'イ', 'ゥ', 'ウ', 'ェ', 'エ', 'ォ', 'オ',
        'カ', 'キ', 'ク', 'ケ', 'コ', 'サ', 'シ', 'ス', 'セ', 'ソ',
        'タ', 'チ', 'ッ', 'ツ', 'テ', 'ト', 'ナ', 'ニ', 'ヌ', 'ネ',
        'ノ', 'ハ', 'ヒ', 'フ', 'ヘ', 'ホ', 'マ', 'ミ', 'ム', 'メ',
        'モ', 'ャ', 'ヤ', 'ュ', 'ユ', 'ョ', 'ヨ', 'ラ', 'リ', 'ル',
        'レ', 'ロ', 'ワ', 'ヲ', 'ン', 'ー', 'ヮ', 'ヰ', 'ヱ', 'ヵ',
        'ヶ', 'ヽ', 'ヾ', '・', '「', '」', '。', '、',
    ]
}

/// Full-width katakana without voiced consonant marks.
#[verifier::rlimit(50)]
pub fn full_kana_seion() -> (v: Vec<char>)
    ensures
        v@ == full_kana_seion_seq(),
{
    let v: Vec<char> = vec![
        'ァ', 'ア', 'ィ', 'イ', 'ゥ', 'ウ', 'ェ', 'エ', 'ォ', 'オ',
        'カ', 'キ', 'ク', 'ケ', 'コ', 'サ', 'シ', 'ス', 'セ', 'ソ',
        'タ', 'チ', 'ッ', 'ツ', 'テ', 'ト', 'ナ', 'ニ', 'ヌ', 'ネ',
        'ノ', 'ハ', 'ヒ', 'フ', 'ヘ', 'ホ', 'マ', 'ミ', 'ム', 'メ',
        'モ', 'ャ', 'ヤ', 'ュ', 'ユ', 'ョ', 'ヨ', 'ラ', 'リ', 'ル',
        'レ', 'ロ', 'ワ', 'ヲ', 'ン', 'ー', 'ヮ', 'ヰ', 'ヱ', 'ヵ',
        'ヶ', 'ヽ', 'ヾ', '・', '「', '」', '。', '、',
    ];
    v
}

/// Half-width katakana without voiced consonant marks.
pub open spec fn half_kana_seion_seq() -> Seq<char> {
    seq![
        'ｧ', 'ｱ', 'ｨ', 'ｲ', 'ｩ', 'ｳ', 'ｪ', 'ｴ', 'ｫ', 'ｵ',
        'ｶ', 'ｷ', 'ｸ', 'ｹ', 'ｺ', 'ｻ', 'ｼ', 'ｽ', 'ｾ', 'ｿ',
        'ﾀ', 'ﾁ', 'ｯ', 'ﾂ', 'ﾃ', 'ﾄ', 'ﾅ', 'ﾆ', 'ﾇ', 'ﾈ',
        'ﾉ', 'ﾊ', 'ﾋ', 'ﾌ', 'ﾍ', 'ﾎ', 'ﾏ', 'ﾐ', 'ﾑ', 'ﾒ',
        'ﾓ', 'ｬ', 'ﾔ', 'ｭ', 'ﾕ', 'ｮ', 'ﾖ', 'ﾗ', 'ﾘ', 'ﾙ',
        'ﾚ', 'ﾛ', 'ﾜ', 'ｦ', 'ﾝ', 'ｰ', 'ヮ', 'ヰ', 'ヱ', 'ヵ',
        'ヶ', 'ヽ', 'ヾ', '･', '｢', '｣', '｡', '､',
    ]
}

/// Half-width katakana without voiced consonant marks.
#[verifier::rlimit(50)]
pub fn half_kana_seion() -> (v: Vec<char>)
    ensures
        v@ == half_kana_seion_seq(),
{
    let v: Vec<char> = vec![
        'ｧ', 'ｱ', 'ｨ', 'ｲ', 'ｩ', 'ｳ', 'ｪ', 'ｴ', 'ｫ', 'ｵ',
        'ｶ', 'ｷ', 'ｸ', 'ｹ', 'ｺ', 'ｻ', 'ｼ', 'ｽ', 'ｾ', 'ｿ',
        'ﾀ', 'ﾁ', 'ｯ', 'ﾂ', 'ﾃ', 'ﾄ', 'ﾅ', 'ﾆ', 'ﾇ', 'ﾈ',
        'ﾉ', 'ﾊ', 'ﾋ', 'ﾌ', 'ﾍ', 'ﾎ', 'ﾏ', 'ﾐ', 'ﾑ', 'ﾒ',
        'ﾓ', 'ｬ', 'ﾔ', 'ｭ', 'ﾕ', 'ｮ', 'ﾖ', 'ﾗ', 'ﾘ', 'ﾙ',
        'ﾚ', 'ﾛ', 'ﾜ', 'ｦ', 'ﾝ', 'ｰ', 'ヮ', 'ヰ', 'ヱ', 'ヵ',
        'ヶ', 'ヽ', 'ヾ', '･', '｢', '｣', '｡', '､',
    ];
    v
}

/// Half-width katakana; voiced forms are two-character entries, the voiced
/// or semi-voiced sound mark trailing the base character.  A few characters
/// without any half-width form stay full-width.
pub open spec fn half_kana_entries() -> Seq<Seq<char>> {
    seq![
        seq!['ｧ'], seq!['ｱ'], seq!['ｨ'], seq!['ｲ'], seq!['ｩ'],
        seq!['ｳ'], seq!['ｪ'], seq!['ｴ'], seq!['ｫ'], seq!['ｵ'],
        seq!['ｶ'], seq!['ｶ', 'ﾞ'], seq!['ｷ'], seq!['ｷ', 'ﾞ'], seq!['ｸ'],
        seq!['ｸ', 'ﾞ'], seq!['ｹ'], seq!['ｹ', 'ﾞ'], seq!['ｺ'], seq!['ｺ', 'ﾞ'],
        seq!['ｻ'], seq!['ｻ', 'ﾞ'], seq!['ｼ'], seq!['ｼ', 'ﾞ'], seq!['ｽ'],
        seq!['ｽ', 'ﾞ'], seq!['ｾ'], seq!['ｾ', 'ﾞ'], seq!['ｿ'], seq!['ｿ', 'ﾞ'],
        seq!['ﾀ'], seq!['ﾀ', 'ﾞ'], seq!['ﾁ'], seq!['ﾁ', 'ﾞ'], seq!['ｯ'],
        seq!['ﾂ'], seq!['ﾂ', 'ﾞ'], seq!['ﾃ'], seq!['ﾃ', 'ﾞ'], seq!['ﾄ'],
        seq!['ﾄ', 'ﾞ'], seq!['ﾅ'], seq!['ﾆ'], seq!['ﾇ'], seq!['ﾈ'],
        seq!['ﾉ'], seq!['ﾊ'], seq!['ﾊ', 'ﾞ'], seq!['ﾊ', 'ﾟ'], seq!['ﾋ'],
        seq!['ﾋ', 'ﾞ'], seq!['ﾋ', 'ﾟ'], seq!['ﾌ'], seq!['ﾌ', 'ﾞ'], seq!['ﾌ', 'ﾟ'],
        seq!['ﾍ'], seq!['ﾍ', 'ﾞ'], seq!['ﾍ', 'ﾟ'], seq!['ﾎ'], seq!['ﾎ', 'ﾞ'],
        seq!['ﾎ', 'ﾟ'], seq!['ﾏ'], seq!['ﾐ'], seq!['ﾑ'], seq!['ﾒ'],
        seq!['ﾓ'], seq!['ｬ'], seq!['ﾔ'], seq!['ｭ'], seq!['ﾕ'],
        seq!['ｮ'], seq!['ﾖ'], seq!['ﾗ'], seq!['ﾘ'], seq!['ﾙ'],
        seq!['ﾚ'], seq!['ﾛ'], seq!['ﾜ'], seq!['ｦ'], seq!['ﾝ'],
        seq!['ｰ'], seq!['ヮ'], seq!['ヰ'], seq!['ヱ'], seq!['ヵ'],
        seq!['ヶ'], seq!['ｳ', 'ﾞ'], seq!['ヽ'], seq!['ヾ'], seq!['･'],
        seq!['｢'], seq!['｣'], seq!['｡'], seq!['､'],
    ]
}

/// Half-width katakana, one string per entry.
#[verifier::rlimit(50)]
pub fn half_kana() -> (v: Vec<String>)
    ensures
        v@.len() == half_kana_entries().len(),
        forall|i: int| 0 <= i < v@.len() ==> #[trigger] v@[i]@ == half_kana_entries()[i],
{
    let v: Vec<String> = vec![
        single_char_string('ｧ'),
        single_char_string('ｱ'),
        single_char_string('ｨ'),
        single_char_string('ｲ'),
        single_char_string('ｩ'),
        single_char_string('ｳ'),
        single_char_string('ｪ'),
        single_char_string('ｴ'),
        single_char_string('ｫ'),
        single_char_string('ｵ'),
        single_char_string('ｶ'),
        two_char_string('ｶ', 'ﾞ'),
        single_char_string('ｷ'),
        two_char_string('ｷ', 'ﾞ'),
        single_char_string('ｸ'),
        two_char_string('ｸ', 'ﾞ'),
        single_char_string('ｹ'),
        two_char_string('ｹ', 'ﾞ'),
        single_char_string('ｺ'),
        two_char_string('ｺ', 'ﾞ'),
        single_char_string('ｻ'),
        two_char_string('ｻ', 'ﾞ'),
        single_char_string('ｼ'),
        two_char_string('ｼ', 'ﾞ'),
        single_char_string('ｽ'),
        two_char_string('ｽ', 'ﾞ'),
        single_char_string('ｾ'),
        two_char_string('ｾ', 'ﾞ'),
        single_char_string('ｿ'),
        two_char_string('ｿ', 'ﾞ'),
        single_char_string('ﾀ'),
        two_char_string('ﾀ', 'ﾞ'),
        single_char_string('ﾁ'),
        two_char_string('ﾁ', 'ﾞ'),
        single_char_string('ｯ'),
        single_char_string('ﾂ'),
        two_char_string('ﾂ', 'ﾞ'),
        single_char_string('ﾃ'),
        two_char_string('ﾃ', 'ﾞ'),
        single_char_string('ﾄ'),
        two_char_string('ﾄ', 'ﾞ'),
        single_char_string('ﾅ'),
        single_char_string('ﾆ'),
        single_char_string('ﾇ'),
        single_char_string('ﾈ'),
        single_char_string('ﾉ'),
        single_char_string('ﾊ'),
        two_char_string('ﾊ', 'ﾞ'),
        two_char_string('ﾊ', 'ﾟ'),
        single_char_string('ﾋ'),
        two_char_string('ﾋ', 'ﾞ'),
        two_char_string('ﾋ', 'ﾟ'),
        single_char_string('ﾌ'),
        two_char_string('ﾌ', 'ﾞ'),
        two_char_string('ﾌ', 'ﾟ'),
        single_char_string('ﾍ'),
        two_char_string('ﾍ', 'ﾞ'),
        two_char_string('ﾍ', 'ﾟ'),
        single_char_string('ﾎ'),
        two_char_string('ﾎ', 'ﾞ'),
        two_char_string('ﾎ', 'ﾟ'),
        single_char_string('ﾏ'),
        single_char_string('ﾐ'),
        single_char_string('ﾑ'),
        single_char_string('ﾒ'),
        single_char_string('ﾓ'),
        single_char_string('ｬ'),
        single_char_string('ﾔ'),
        single_char_string('ｭ'),
        single_char_string('ﾕ'),
        single_char_string('ｮ'),
        single_char_string('ﾖ'),
        single_char_string('ﾗ'),
        single_char_string('ﾘ'),
        single_char_string('ﾙ'),
        single_char_string('ﾚ'),
        single_char_string('ﾛ'),
        single_char_string('ﾜ'),
        single_char_string('ｦ'),
        single_char_string('ﾝ'),
        single_char_string('ｰ'),
        single_char_string('ヮ'),
        single_char_string('ヰ'),
        single_char_string('ヱ'),
        single_char_string('ヵ'),
        single_char_string('ヶ'),
        two_char_string('ｳ', 'ﾞ'),
        single_char_string('ヽ'),
        single_char_string('ヾ'),
        single_char_string('･'),
        single_char_string('｢'),
        single_char_string('｣'),
        single_char_string('｡'),
        single_char_string('､'),
    ];
    v
}

/// The voiced-mark composition pairs: each two-character half-width voiced
/// or semi-voiced katakana sequence beside the single full-width character
/// it merges into.
pub open spec fn kana_pair_seq() -> Seq<(Seq<char>, Seq<char>)> {
    seq![
        (seq!['ｶ', 'ﾞ'], seq!['ガ']),
        (seq!['ｷ', 'ﾞ'], seq!['ギ']),
        (seq!['ｸ', 'ﾞ'], seq!['グ']),
        (seq!['ｹ', 'ﾞ'], seq!['ゲ']),
        (seq!['ｺ', 'ﾞ'], seq!['ゴ']),
        (seq!['ｻ', 'ﾞ'], seq!['ザ']),
        (seq!['ｼ', 'ﾞ'], seq!['ジ']),
        (seq!['ｽ', 'ﾞ'], seq!['ズ']),
        (seq!['ｾ', 'ﾞ'], seq!['ゼ']),
        (seq!['ｿ', 'ﾞ'], seq!['ゾ']),
        (seq!['ﾀ', 'ﾞ'], seq!['ダ']),
        (seq!['ﾁ', 'ﾞ'], seq!['ヂ']),
        (seq!['ﾂ', 'ﾞ'], seq!['ヅ']),
        (seq!['ﾃ', 'ﾞ'], seq!['デ']),
        (seq!['ﾄ', 'ﾞ'], seq!['ド']),
        (seq!['ﾊ', 'ﾞ'], seq!['バ']),
        (seq!['ﾋ', 'ﾞ'], seq!['ビ']),
        (seq!['ﾌ', 'ﾞ'], seq!['ブ']),
        (seq!['ﾍ', 'ﾞ'], seq!['ベ']),
        (seq!['ﾎ', 'ﾞ'], seq!['ボ']),
        (seq!['ﾊ', 'ﾟ'], seq!['パ']),
        (seq!['ﾋ', 'ﾟ'], seq!['ピ']),
        (seq!['ﾌ', 'ﾟ'], seq!['プ']),
        (seq!['ﾍ', 'ﾟ'], seq!['ペ']),
        (seq!['ﾎ', 'ﾟ'], seq!['ポ']),
        (seq!['ｳ', 'ﾞ'], seq!['ヴ']),
    ]
}

/// The voiced-mark composition pairs as strings.
#[verifier::rlimit(50)]
pub fn map_kana() -> (v: Vec<(String, String)>)
    ensures
        v@.len() == kana_pair_seq().len(),
        forall|i: int| 0 <= i < v@.len() ==> #[trigger] v@[i].0@ == kana_pair_seq()[i].0
            && v@[i].1@ == kana_pair_seq()[i].1,
{
    let v: Vec<(String, String)> = vec![
        (two_char_string('ｶ', 'ﾞ'), single_char_string('ガ')),
        (two_char_string('ｷ', 'ﾞ'), single_char_string('ギ')),
        (two_char_string('ｸ', 'ﾞ'), single_char_string('グ')),
        (two_char_string('ｹ', 'ﾞ'), single_char_string('ゲ')),
        (two_char_string('ｺ', 'ﾞ'), single_char_string('ゴ')),
        (two_char_string('ｻ', 'ﾞ'), single_char_string('ザ')),
        (two_char_string('ｼ', 'ﾞ'), single_char_string('ジ')),
        (two_char_string('ｽ', 'ﾞ'), single_char_string('ズ')),
        (two_char_string('ｾ', 'ﾞ'), single_char_string('ゼ')),
        (two_char_string('ｿ', 'ﾞ'), single_char_string('ゾ')),
        (two_char_string('ﾀ', 'ﾞ'), single_char_string('ダ')),
        (two_char_string('ﾁ', 'ﾞ'), single_char_string('ヂ')),
        (two_char_string('ﾂ', 'ﾞ'), single_char_string('ヅ')),
        (two_char_string('ﾃ', 'ﾞ'), single_char_string('デ')),
        (two_char_string('ﾄ', 'ﾞ'), single_char_string('ド')),
        (two_char_string('ﾊ', 'ﾞ'), single_char_string('バ')),
        (two_char_string('ﾋ', 'ﾞ'), single_char_string('ビ')),
        (two_char_string('ﾌ', 'ﾞ'), single_char_string('ブ')),
        (two_char_string('ﾍ', 'ﾞ'), single_char_string('ベ')),
        (two_char_string('ﾎ', 'ﾞ'), single_char_string('ボ')),
        (two_char_string('ﾊ', 'ﾟ'), single_char_string('パ')),
        (two_char_string('ﾋ', 'ﾟ'), single_char_string('ピ')),
        (two_char_string('ﾌ', 'ﾟ'), single_char_string('プ')),
        (two_char_string('ﾍ', 'ﾟ'), single_char_string('ペ')),
        (two_char_string('ﾎ', 'ﾟ'), single_char_string('ポ')),
        (two_char_string('ｳ', 'ﾞ'), single_char_string('ヴ')),
    ];
    v
}

/// The position of a character in the full-width ASCII table, and -1 for any other
/// character.
pub open spec fn full_ascii_index(c: char) -> int {
    if c == '！' {
        0
    } else if c == '＂' {
        1
    } else if c == '＃' {
        2
    } else if c == '＄' {
        3
    } else if c == '％' {
        4
    } else if c == '＆' {
        5
    } else if c == '＇' {
        6
    } else if c == '（' {
        7
    } else if c == '）' {
        8
    } else if c == '＊' {
        9
    } else if c == '＋' {
        10
    } else if c == '，' {
        11
    } else if c == '－' {
        12
    } else if c == '．' {
        13
    } else if c == '／' {
        14
    } else if c == '：' {
        15
    } else if c == '；' {
        16
    } else if c == '＜' {
        17
    } else if c == '＝' {
        18
    } else if c == '＞' {
        19
    } else if c == '？' {
        20
    } else if c == '＠' {
        21
    } else if c == 'Ａ' {
        22
    } else if c == 'Ｂ' {
        23
    } else if c == 'Ｃ' {
        24
    } else if c == 'Ｄ' {
        25
    } else if c == 'Ｅ' {
        26
    } else if c == 'Ｆ' {
        27
    } else if c == 'Ｇ' {
        28
    } else if c == 'Ｈ' {
        29
    } else if c == 'Ｉ' {
        30
    } else if c == 'Ｊ' {
        31
    } else if c == 'Ｋ' {
        32
    } else if c == 'Ｌ' {
        33
    } else if c == 'Ｍ' {
        34
    } else if c == 'Ｎ' {
        35
    } else if c == 'Ｏ' {
        36
    } else if c == 'Ｐ' {
        37
    } else if c == 'Ｑ' {
        38
    } else if c == 'Ｒ' {
        39
    } else if c == 'Ｓ' {
        40
    } else if c == 'Ｔ' {
        41
    } else if c == 'Ｕ' {
        42
    } else if c == 'Ｖ' {
        43
    } else if c == 'Ｗ' {
        44
    } else if c == 'Ｘ' {
        45
    } else if c == 'Ｙ' {
        46
    } else if c == 'Ｚ' {
        47
    } else if c == '［' {
        48
    } else if c == '＼' {
        49
    } else if c == '］' {
        50
    } else if c == '＾' {
        51
    } else if c == '＿' {
        52
    } else if c == '｀' {
        53
    } else if c == 'ａ' {
        54
    } else if c == 'ｂ' {
        55
    } else if c == 'ｃ' {
        56
    } else if c == 'ｄ' {
        57
    } else if c == 'ｅ' {
        58
    } else if c == 'ｆ' {
        59
    } else if c == 'ｇ' {
        60
    } else if c == 'ｈ' {
        61
    } else if c == 'ｉ' {
        62
    } else if c == 'ｊ' {
        63
    } else if c == 'ｋ' {
        64
    } else if c == 'ｌ' {
        65
    } else if c == 'ｍ' {
        66
    } else if c == 'ｎ' {
        67
    } else if c == 'ｏ' {
        68
    } else if c == 'ｐ' {
        69
    } else if c == 'ｑ' {
        70
    } else if c == 'ｒ' {
        71
    } else if c == 'ｓ' {
        72
    } else if c == 'ｔ' {
        73
    } else if c == 'ｕ' {
        74
    } else if c == 'ｖ' {
        75
    } else if c == 'ｗ' {
        76
    } else if c == 'ｘ' {
        77
    } else if c == 'ｙ' {
        78
    } else if c == 'ｚ' {
        79
    } else if c == '｛' {
        80
    } else if c == '｜' {
        81
    } else if c == '｝' {
        82
    } else if c == '～' {
        83
    } else if c == '　' {
        84
    } else {
        -1
    }
}

/// No character occurs twice in the full-width ASCII table.
pub proof fn lemma_full_ascii_distinct()
    ensures
        full_ascii_seq().no_duplicates(),
{
    assert forall|i: int| 0 <= i < full_ascii_seq().len() implies full_ascii_index(#[trigger] full_ascii_seq()[i])
        == i by {
    }
    assert forall|i: int, j: int|
        0 <= i < full_ascii_seq().len() && 0 <= j < full_ascii_seq().len() && i != j implies #[trigger] full_ascii_seq()[i]
        != #[trigger] full_ascii_seq()[j] by {
        if full_ascii_seq()[i] == full_ascii_seq()[j] {
            assert(full_ascii_index(full_ascii_seq()[i]) == i);
            assert(full_ascii_index(full_ascii_seq()[j]) == j);
        }
    }
}

/// The position of a character in the half-width ASCII table, and -1 for any other
/// character.
pub open spec fn half_ascii_index(c: char) -> int {
    if c == '!' {
        0
    } else if c == '"' {
        1
    } else if c == '#' {
        2
    } else if c == '$' {
        3
    } else if c == '%' {
        4
    } else if c == '&' {
        5
    } else if c == '\'' {
        6
    } else if c == '(' {
        7
    } else if c == ')' {
        8
    } else if c == '*' {
        9
    } else if c == '+' {
        10
    } else if c == ',' {
        11
    } else if c == '-' {
        12
    } else if c == '.' {
        13
    } else if c == '/' {
        14
    } else if c == ':' {
        15
    } else if c == ';' {
        16
    } else if c == '<' {
        17
    } else if c == '=' {
        18
    } else if c == '>' {
        19
    } else if c == '?' {
        20
    } else if c == '@' {
        21
    } else if c == 'A' {
        22
    } else if c == 'B' {
        23
    } else if c == 'C' {
        24
    } else if c == 'D' {
        25
    } else if c == 'E' {
        26
    } else if c == 'F' {
        27
    } else if c == 'G' {
        28
    } else if c == 'H' {
        29
    } else if c == 'I' {
        30
    } else if c == 'J' {
        31
    } else if c == 'K' {
        32
    } else if c == 'L' {
        33
    } else if c == 'M' {
        34
    } else if c == 'N' {
        35
    } else if c == 'O' {
        36
    } else if c == 'P' {
        37
    } else if c == 'Q' {
        38
    } else if c == 'R' {
        39
    } else if c == 'S' {
        40
    } else if c == 'T' {
        41
    } else if c == 'U' {
        42
    } else if c == 'V' {
        43
    } else if c == 'W' {
        44
    } else if c == 'X' {
        45
    } else if c == 'Y' {
        46
    } else if c == 'Z' {
        47
    } else if c == '[' {
        48
    } else if c == '\\' {
        49
    } else if c == ']' {
        50
    } else if c == '^' {
        51
    } else if c == '_' {
        52
    } else if c == '`' {
        53
    } else if c == 'a' {
        54
    } else if c == 'b' {
        55
    } else if c == 'c' {
        56
    } else if c == 'd' {
        57
    } else if c == 'e' {
        58
    } else if c == 'f' {
        59
    } else if c == 'g' {
        60
    } else if c == 'h' {
        61
    } else if c == 'i' {
        62
    } else if c == 'j' {
        63
    } else if c == 'k' {
        64
    } else if c == 'l' {
        65
    } else if c == 'm' {
        66
    } else if c == 'n' {
        67
    } else if c == 'o' {
        68
    } else if c == 'p' {
        69
    } else if c == 'q' {
        70
    } else if c == 'r' {
        71
    } else if c == 's' {
        72
    } else if c == 't' {
        73
    } else if c == 'u' {
        74
    } else if c == 'v' {
        75
    } else if c == 'w' {
        76
    } else if c == 'x' {
        77
    } else if c == 'y' {
        78
    } else if c == 'z' {
        79
    } else if c == '{' {
        80
    } else if c == '|' {
        81
    } else if c == '}' {
        82
    } else if c == '~' {
        83
    } else if c == ' ' {
        84
    } else {
        -1
    }
}

/// No character occurs twice in the half-width ASCII table.
pub proof fn lemma_half_ascii_distinct()
    ensures
        half_ascii_seq().no_duplicates(),
{
    assert forall|i: int| 0 <= i < half_ascii_seq().len() implies half_ascii_index(#[trigger] half_ascii_seq()[i])
        == i by {
    }
    assert forall|i: int, j: int|
        0 <= i < half_ascii_seq().len() && 0 <= j < half_ascii_seq().len() && i != j implies #[trigger] half_ascii_seq()[i]
        != #[trigger] half_ascii_seq()[j] by {
        if half_ascii_seq()[i] == half_ascii_seq()[j] {
            assert(half_ascii_index(half_ascii_seq()[i]) == i);
            assert(half_ascii_index(half_ascii_seq()[j]) == j);
        }
    }
}

/// The position of a character in the hiragana table, and -1 for any other
/// character.
pub open spec fn hiragana_index(c: char) -> int {
    if c == 'ぁ' {
        0
    } else if c == 'あ' {
        1
    } else if c == 'ぃ' {
        2
    } else if c == 'い' {
        3
    } else if c == 'ぅ' {
        4
    } else if c == 'う' {
        5
    } else if c == 'ぇ' {
        6
    } else if c == 'え' {
        7
    } else if c == 'ぉ' {
        8
    } else if c == 'お' {
        9
    } else if c == 'か' {
        10
    } else if c == 'が' {
        11
    } else if c == 'き' {
        12
    } else if c == 'ぎ' {
        13
    } else if c == 'く' {
        14
    } else if c == 'ぐ' {
        15
    } else if c == 'け' {
        16
    } else if c == 'げ' {
        17
    } else if c == 'こ' {
        18
    } else if c == 'ご' {
        19
    } else if c == 'さ' {
        20
    } else if c == 'ざ' {
        21
    } else if c == 'し' {
        22
    } else if c == 'じ' {
        23
    } else if c == 'す' {
        24
    } else if c == 'ず' {
        25
    } else if c == 'せ' {
        26
    } else if c == 'ぜ' {
        27
    } else if c == 'そ' {
        28
    } else if c == 'ぞ' {
        29
    } else if c == 'た' {
        30
    } else if c == 'だ' {
        31
    } else if c == 'ち' {
        32
    } else if c == 'ぢ' {
        33
    } else if c == 'っ' {
        34
    } else if c == 'つ' {
        35
    } else if c == 'づ' {
        36
    } else if c == 'て' {
        37
    } else if c == 'で' {
        38
    } else if c == 'と' {
        39
    } else if c == 'ど' {
        40
    } else if c == 'な' {
        41
    } else if c == 'に' {
        42
    } else if c == 'ぬ' {
        43
    } else if c == 'ね' {
        44
    } else if c == 'の' {
        45
    } else if c == 'は' {
        46
    } else if c == 'ば' {
        47
    } else if c == 'ぱ' {
        48
    } else if c == 'ひ' {
        49
    } else if c == 'び' {
        50
    } else if c == 'ぴ' {
        51
    } else if c == 'ふ' {
        52
    } else if c == 'ぶ' {
        53
    } else if c == 'ぷ' {
        54
    } else if c == 'へ' {
        55
    } else if c == 'べ' {
        56
    } else if c == 'ぺ' {
        57
    } else if c == 'ほ' {
        58
    } else if c == 'ぼ' {
        59
    } else if c == 'ぽ' {
        60
    } else if c == 'ま' {
        61
    } else if c == 'み' {
        62
    } else if c == 'む' {
        63
    } else if c == 'め' {
        64
    } else if c == 'も' {
        65
    } else if c == 'ゃ' {
        66
    } else if c == 'や' {
        67
    } else if c == 'ゅ' {
        68
    } else if c == 'ゆ' {
        69
    } else if c == 'ょ' {
        70
    } else if c == 'よ' {
        71
    } else if c == 'ら' {
        72
    } else if c == 'り' {
        73
    } else if c == 'る' {
        74
    } else if c == 'れ' {
        75
    } else if c == 'ろ' {
        76
    } else if c == 'わ' {
        77
    } else if c == 'を' {
        78
    } else if c == 'ん' {
        79
    } else if c == 'ー' {
        80
    } else if c == 'ゎ' {
        81
    } else if c == 'ゐ' {
        82
    } else if c == 'ゑ' {
        83
    } else if c == 'ゕ' {
        84
    } else if c == 'ゖ' {
        85
    } else if c == 'ゔ' {
        86
    } else if c == 'ゝ' {
        87
    } else if c == 'ゞ' {
        88
    } else if c == '・' {
        89
    } else if c == '「' {
        90
    } else if c == '」' {
        91
    } else if c == '。' {
        92
    } else if c == '、' {
        93
    } else {
        -1
    }
}

/// No character occurs twice in the hiragana table.
pub proof fn lemma_hiragana_distinct()
    ensures
        hiragana_seq().no_duplicates(),
{
    assert forall|i: int| 0 <= i < hiragana_seq().len() implies hiragana_index(#[trigger] hiragana_seq()[i])
        == i by {
    }
    assert forall|i: int, j: int|
        0 <= i < hiragana_seq().len() && 0 <= j < hiragana_seq().len() && i != j implies #[trigger] hiragana_seq()[i]
        != #[trigger] hiragana_seq()[j] by {
        if hiragana_seq()[i] == hiragana_seq()[j] {
            assert(hiragana_index(hiragana_seq()[i]) == i);
            assert(hiragana_index(hiragana_seq()[j]) == j);
        }
    }
}

/// The position of a character in the full-width katakana table, and -1 for any other
/// character.
pub open spec fn full_kana_index(c: char) -> int {
    if c == 'ァ' {
        0
    } else if c == 'ア' {
        1
    } else if c == 'ィ' {
        2
    } else if c == 'イ' {
        3
    } else if c == 'ゥ' {
        4
    } else if c == 'ウ' {
        5
    } else if c == 'ェ' {
        6
    } else if c == 'エ' {
        7
    } else if c == 'ォ' {
        8
    } else if c == 'オ' {
        9
    } else if c == 'カ' {
        10
    } else if c == 'ガ' {
        11
    } else if c == 'キ' {
        12
    } else if c == 'ギ' {
        13
    } else if c == 'ク' {
        14
    } else if c == 'グ' {
        15
    } else if c == 'ケ' {
        16
    } else if c == 'ゲ' {
        17
    } else if c == 'コ' {
        18
    } else if c == 'ゴ' {
        19
    } else if c == 'サ' {
        20
    } else if c == 'ザ' {
        21
    } else if c == 'シ' {
        22
    } else if c == 'ジ' {
        23
    } else if c == 'ス' {
        24
    } else if c == 'ズ' {
        25
    } else if c == 'セ' {
        26
    } else if c == 'ゼ' {
        27
    } else if c == 'ソ' {
        28
    } else if c == 'ゾ' {
        29
    } else if c == 'タ' {
        30
    } else if c == 'ダ' {
        31
    } else if c == 'チ' {
        32
    } else if c == 'ヂ' {
        33
    } else if c == 'ッ' {
        34
    } else if c == 'ツ' {
        35
    } else if c == 'ヅ' {
        36
    } else if c == 'テ' {
        37
    } else if c == 'デ' {
        38
    } else if c == 'ト' {
        39
    } else if c == 'ド' {
        40
    } else if c == 'ナ' {
        41
    } else if c == 'ニ' {
        42
    } else if c == 'ヌ' {
        43
    } else if c == 'ネ' {
        44
    } else if c == 'ノ' {
        45
    } else if c == 'ハ' {
        46
    } else if c == 'バ' {
        47
    } else if c == 'パ' {
        48
    } else if c == 'ヒ' {
        49
    } else if c == 'ビ' {
        50
    } else if c == 'ピ' {
        51
    } else if c == 'フ' {
        52
    } else if c == 'ブ' {
        53
    } else if c == 'プ' {
        54
    } else if c == 'ヘ' {
        55
    } else if c == 'ベ' {
        56
    } else if c == 'ペ' {
        57
    } else if c == 'ホ' {
        58
    } else if c == 'ボ' {
        59
    } else if c == 'ポ' {
        60
    } else if c == 'マ' {
        61
    } else if c == 'ミ' {
        62
    } else if c == 'ム' {
        63
    } else if c == 'メ' {
        64
    } else if c == 'モ' {
        65
    } else if c == 'ャ' {
        66
    } else if c == 'ヤ' {
        67
    } else if c == 'ュ' {
        68
    } else if c == 'ユ' {
        69
    } else if c == 'ョ' {
        70
    } else if c == 'ヨ' {
        71
    } else if c == 'ラ' {
        72
    } else if c == 'リ' {
        73
    } else if c == 'ル' {
        74
    } else if c == 'レ' {
        75
    } else if c == 'ロ' {
        76
    } else if c == 'ワ' {
        77
    } else if c == 'ヲ' {
        78
    } else if c == 'ン' {
        79
    } else if c == 'ー' {
        80
    } else if c == 'ヮ' {
        81
    } else if c == 'ヰ' {
        82
    } else if c == 'ヱ' {
        83
    } else if c == 'ヵ' {
        84
    } else if c == 'ヶ' {
        85
    } else if c == 'ヴ' {
        86
    } else if c == 'ヽ' {
        87
    } else if c == 'ヾ' {
        88
    } else if c == '・' {
        89
    } else if c == '「' {
        90
    } else if c == '」' {
        91
    } else if c == '。' {
        92
    } else if c == '、' {
        93
    } else {
        -1
    }
}

/// No character occurs twice in the full-width katakana table.
pub proof fn lemma_full_kana_distinct()
    ensures
        full_kana_seq().no_duplicates(),
{
    assert forall|i: int| 0 <= i < full_kana_seq().len() implies full_kana_index(#[trigger] full_kana_seq()[i])
        == i by {
    }
    assert forall|i: int, j: int|
        0 <= i < full_kana_seq().len() && 0 <= j < full_kana_seq().len() && i != j implies #[trigger] full_kana_seq()[i]
        != #[trigger] full_kana_seq()[j] by {
        if full_kana_seq()[i] == full_kana_seq()[j] {
            assert(full_kana_index(full_kana_seq()[i]) == i);
            assert(full_kana_index(full_kana_seq()[j]) == j);
        }
    }
}

/// The code-point ranges that the full-width ASCII table draws from.
pub open spec fn in_full_ascii_block(k: u32) -> bool {
    k == 0x3000
    || (0xFF01 <= k && k <= 0xFF0F)
    || (0xFF1A <= k && k <= 0xFF5E)
}

/// Every character of the full-width ASCII table lies in its block.
pub proof fn lemma_full_ascii_block()
    ensures
        forall|i: int| 0 <= i < full_ascii_seq().len() ==> in_full_ascii_block(
            (#[trigger] full_ascii_seq()[i]) as u32,
        ),
{
    assert forall|i: int| 0 <= i < full_ascii_seq().len() implies in_full_ascii_block(
        (#[trigger] full_ascii_seq()[i]) as u32,
    ) by {
    }
}

/// The code-point ranges that the full-width digit table draws from.
pub open spec fn in_full_digit_block(k: u32) -> bool {
    (0xFF10 <= k && k <= 0xFF19)
}

/// Every character of the full-width digit table lies in its block.
pub proof fn lemma_full_digit_block()
    ensures
        forall|i: int| 0 <= i < full_digit_seq().len() ==> in_full_digit_block(
            (#[trigger] full_digit_seq()[i]) as u32,
        ),
{
    assert forall|i: int| 0 <= i < full_digit_seq().len() implies in_full_digit_block(
        (#[trigger] full_digit_seq()[i]) as u32,
    ) by {
    }
}

/// The code-point ranges that the full-width katakana table draws from.
pub open spec fn in_full_kana_block(k: u32) -> bool {
    (0x3001 <= k && k <= 0x3002)
    || (0x300C <= k && k <= 0x300D)
    || (0x30A1 <= k && k <= 0x30F6)
    || (0x30FB <= k && k <= 0x30FE)
}

/// Every character of the full-width katakana table lies in its block.
pub proof fn lemma_full_kana_block()
    ensures
        forall|i: int| 0 <= i < full_kana_seq().len() ==> in_full_kana_block(
            (#[trigger] full_kana_seq()[i]) as u32,
        ),
{
    assert forall|i: int| 0 <= i < full_kana_seq().len() implies in_full_kana_block(
        (#[trigger] full_kana_seq()[i]) as u32,
    ) by {
    }
}

/// The code-point ranges that the half-width ASCII table draws from.
pub open spec fn in_half_ascii_block(k: u32) -> bool {
    (0x20 <= k && k <= 0x2F)
    || (0x3A <= k && k <= 0x7E)
}

/// Every character of the half-width ASCII table lies in its block.
pub proof fn lemma_half_ascii_block()
    ensures
        forall|i: int| 0 <= i < half_ascii_seq().len() ==> in_half_ascii_block(
            (#[trigger] half_ascii_seq()[i]) as u32,
        ),
{
    assert forall|i: int| 0 <= i < half_ascii_seq().len() implies in_half_ascii_block(
        (#[trigger] half_ascii_seq()[i]) as u32,
    ) by {
    }
}

/// The code-point ranges that the half-width digit table draws from.
pub open spec fn in_half_digit_block(k: u32) -> bool {
    (0x30 <= k && k <= 0x39)
}

/// Every character of the half-width digit table lies in its block.
pub proof fn lemma_half_digit_block()
    ensures
        forall|i: int| 0 <= i < half_digit_seq().len() ==> in_half_digit_block(
            (#[trigger] half_digit_seq()[i]) as u32,
        ),
{
    assert forall|i: int| 0 <= i < half_digit_seq().len() implies in_half_digit_block(
        (#[trigger] half_digit_seq()[i]) as u32,
    ) by {
    }
}

/// The code-point ranges that the half-width katakana (seion) table draws from.
pub open spec fn in_half_kana_seion_block(k: u32) -> bool {
    k == 0x30EE
    || (0x30F0 <= k && k <= 0x30F1)
    || (0x30F5 <= k && k <= 0x30F6)
    || (0x30FD <= k && k <= 0x30FE)
    || (0xFF61 <= k && k <= 0xFF9D)
}

/// Every character of the half-width katakana (seion) table lies in its block.
pub proof fn lemma_half_kana_seion_block()
    ensures
        forall|i: int| 0 <= i < half_kana_seion_seq().len() ==> in_half_kana_seion_block(
            (#[trigger] half_kana_seion_seq()[i]) as u32,
        ),
{
    assert forall|i: int| 0 <= i < half_kana_seion_seq().len() implies in_half_kana_seion_block(
        (#[trigger] half_kana_seion_seq()[i]) as u32,
    ) by {
    }
}

} // verus!
