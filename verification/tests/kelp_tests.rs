use kelp::charsets::{hiragana, map_kana};
use kelp::conv_option::{ConvOption as MethodConvOption, ConvOptionBuilder};
use kelp::conv_table::{Method, Target};
use kelp::convert::{before_convert, convert};
use kelp::{h2z, hira2hkata, hira2kata, kata2hira, z2h, ConvOption};

#[test]
fn test_h2z_scenario_all() {
    let option = ConvOption {
        ascii: true,
        digit: true,
        kana: true,
        ..Default::default()
    };
    assert_eq!(h2z("ABCｱｲｳ012", option), "ＡＢＣアイウ０１２");
}

#[test]
fn test_z2h_scenario_all() {
    let option = ConvOption {
        ascii: true,
        digit: true,
        kana: true,
        ..Default::default()
    };
    assert_eq!(z2h("ＡＢＣアイウ０１２", option), "ABCｱｲｳ012");
}

#[test]
fn test_z2h_scenario_with_ignore() {
    let option = ConvOption {
        ascii: true,
        digit: true,
        kana: true,
        ignore: "Ａア０".to_string(),
    };
    assert_eq!(z2h("ＡＢＣアイウ０１２", option), "ＡBCアｲｳ０12");
}

#[test]
fn test_hira2kata_scenario_with_ignore() {
    let option = ConvOption {
        ignore: "かこ".to_string(),
        ..Default::default()
    };
    assert_eq!(hira2kata("かきくけこ", option), "かキクケこ");
}

#[test]
fn test_hira2hkata_scenario_with_ignore() {
    let option = ConvOption {
        ignore: "がご".to_string(),
        ..Default::default()
    };
    assert_eq!(hira2hkata("がぎぐげご", option), "がｷﾞｸﾞｹﾞご");
}

#[test]
fn test_h2z_scenario_with_ignore() {
    let option = ConvOption {
        ascii: true,
        digit: true,
        kana: true,
        ignore: "Aｱ0".to_string(),
    };
    assert_eq!(h2z("ABCｱｲｳ012", option), "AＢＣｱイウ0１２");
}

#[test]
fn test_empty_input() {
    assert_eq!(hira2kata("", ConvOption::default()), "");
    assert_eq!(kata2hira("", ConvOption::default()), "");
    let option = ConvOption {
        ascii: true,
        digit: true,
        kana: true,
        ..Default::default()
    };
    assert_eq!(h2z("", option), "");
}

#[test]
fn test_kanji_passes_through() {
    let option = ConvOption {
        ascii: true,
        digit: true,
        kana: true,
        ..Default::default()
    };
    assert_eq!(h2z("漢字はそのまま", option), "漢字はそのまま");
    let option = ConvOption {
        ascii: true,
        digit: true,
        kana: true,
        ..Default::default()
    };
    assert_eq!(z2h("漢字", option), "漢字");
}

#[test]
fn test_round_trip_hiragana() {
    let text = "かきくけこさしすせそ";
    let first = hira2kata(text, ConvOption::default());
    assert_eq!(kata2hira(&first, ConvOption::default()), text);
    let whole: String = hiragana().into_iter().collect();
    let first = hira2kata(&whole, ConvOption::default());
    assert_eq!(kata2hira(&first, ConvOption::default()), whole);
}

#[test]
fn test_convert_with_full_exclusion() {
    let table = Method::FullToHalf(Target::All).table();
    let text = "Ａ１アかx";
    assert_eq!(convert(text, table, text), text);
}

#[test]
fn test_ascii_only_leaves_digits_and_kana() {
    let option = ConvOption {
        ascii: true,
        ..Default::default()
    };
    assert_eq!(z2h("Ａ１ア", option), "A１ア");
    let option = ConvOption {
        ascii: true,
        ..Default::default()
    };
    assert_eq!(h2z("A1ｱ", option), "Ａ1ｱ");
}

#[test]
fn test_width_conversion_keeps_char_count() {
    let text = "ＡＢ０１xy漢";
    let option = ConvOption {
        ascii: true,
        digit: true,
        ..Default::default()
    };
    let out = z2h(text, option);
    assert_eq!(out.chars().count(), text.chars().count());
    let text = "AB01ｘｙ漢";
    let option = ConvOption {
        ascii: true,
        digit: true,
        ..Default::default()
    };
    let out = h2z(text, option);
    assert_eq!(out.chars().count(), text.chars().count());
}

#[test]
fn test_kana_conversion_changes_char_count() {
    let option = ConvOption {
        kana: true,
        ..Default::default()
    };
    // one full-width voiced katakana becomes a two-character sequence
    let out = z2h("ガ", option);
    assert_eq!(out, "ｶﾞ");
    assert_eq!(out.chars().count(), 2);
}

#[test]
fn test_before_convert_merges_voiced_pairs() {
    assert_eq!(before_convert("ｶﾞｷﾞ", map_kana()), "ガギ");
    assert_eq!(before_convert("ｱｲｳ", map_kana()), "ｱｲｳ");
}

#[test]
fn test_h2z_ignore_matches_post_merge_form() {
    // the merge pre-pass runs before the exclusion set is consulted, so a
    // voiced half-width pair is merged whatever the ignore string holds
    let option = ConvOption {
        kana: true,
        ignore: "ｶﾞ".to_string(),
        ..Default::default()
    };
    assert_eq!(h2z("ｶﾞ", option), "ガ");
    let option = ConvOption {
        kana: true,
        ignore: "ｶ".to_string(),
        ..Default::default()
    };
    assert_eq!(h2z("ｶ", option), "ｶ");
}

#[test]
fn test_builder_defaults() {
    let option = MethodConvOption::build().finalize();
    assert!(!option.convert_ascii());
    assert!(!option.convert_digit());
    assert!(!option.convert_kana());
    assert_eq!(0, option.ignore_chars().len());
}

#[test]
fn test_builder_flags() {
    let option = ConvOptionBuilder::new().ascii(true).finalize();
    assert!(option.convert_ascii());
    let option = ConvOptionBuilder::new().digit(true).finalize();
    assert!(option.convert_digit());
    let option = ConvOptionBuilder::new().kana(false).finalize();
    assert!(!option.convert_kana());
}

#[test]
fn test_builder_enable_disable() {
    let option = ConvOptionBuilder::new().enable_ascii().enable_digit().enable_kana().finalize();
    assert!(option.convert_ascii());
    assert!(option.convert_digit());
    assert!(option.convert_kana());
    let option = ConvOptionBuilder::new()
        .enable_ascii()
        .disable_ascii()
        .disable_digit()
        .disable_kana()
        .finalize();
    assert!(!option.convert_ascii());
    assert!(!option.convert_digit());
    assert!(!option.convert_kana());
}

#[test]
fn test_builder_ignore() {
    let option = ConvOptionBuilder::new().ignore("").finalize();
    assert_eq!(0, option.ignore_chars().len());
    let option = ConvOptionBuilder::new().ignore("あいう").finalize();
    assert_eq!(3, option.ignore_chars().len());
    assert_eq!(&vec!['あ', 'い', 'う'], option.ignore_chars());
}

#[test]
fn test_builder_chain() {
    let option = ConvOptionBuilder::new()
        .ascii(true)
        .digit(true)
        .ignore("あいう")
        .kana(true)
        .finalize();
    assert!(option.convert_ascii());
    assert!(option.convert_digit());
    assert_eq!(3, option.ignore_chars().len());
    assert!(option.convert_kana());
}
