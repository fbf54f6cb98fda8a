use kelp::conv_table::{Method, Target};
use kelp::ConvOption;

#[test]
fn test_target_all() {
    let option = ConvOption {
        ascii: true,
        digit: true,
        kana: true,
        ..Default::default()
    };
    assert_eq!(Target::from(&option), Target::All);
}

#[test]
fn test_target_ascii_only() {
    let option = ConvOption {
        ascii: true,
        ..Default::default()
    };
    assert_eq!(Target::from(&option), Target::Ascii);
}

#[test]
fn test_target_ascii_and_digits() {
    let option = ConvOption {
        ascii: true,
        digit: true,
        ..Default::default()
    };
    assert_eq!(Target::from(&option), Target::AsciiAndDigits);
}

#[test]
fn test_target_ascii_and_kana() {
    let option = ConvOption {
        ascii: true,
        kana: true,
        ..Default::default()
    };
    assert_eq!(Target::from(&option), Target::AsciiAndKana);
}

#[test]
fn test_target_digits_only() {
    let option = ConvOption {
        digit: true,
        ..Default::default()
    };
    assert_eq!(Target::from(&option), Target::Digits);
}

#[test]
fn test_target_digits_and_kana() {
    let option = ConvOption {
        digit: true,
        kana: true,
        ..Default::default()
    };
    assert_eq!(Target::from(&option), Target::DigitsAndKana);
}

#[test]
fn test_target_kana_only() {
    let option = ConvOption {
        ..Default::default()
    };
    assert_eq!(Target::from(&option), Target::Kana);
}

#[test]
fn test_full_to_half_all() {
    let table = Method::FullToHalf(Target::All).table();
    assert_eq!(189, table.len());
    assert_eq!(table.get(&65313).unwrap(), "A");
    assert_eq!(table.get(&65296).unwrap(), "0");
    assert_eq!(table.get(&12460).unwrap(), "ｶﾞ");
}

#[test]
fn test_full_to_half_ascii() {
    let table = Method::FullToHalf(Target::Ascii).table();
    assert_eq!(85, table.len());
    assert_eq!(table.get(&65314).unwrap(), "B");
    assert_eq!(table.get(&65297), None);
    assert_eq!(table.get(&12461), None);
}

#[test]
fn test_full_to_half_ascii_and_digits() {
    let table = Method::FullToHalf(Target::AsciiAndDigits).table();
    assert_eq!(95, table.len());
    assert_eq!(table.get(&65315).unwrap(), "C");
    assert_eq!(table.get(&65298).unwrap(), "2");
    assert_eq!(table.get(&12462), None);
}

#[test]
fn test_full_to_half_ascii_and_kana() {
    let table = Method::FullToHalf(Target::AsciiAndKana).table();
    assert_eq!(179, table.len());
    assert_eq!(table.get(&65316).unwrap(), "D");
    assert_eq!(table.get(&65299), None);
    assert_eq!(table.get(&12463).unwrap(), "ｸ");
}

#[test]
fn test_full_to_half_digits() {
    let table = Method::FullToHalf(Target::Digits).table();
    assert_eq!(10, table.len());
    assert_eq!(table.get(&65317), None);
    assert_eq!(table.get(&65300).unwrap(), "4");
    assert_eq!(table.get(&12464), None)
}

#[test]
fn test_full_to_half_digits_and_kana() {
    let table = Method::FullToHalf(Target::DigitsAndKana).table();
    assert_eq!(104, table.len());
    assert_eq!(table.get(&65318), None);
    assert_eq!(table.get(&65301).unwrap(), "5");
    assert_eq!(table.get(&12465).unwrap(), "ｹ");
}

#[test]
fn test_full_to_half_kana() {
    let table = Method::FullToHalf(Target::Kana).table();
    assert_eq!(94, table.len());
    assert_eq!(table.get(&65319), None);
    assert_eq!(table.get(&65302), None);
    assert_eq!(table.get(&12466).unwrap(), "ｹﾞ");
}

#[test]
fn test_half_to_full_all() {
    let table = Method::HalfToFull(Target::All).table();
    assert_eq!(163, table.len());
    assert_eq!(table.get(&97).unwrap(), "ａ");
    assert_eq!(table.get(&48).unwrap(), "０");
    assert_eq!(table.get(&65393).unwrap(), "ア");
}

#[test]
fn test_half_to_full_ascii() {
    let table = Method::HalfToFull(Target::Ascii).table();
    assert_eq!(85, table.len());
    assert_eq!(table.get(&98).unwrap(), "ｂ");
    assert_eq!(table.get(&49), None);
    assert_eq!(table.get(&65394), None);
}

#[test]
fn test_half_to_full_ascii_and_digits() {
    let table = Method::HalfToFull(Target::AsciiAndDigits).table();
    assert_eq!(95, table.len());
    assert_eq!(table.get(&99).unwrap(), "ｃ");
    assert_eq!(table.get(&50).unwrap(), "２");
    assert_eq!(table.get(&65395), None);
}

#[test]
fn test_half_to_full_ascii_and_kana() {
    let table = Method::HalfToFull(Target::AsciiAndKana).table();
    assert_eq!(153, table.len());
    assert_eq!(table.get(&100).unwrap(), "ｄ");
    assert_eq!(table.get(&51), None);
    assert_eq!(table.get(&65396).unwrap(), "エ");
}

#[test]
fn test_half_to_full_digits() {
    let table = Method::HalfToFull(Target::Digits).table();
    assert_eq!(10, table.len());
    assert_eq!(table.get(&101), None);
    assert_eq!(table.get(&52).unwrap(), "４");
    assert_eq!(table.get(&65397), None);
}

#[test]
fn test_half_to_full_digits_and_kana() {
    let table = Method::HalfToFull(Target::DigitsAndKana).table();
    assert_eq!(78, table.len());
    assert_eq!(table.get(&102), None);
    assert_eq!(table.get(&53).unwrap(), "５");
    assert_eq!(table.get(&65398).unwrap(), "カ");
}

#[test]
fn test_half_to_full_kana() {
    let table = Method::HalfToFull(Target::Kana).table();
    assert_eq!(68, table.len());
    assert_eq!(table.get(&103), None);
    assert_eq!(table.get(&54), None);
    assert_eq!(table.get(&65399).unwrap(), "キ");
}

#[test]
fn test_hiara_kana_hira_to_half_kana() {
    let table = Method::HiraToHalfKana.table();
    assert_eq!(94, table.len());
    assert_eq!(table.get(&12354).unwrap(), "ｱ");
}

#[test]
fn test_hira_kana_hira_to_kana() {
    let table = Method::HiraToKana.table();
    assert_eq!(94, table.len());
    assert_eq!(table.get(&12355).unwrap(), "ィ");
}

#[test]
fn test_hira_kana_kana_to_hira() {
    let table = Method::KanaToHira.table();
    assert_eq!(94, table.len());
    assert_eq!(table.get(&12531).unwrap(), "ん");
}
