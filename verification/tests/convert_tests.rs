use kelp::charsets::{
    full_ascii, full_digit, full_kana, half_ascii, half_digit, half_kana, hiragana,
};
use kelp::{h2z, hira2hkata, hira2kata, kata2hira, z2h, ConvOption};

fn chars_string(v: Vec<char>) -> String {
    v.into_iter().collect()
}

fn strings_string(v: Vec<String>) -> String {
    v.concat()
}

#[test]
fn test_hira2kata() {
    let before = chars_string(hiragana());
    let after = chars_string(full_kana());
    let option = ConvOption {
        ..Default::default()
    };
    assert_eq!(hira2kata(&before, option), after);
}

#[test]
fn test_hira2kata_with_ignore() {
    let before = chars_string(hiragana());
    let option = ConvOption {
        ignore: before.clone(),
        ..Default::default()
    };
    assert_eq!(hira2kata(&before, option), before);
}

#[test]
fn test_hira2hkata() {
    let before = chars_string(hiragana());
    let after = strings_string(half_kana());
    let option = ConvOption {
        ..Default::default()
    };
    assert_eq!(hira2hkata(&before, option), after);
}

#[test]
fn test_hira2hkata_with_ignore() {
    let before = chars_string(hiragana());
    let option = ConvOption {
        ignore: before.clone(),
        ..Default::default()
    };
    assert_eq!(hira2hkata(&before, option), before);
}

#[test]
fn test_kata2hira() {
    let before = chars_string(full_kana());
    let after = chars_string(hiragana());
    let option = ConvOption {
        ..Default::default()
    };
    assert_eq!(kata2hira(&before, option), after);
}

#[test]
fn test_kata2hira_with_ignore() {
    let before = chars_string(full_kana());
    let option = ConvOption {
        ignore: before.clone(),
        ..Default::default()
    };
    assert_eq!(kata2hira(&before, option), before);
}

#[test]
fn test_h2z_all() {
    let before = format!(
        "{}{}{}",
        chars_string(half_ascii()),
        chars_string(half_digit()),
        strings_string(half_kana())
    );
    let after = format!(
        "{}{}{}",
        chars_string(full_ascii()),
        chars_string(full_digit()),
        chars_string(full_kana())
    );
    let option = ConvOption {
        ascii: true,
        digit: true,
        kana: true,
        ..Default::default()
    };
    assert_eq!(h2z(&before, option), after);
}

#[test]
fn test_h2z_ascii() {
    let before = format!(
        "{}{}{}",
        chars_string(half_ascii()),
        chars_string(half_digit()),
        strings_string(half_kana())
    );
    let after = format!(
        "{}{}{}",
        chars_string(full_ascii()),
        chars_string(half_digit()),
        strings_string(half_kana())
    );
    let option = ConvOption {
        ascii: true,
        ..Default::default()
    };
    assert_eq!(h2z(&before, option), after);
}

#[test]
fn test_h2z_ascii_and_digits() {
    let before = format!(
        "{}{}{}",
        chars_string(half_ascii()),
        chars_string(half_digit()),
        strings_string(half_kana())
    );
    let after = format!(
        "{}{}{}",
        chars_string(full_ascii()),
        chars_string(full_digit()),
        strings_string(half_kana())
    );
    let option = ConvOption {
        ascii: true,
        digit: true,
        ..Default::default()
    };
    assert_eq!(h2z(&before, option), after);
}

#[test]
fn test_h2z_ascii_and_kana() {
    let before = format!(
        "{}{}{}",
        chars_string(half_ascii()),
        chars_string(half_digit()),
        strings_string(half_kana())
    );
    let after = format!(
        "{}{}{}",
        chars_string(full_ascii()),
        chars_string(half_digit()),
        chars_string(full_kana())
    );
    let option = ConvOption {
        ascii: true,
        kana: true,
        ..Default::default()
    };
    assert_eq!(h2z(&before, option), after);
}

#[test]
fn test_h2z_digits() {
    let before = format!(
        "{}{}{}",
        chars_string(half_ascii()),
        chars_string(half_digit()),
        strings_string(half_kana())
    );
    let after = format!(
        "{}{}{}",
        chars_string(half_ascii()),
        chars_string(full_digit()),
        strings_string(half_kana())
    );
    let option = ConvOption {
        digit: true,
        ..Default::default()
    };
    assert_eq!(h2z(&before, option), after);
}

#[test]
fn test_h2z_digits_and_kana() {
    let before = format!(
        "{}{}{}",
        chars_string(half_ascii()),
        chars_string(half_digit()),
        strings_string(half_kana())
    );
    let after = format!(
        "{}{}{}",
        chars_string(half_ascii()),
        chars_string(full_digit()),
        chars_string(full_kana())
    );
    let option = ConvOption {
        digit: true,
        kana: true,
        ..Default::default()
    };
    assert_eq!(h2z(&before, option), after);
}

#[test]
fn test_h2z_kana() {
    let before = format!(
        "{}{}{}",
        chars_string(half_ascii()),
        chars_string(half_digit()),
        strings_string(half_kana())
    );
    let after = format!(
        "{}{}{}",
        chars_string(half_ascii()),
        chars_string(half_digit()),
        chars_string(full_kana())
    );
    let option = ConvOption {
        kana: true,
        ..Default::default()
    };
    assert_eq!(h2z(&before, option), after);
}

#[test]
fn test_z2h_all() {
    let before = format!(
        "{}{}{}",
        chars_string(full_ascii()),
        chars_string(full_digit()),
        chars_string(full_kana())
    );
    let after = format!(
        "{}{}{}",
        chars_string(half_ascii()),
        chars_string(half_digit()),
        strings_string(half_kana())
    );
    let option = ConvOption {
        ascii: true,
        digit: true,
        kana: true,
        ..Default::default()
    };
    assert_eq!(z2h(&before, option), after);
}

#[test]
fn test_z2h_ascii() {
    let before = format!(
        "{}{}{}",
        chars_string(full_ascii()),
        chars_string(full_digit()),
        chars_string(full_kana())
    );
    let after = format!(
        "{}{}{}",
        chars_string(half_ascii()),
        chars_string(full_digit()),
        chars_string(full_kana())
    );
    let option = ConvOption {
        ascii: true,
        ..Default::default()
    };
    assert_eq!(z2h(&before, option), after);
}

#[test]
fn test_z2h_ascii_and_digits() {
    let before = format!(
        "{}{}{}",
        chars_string(full_ascii()),
        chars_string(full_digit()),
        chars_string(full_kana())
    );
    let after = format!(
        "{}{}{}",
        chars_string(half_ascii()),
        chars_string(half_digit()),
        chars_string(full_kana())
    );
    let option = ConvOption {
        ascii: true,
        digit: true,
        ..Default::default()
    };
    assert_eq!(z2h(&before, option), after);
}

#[test]
fn test_z2h_ascii_and_kana() {
    let before = format!(
        "{}{}{}",
        chars_string(full_ascii()),
        chars_string(full_digit()),
        chars_string(full_kana())
    );
    let after = format!(
        "{}{}{}",
        chars_string(half_ascii()),
        chars_string(full_digit()),
        strings_string(half_kana())
    );
    let option = ConvOption {
        ascii: true,
        kana: true,
        ..Default::default()
    };
    assert_eq!(z2h(&before, option), after);
}

#[test]
fn test_z2h_digits() {
    let before = format!(
        "{}{}{}",
        chars_string(full_ascii()),
        chars_string(full_digit()),
        chars_string(full_kana())
    );
    let after = format!(
        "{}{}{}",
        chars_string(full_ascii()),
        chars_string(half_digit()),
        chars_string(full_kana())
    );
    let option = ConvOption {
        digit: true,
        ..Default::default()
    };
    assert_eq!(z2h(&before, option), after);
}

#[test]
fn test_z2h_digits_and_kana() {
    let before = format!(
        "{}{}{}",
        chars_string(full_ascii()),
        chars_string(full_digit()),
        chars_string(full_kana())
    );
    let after = format!(
        "{}{}{}",
        chars_string(full_ascii()),
        chars_string(half_digit()),
        strings_string(half_kana())
    );
    let option = ConvOption {
        digit: true,
        kana: true,
        ..Default::default()
    };
    assert_eq!(z2h(&before, option), after);
}

#[test]
fn test_z2h_kana() {
    let before = format!(
        "{}{}{}",
        chars_string(full_ascii()),
        chars_string(full_digit()),
        chars_string(full_kana())
    );
    let after = format!(
        "{}{}{}",
        chars_string(full_ascii()),
        chars_string(full_digit()),
        strings_string(half_kana())
    );
    let option = ConvOption {
        kana: true,
        ..Default::default()
    };
    assert_eq!(z2h(&before, option), after);
}
