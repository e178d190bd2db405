use woxel::i18n::{tr, Lang};
use woxel::text::push_decimal;

#[test]
fn phrases_in_russian() {
    assert_eq!(tr(Lang::Ru, "panel"), "Панель Woxel");
    assert_eq!(tr(Lang::Ru, "open_panel"), "🛠 Открыть панель");
    assert_eq!(tr(Lang::Ru, "rules"), "📜 Правила");
    assert_eq!(tr(Lang::Ru, "help"), "ℹ️ Справка");
}

#[test]
fn phrases_in_english() {
    assert_eq!(tr(Lang::En, "panel"), "Woxel Panel");
    assert_eq!(tr(Lang::En, "open_panel"), "🛠 Open panel");
    assert_eq!(tr(Lang::En, "rules"), "📜 Rules");
    assert_eq!(tr(Lang::En, "help"), "ℹ️ Help");
}

#[test]
fn unknown_key_has_no_phrase() {
    for lang in [Lang::Ru, Lang::En] {
        assert_eq!(tr(lang, ""), "");
        assert_eq!(tr(lang, "Panel"), "");
        assert_eq!(tr(lang, "panel "), "");
        assert_eq!(tr(lang, "menu"), "");
    }
}

#[test]
fn decimal_notation_is_appended() {
    let cases = [
        (0, "0"),
        (7, "7"),
        (10, "10"),
        (105, "105"),
        (-1, "-1"),
        (-980, "-980"),
        (i32::MAX, "2147483647"),
        (i32::MIN, "-2147483648"),
    ];
    for (n, expected) in cases {
        let mut out = String::from("n=");
        push_decimal(&mut out, n as i64);
        assert_eq!(out, format!("n={expected}"));
    }
    let wide = [
        (i64::MAX, "9223372036854775807"),
        (i64::MIN, "-9223372036854775808"),
        (-1_000_000_000_000, "-1000000000000"),
    ];
    for (n, expected) in wide {
        let mut out = String::from("n=");
        push_decimal(&mut out, n);
        assert_eq!(out, format!("n={expected}"));
        assert_eq!(out, format!("n={n}"));
    }
}
