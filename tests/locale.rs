use makair_telemetry::locale::Locale;

const FR: u16 = 0x6672;

#[test]
fn from_str_fr() {
    assert_eq!(Locale::try_from_str("fr").map(|code| code.as_u16()), Ok(FR));
}

#[test]
fn from_str_empty() {
    assert!(Locale::try_from_str("").is_err())
}

#[test]
fn from_str_too_long() {
    assert!(Locale::try_from_str("fra").is_err())
}

#[test]
fn to_str() {
    assert_eq!(Locale(FR).to_string().as_str(), "fr")
}

#[test]
fn locale_back_and_forth() {
    for a in b'a'..=b'z' {
        for b in [b'a', b'm', b'z'].iter() {
            let s = String::from_utf8(vec![a, *b]).unwrap();
            let locale = Locale::try_from_str(&s).unwrap();
            assert_eq!(locale.to_string(), s);
            assert_eq!(Locale::try_from_u16(locale.as_u16()), Some(locale));
        }
    }
}

#[test]
fn locale_from_u16() {
    assert_eq!(Locale::try_from_u16(0x656e), Some(Locale::default()));
    assert_eq!(Locale::try_from_u16(0xffff), None);
    assert_eq!(Locale::try_from_u16(0xc3a9), Some(Locale(0xc3a9)));
    assert_eq!(Locale::default().as_usize(), 0x656e);
}
