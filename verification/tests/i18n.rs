use blog::i18n::I18N;

#[test]
fn langs_lists_every_language_once() {
    assert_eq!(I18N::En.langs(), vec![I18N::En, I18N::Pt]);
    assert_eq!(I18N::Pt.langs(), vec![I18N::En, I18N::Pt]);
}

#[test]
fn parse_ignores_ascii_case() {
    assert_eq!(I18N::parse("en"), Some(I18N::En));
    assert_eq!(I18N::parse("EN"), Some(I18N::En));
    assert_eq!(I18N::parse("En"), Some(I18N::En));
    assert_eq!(I18N::parse("pt"), Some(I18N::Pt));
    assert_eq!(I18N::parse("pT"), Some(I18N::Pt));
}

#[test]
fn parse_refuses_other_segments() {
    assert_eq!(I18N::parse(""), None);
    assert_eq!(I18N::parse("fr"), None);
    assert_eq!(I18N::parse("eng"), None);
    assert_eq!(I18N::parse("e"), None);
    assert_eq!(I18N::parse("ên"), None);
}

#[test]
fn names_read_back() {
    for l in I18N::En.langs() {
        assert_eq!(I18N::parse(l.name()), Some(l));
    }
    assert_eq!(I18N::En.name(), "En");
    assert_eq!(I18N::Pt.name(), "Pt");
}

#[test]
fn segment_defaults_to_english() {
    assert_eq!(I18N::from_path_segment(None), I18N::En);
    assert_eq!(I18N::from_path_segment(Some("xx".to_string())), I18N::En);
    assert_eq!(I18N::from_path_segment(Some("PT".to_string())), I18N::Pt);
    assert_eq!(I18N::default(), I18N::En);
}
