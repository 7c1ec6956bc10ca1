use smolbin::datatypes::PasteType;
use smolbin::expiry::{Expiry, ExpiryError};
use smolbin::form::{check_form, parse_selection, prepare_paste, prepare_paste_at, FormError};

#[test]
fn selection() {
    assert_eq!(parse_selection("0"), Some(PasteType::Text));
    assert_eq!(parse_selection("1"), Some(PasteType::Url));
    assert_eq!(parse_selection("2"), None);
    assert_eq!(parse_selection("01"), None);
    assert_eq!(parse_selection(""), None);
}

#[test]
fn empty_content_first() {
    assert_eq!(check_form("", "7", "junk"), Err(FormError::EmptyContent));
    assert_eq!(
        FormError::EmptyContent.message(),
        Some("Don't waste my storage".to_string())
    );
}

#[test]
fn unknown_type_is_silent() {
    assert_eq!(check_form("hi", "2", "0"), Err(FormError::UnknownPasteType));
    assert_eq!(FormError::UnknownPasteType.message(), None);
}

#[test]
fn links_must_have_a_scheme() {
    assert_eq!(check_form("example.com", "1", "0"), Err(FormError::InvalidUrl));
    assert_eq!(check_form("ftp://x", "1", "0"), Err(FormError::InvalidUrl));
    assert_eq!(check_form("http:/x", "1", "0"), Err(FormError::InvalidUrl));
    assert_eq!(
        check_form("http://example.com", "1", "0"),
        Ok((PasteType::Url, Expiry::ReadOnce))
    );
    assert_eq!(
        check_form("https://example.com", "1", "-1"),
        Ok((PasteType::Url, Expiry::Never))
    );
    assert_eq!(check_form("https://", "1", "2h"), Ok((PasteType::Url, Expiry::After(7200))));
    // Text may be anything.
    assert_eq!(check_form("example.com", "0", "0"), Ok((PasteType::Text, Expiry::ReadOnce)));
    assert_eq!(FormError::InvalidUrl.message(), Some("Invalid url".to_string()));
}

#[test]
fn url_checked_before_expiry() {
    assert_eq!(check_form("nope", "1", "junk"), Err(FormError::InvalidUrl));
}

#[test]
fn bad_expiry() {
    assert_eq!(
        check_form("hi", "0", "3q"),
        Err(FormError::Expiry(ExpiryError::Invalid))
    );
    assert_eq!(
        FormError::Expiry(ExpiryError::Invalid).message(),
        Some("Invalid expiry".to_string())
    );
    assert_eq!(
        check_form("hi", "0", ""),
        Err(FormError::Expiry(ExpiryError::EmptyPart))
    );
    assert_eq!(FormError::Expiry(ExpiryError::EmptyPart).message(), None);
    assert_eq!(
        FormError::Expiry(ExpiryError::Overflow).message(),
        Some("Invalid expiry".to_string())
    );
}

#[test]
fn prepared_at_a_moment() {
    let p = prepare_paste_at("hello", "0", "1h", 1_700_000_000).ok().unwrap();
    assert_eq!(p.content, "hello");
    assert_eq!(p.paste_type, PasteType::Text);
    assert_eq!(p.expiry, 1_700_003_600);
    let q = prepare_paste_at("https://a.b", "1", "-1", 1_700_000_000).ok().unwrap();
    assert_eq!(q.paste_type, PasteType::Url);
    assert_eq!(q.expiry, -1);
    assert_eq!(
        prepare_paste_at("x", "0", "9223372036854775807s", 0).err(),
        Some(FormError::OutOfRange)
    );
    // A century from late 2023 is beyond what the store keeps: refused, not
    // wrapped.
    assert_eq!(
        prepare_paste_at("hello", "0", "100y", 1_700_000_000).err(),
        Some(FormError::OutOfRange)
    );
    assert_eq!(
        prepare_paste_at("hello", "0", "20y", 1_700_000_000).err(),
        Some(FormError::OutOfRange)
    );
    assert_eq!(FormError::OutOfRange.message(), Some("Invalid expiry".to_string()));
    // Ten years fit.
    let p = prepare_paste_at("hello", "0", "10y", 1_700_000_000).ok().unwrap();
    assert_eq!(p.expiry, 1_700_000_000 + 315_360_000);
    // A moment before 1970 is kept as it is.
    let q = prepare_paste_at("hello", "0", "-100y", 1_700_000_000).ok().unwrap();
    assert_eq!(q.expiry, -1_453_600_000);
    assert_eq!(prepare_paste_at("", "0", "1h", 0).err(), Some(FormError::EmptyContent));
}

#[test]
fn prepared_now() {
    let p = prepare_paste("hello", "0", "0").ok().unwrap();
    assert_eq!(p.expiry, 0);
    let q = prepare_paste("hello", "0", "1d").ok().unwrap();
    // A day after a moment later than 2024-01-01.
    assert!(q.expiry > 1_704_067_200 + 86_400);
}
