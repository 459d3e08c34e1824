use vault_core::generator::{generate_password, Options};

#[test]
fn test_generate_password_length() {
    let opts = Options {
        length: 20,
        ..Default::default()
    };
    let password = generate_password(&opts);
    assert_eq!(password.len(), 20);
}

#[test]
fn test_generate_password_custom_chars() {
    let opts = Options {
        length: 10,
        upper: false,
        lower: false,
        digits: false,
        symbols: false,
        exclude_similar: false,
        custom_chars: Some("ABC".to_string()),
    };
    let password = generate_password(&opts);
    assert!(password.chars().all(|c| "ABC".contains(c)));
}

#[test]
fn test_generate_length_zero() {
    let opts = Options {
        length: 0,
        ..Default::default()
    };
    assert_eq!(generate_password(&opts), "");
}

#[test]
fn test_generate_lengths() {
    for len in [1usize, 2, 7, 16, 64, 255] {
        let opts = Options {
            length: len,
            ..Default::default()
        };
        assert_eq!(generate_password(&opts).chars().count(), len);
    }
}

#[test]
fn test_generate_charset_containment() {
    let opts = Options {
        length: 200,
        upper: false,
        lower: true,
        digits: true,
        symbols: false,
        exclude_similar: false,
        custom_chars: None,
    };
    let pool = "abcdefghijklmnopqrstuvwxyz0123456789";
    let password = generate_password(&opts);
    assert!(password.chars().all(|c| pool.contains(c)));
}

#[test]
fn test_generate_exclude_similar() {
    let opts = Options {
        length: 300,
        upper: true,
        lower: true,
        digits: true,
        symbols: false,
        exclude_similar: true,
        custom_chars: None,
    };
    let password = generate_password(&opts);
    assert_eq!(password.chars().count(), 300);
    for c in password.chars() {
        assert!(!"il1Lo0O".contains(c));
        assert!(c.is_ascii_alphanumeric());
    }
}

#[test]
fn test_generate_fallback_alphanumeric() {
    let opts = Options {
        length: 10,
        upper: false,
        lower: false,
        digits: false,
        symbols: false,
        exclude_similar: false,
        custom_chars: None,
    };
    let password = generate_password(&opts);
    assert_eq!(password.chars().count(), 10);
    assert!(password.chars().all(|c| c.is_ascii_alphanumeric()));
}

#[test]
fn test_generate_custom_chars_abc_ten() {
    let opts = Options {
        length: 10,
        upper: false,
        lower: false,
        digits: false,
        symbols: false,
        exclude_similar: false,
        custom_chars: Some("ABC".to_string()),
    };
    let password = generate_password(&opts);
    assert_eq!(password.chars().count(), 10);
    assert!(password.chars().all(|c| c == 'A' || c == 'B' || c == 'C'));
}

#[test]
fn test_default_options() {
    let opts = Options::default();
    assert_eq!(opts.length, 16);
    assert!(opts.upper && opts.lower && opts.digits && opts.symbols);
    assert!(!opts.exclude_similar);
    assert!(opts.custom_chars.is_none());
}

#[test]
fn test_generate_custom_prepended_with_classes() {
    // Custom characters widen the pool; the standard classes stay eligible.
    let opts = Options {
        length: 120,
        upper: false,
        lower: false,
        digits: true,
        symbols: false,
        exclude_similar: false,
        custom_chars: Some("xyz".to_string()),
    };
    let password = generate_password(&opts);
    assert!(password.chars().all(|c| "xyz0123456789".contains(c)));
}
