use serein::secret::capability_from_bytes;
use serein::{new_capability, peek_script, SessionSecret};

#[test]
fn tokens_are_printable_ascii_without_spaces() {
    assert!(SessionSecret::from_owner_input("abc.DEF-123_~!".to_string()).is_ok());
    assert!(SessionSecret::from_owner_input(String::new()).is_err());
    assert!(SessionSecret::from_owner_input("a b".to_string()).is_err());
    assert!(SessionSecret::from_owner_input("tab\t".to_string()).is_err());
    assert!(SessionSecret::from_owner_input("é".to_string()).is_err());
    let secret = SessionSecret::from_owner_input("token".to_string()).unwrap();
    assert_eq!(secret.expose(), "token");
}

#[test]
fn capability_is_lowercase_hex_and_colon() {
    assert_eq!(capability_from_bytes(&[0x00, 0x0f, 0xa5, 0xff]), "000fa5ff:");
    assert_eq!(capability_from_bytes(&[]), ":");
    let fresh = new_capability().unwrap();
    assert_eq!(fresh.len(), 65);
    assert!(fresh.ends_with(':'));
    assert!(fresh[..64].bytes().all(|b| b.is_ascii_hexdigit() && !b.is_ascii_uppercase()));
    assert_ne!(fresh, new_capability().unwrap());
}

#[test]
fn peek_script_names_the_capability_without_colons() {
    let script = peek_script("00ff::");
    assert_eq!(
        script,
        format!(
            "(() => {{ if (window !== window.top || location.origin !== 'https://discord.com') return null; const peek = window['__serein_login_peek_{}']; if (typeof peek !== 'function') return null; const value = peek(); return typeof value === 'string' && value.length <= 2113 && /^[\\x21-\\x7e]+$/.test(value) ? value : null; }})()",
            "00ff"
        )
    );
}
