use serein::{discord_origin, hcaptcha_origin, qr_exchange_uri};

#[test]
fn discord_origin_is_plain_https_discord() {
    assert!(discord_origin("https://discord.com/login"));
    assert!(discord_origin("https://discord.com:443/login"));
    assert!(!discord_origin("http://discord.com/login"));
    assert!(!discord_origin("https://discord.com:8443/login"));
    assert!(!discord_origin("https://a:b@discord.com/login"));
    assert!(!discord_origin("https://canary.discord.com/login"));
    assert!(!discord_origin("not a url"));
}

#[test]
fn hcaptcha_origin_takes_subdomains_only() {
    assert!(hcaptcha_origin("https://hcaptcha.com/"));
    assert!(hcaptcha_origin("https://newassets.hcaptcha.com/captcha"));
    assert!(!hcaptcha_origin("https://evilhcaptcha.com/"));
    assert!(!hcaptcha_origin("https://hcaptcha.com.evil.test/"));
    assert!(!hcaptcha_origin("http://hcaptcha.com/"));
}

#[test]
fn qr_endpoint_needs_digits_and_exact_route() {
    assert!(qr_exchange_uri("https://discord.com/api/v123/users/@me/remote-auth/login"));
    assert!(!qr_exchange_uri("https://discord.com/api/v/users/@me/remote-auth/login"));
    assert!(!qr_exchange_uri("https://discord.com/api/v9/users/@me/remote-auth/login/x"));
    assert!(!qr_exchange_uri("https://discord.com/api/v9"));
    let long_ok = format!(
        "https://discord.com/api/v9/users/@me/remote-auth/login?{}",
        "x".repeat(2048 - 55)
    );
    assert_eq!(long_ok.len(), 2048);
    assert!(qr_exchange_uri(&long_ok));
    assert!(!qr_exchange_uri(&(long_ok + "x")));
}
