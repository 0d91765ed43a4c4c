use bouncer::http_server::{build_content_security_header, index_html};
use bouncer::token::{CsrfToken, TokenManager};
use bouncer::Domain;

#[test]
fn test_build_content_security_header() {
    fn case(domains: &[&str], expected: &str) {
        let domains = domains.iter().map(|s| Domain(s.to_string()));
        let got = build_content_security_header(domains.collect());
        assert_eq!(&got, expected);
    }

    case(
        &["walletconnect.com"],
        "frame-ancestors https://*.walletconnect.com https://walletconnect.com",
    );

    case(
        &["walletconnect.com", "vercel.app", "localhost"],
        "frame-ancestors https://*.walletconnect.com https://walletconnect.com \
                         https://*.vercel.app https://vercel.app \
                         http://*.localhost http://localhost",
    );
}

#[test]
fn generated_csrf_tokens_are_valid() {
    let tm = TokenManager::new(&[]);
    let token = tm.generate_csrf_token().unwrap();
    assert!(CsrfToken::validate_format(&token))
}

#[test]
fn csrf_validation_checks_jwt_header_and_payload() {
    let valid_header_invalid_payload =
        "eyJ0eXAiOiJKV1QiLCJhbGciOiJIUzI1NiJ9.<svg/onload=alert(document.domain)>";

    assert!(!CsrfToken::validate_format(valid_header_invalid_payload))
}

#[test]
fn index_html_embeds_the_token() {
    let html = index_html("tok123");
    assert_eq!(
        html,
        "<!-- index.html --><html><head><script src=\"/index.js?token=tok123\"></script></head></html>"
    );
}

#[test]
fn csp_header_with_no_domains_is_bare() {
    let got = build_content_security_header(Vec::new());
    assert_eq!(&got, "frame-ancestors");
}
