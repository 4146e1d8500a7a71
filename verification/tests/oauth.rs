use rmcp::domain::errors::ErrorCode;
use rmcp::domain::value_objects::OAuthConfig;
use rmcp::infrastructure::oauth::{
    build_auth_url, generate_code_challenge, generate_code_verifier, generate_state, CallbackOutcome, CallbackWait,
    OAuthPlan, OAuthServiceImpl,
};
use rmcp::json::JsonValue;
use rmcp::strmap::StrMap;

fn env_of(pairs: &[(&str, &str)]) -> StrMap<String> {
    let mut m = StrMap::new();
    for (k, v) in pairs {
        m.insert(k.to_string(), v.to_string());
    }
    m
}

#[test]
fn test_generate_code_verifier() {
    let verifier = generate_code_verifier(32);
    assert_eq!(verifier.len(), 43);
}

#[test]
fn test_generate_code_challenge() {
    let verifier = "test_verifier";
    let challenge = generate_code_challenge(verifier);
    assert!(!challenge.is_empty());
    assert_ne!(challenge, verifier);
}

#[test]
fn test_build_auth_url() {
    let url = build_auth_url(
        "https://auth.example.com/authorize",
        "client123",
        "http://localhost:7777/callback",
        "state123",
        "challenge123",
        Some("read write"),
        &StrMap::new(),
    )
    .unwrap();

    assert!(url.contains("response_type=code"));
    assert!(url.contains("client_id=client123"));
    assert!(url.contains("state=state123"));
    assert!(url.contains("code_challenge=challenge123"));
    assert!(url.contains("scope=read+write"));
}

#[test]
fn challenge_of_known_verifier() {
    assert_eq!(
        generate_code_challenge("dBjftJeZ4CVP-mB92K27uhbUJU1p1r_wW1gFWFOEjXk"),
        "E9Melhoa2OwvFrEMTJguCHaoeK1t8URWbuGJSstw-cM"
    );
    assert_eq!(generate_code_challenge("test_verifier"), "0Ku4rR8EgR1w3HyHLBCxVLtPsAAks5HOlpmTEt0XhVA");
}

#[test]
fn verifier_and_state_lengths() {
    assert_eq!(generate_code_verifier(0).len(), 0);
    assert_eq!(generate_code_verifier(1).len(), 2);
    assert_eq!(generate_code_verifier(2).len(), 3);
    assert_eq!(generate_state(3).len(), 4);
    assert_eq!(generate_state(16).len(), 22);
    let a = generate_code_verifier(32);
    assert!(a.chars().all(|c| c.is_ascii_alphanumeric() || c == '-' || c == '_'));
}

#[test]
fn auth_url_exact() {
    let env = env_of(&[("SCOPE", "repo")]);
    let url = build_auth_url("https://a.example/auth", "c", "http://127.0.0.1:1/callback", "s", "ch", Some("$SCOPE"), &env)
        .unwrap();
    assert_eq!(
        url,
        "https://a.example/auth?response_type=code&client_id=c&redirect_uri=http%3A%2F%2F127.0.0.1%3A1%2Fcallback&scope=repo&state=s&code_challenge=ch&code_challenge_method=S256"
    );
    let url = build_auth_url("https://a.example/auth", "c", "r", "s", "ch", None, &env).unwrap();
    assert!(url.contains("scope=openid+profile"));
    assert!(build_auth_url("not a url", "c", "r", "s", "ch", None, &env).is_err());
}

#[test]
fn oauth_plans() {
    let env = env_of(&[("TOKEN", "abc")]);
    let mut cfg = OAuthConfig::default();
    assert!(matches!(OAuthServiceImpl::plan(&cfg, &env), OAuthPlan::NoAuth));
    cfg.client_id = Some("id".to_string());
    cfg.authorization_url = Some("https://a".to_string());
    assert!(matches!(OAuthServiceImpl::plan(&cfg, &env), OAuthPlan::NoAuth));
    let e = OAuthServiceImpl::flow_params(&cfg).unwrap_err();
    assert_eq!(e.code, ErrorCode::AuthFailed);
    assert_eq!(e.message, "Missing token_url");
    cfg.token_url = Some("https://t".to_string());
    assert!(matches!(OAuthServiceImpl::plan(&cfg, &env), OAuthPlan::Flow));
    let p = OAuthServiceImpl::flow_params(&cfg).unwrap();
    assert_eq!(p.client_id, "id");
    assert_eq!(p.token_url, "https://t");
    cfg.access_token = Some("Bearer ${TOKEN}".to_string());
    match OAuthServiceImpl::plan(&cfg, &env) {
        OAuthPlan::StaticToken(t) => assert_eq!(t, "Bearer abc"),
        _ => panic!("expected the configured token"),
    }
    let e = OAuthServiceImpl::flow_params(&OAuthConfig::default()).unwrap_err();
    assert_eq!(e.message, "Missing client_id");
}

#[test]
fn callback_handling() {
    assert_eq!(OAuthServiceImpl::callback_url(7777), "http://127.0.0.1:7777/callback");
    match OAuthServiceImpl::callback_outcome(Some("code1"), Some("st"), "st") {
        CallbackOutcome::Code(c) => assert_eq!(c, "code1"),
        CallbackOutcome::Failed(_) => panic!("expected a code"),
    }
    let bad = OAuthServiceImpl::callback_outcome(Some("code1"), Some("other"), "st");
    assert!(matches!(&bad, CallbackOutcome::Failed(m) if m == "State mismatch"));
    assert!(OAuthServiceImpl::callback_page(&bad).contains("State mismatch."));
    let none = OAuthServiceImpl::callback_outcome(None, Some("st"), "st");
    assert!(matches!(&none, CallbackOutcome::Failed(m) if m == "No code in callback"));
    assert!(OAuthServiceImpl::callback_page(&none).contains("No authorization code received."));
    let ok = CallbackOutcome::Code("x".to_string());
    assert!(OAuthServiceImpl::callback_page(&ok).contains("Authorization Complete"));
    assert_eq!(OAuthServiceImpl::code_from_wait(CallbackWait::Code("k".to_string())).unwrap(), "k");
    let e = OAuthServiceImpl::code_from_wait(CallbackWait::Error("denied".to_string())).unwrap_err();
    assert_eq!(e.message, "OAuth error: denied");
    let e = OAuthServiceImpl::code_from_wait(CallbackWait::TimedOut).unwrap_err();
    assert_eq!(e.message, "OAuth authorization timed out after 5 minutes");
}

#[test]
fn token_exchange() {
    let env = env_of(&[("CID", "client")]);
    let form = OAuthServiceImpl::token_request_form("code", "verifier", "http://r", "$CID", Some("sec"), &env);
    let expected: Vec<(String, String)> = vec![
        ("grant_type", "authorization_code"),
        ("code", "code"),
        ("redirect_uri", "http://r"),
        ("code_verifier", "verifier"),
        ("client_id", "client"),
        ("client_secret", "sec"),
    ]
    .into_iter()
    .map(|(a, b)| (a.to_string(), b.to_string()))
    .collect();
    assert_eq!(form, expected);
    assert_eq!(OAuthServiceImpl::token_request_form("c", "v", "r", "id", None, &env).len(), 5);
    assert_eq!(OAuthServiceImpl::token_exchange_failed("nope").message, "Token exchange failed: nope");
    let ok = JsonValue::Object(vec![("access_token".to_string(), JsonValue::Str("tok".to_string()))]);
    assert_eq!(OAuthServiceImpl::access_token_from(Ok(ok)).unwrap(), "tok");
    let e = OAuthServiceImpl::access_token_from(Ok(JsonValue::Object(vec![]))).unwrap_err();
    assert_eq!(e.message, "No access token in response");
    let e = OAuthServiceImpl::access_token_from(Err("eof".to_string())).unwrap_err();
    assert_eq!(e.message, "Failed to parse token response: eof");
}
