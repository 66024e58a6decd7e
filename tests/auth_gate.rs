use forecast::auth::{authorize, decide, AuthDecision, Rejection};

fn assert_challenge(d: &AuthDecision) {
    match d {
        AuthDecision::Unauthorized(r) => {
            assert_eq!(r.status, 401);
            assert_eq!(r.header_name, "WWW-Authenticate");
            assert_eq!(r.header_value, "Basic realm=\"Please enter your credentials\"");
            assert_eq!(r.body, "Unauthorized");
        }
        AuthDecision::Authorized => panic!("access was granted"),
    }
}

#[test]
fn right_credential_is_authorized() {
    let d = authorize(Some("Basic Zm9yZWNhc3Q6Zm9yZWNhc3Q="));
    assert!(matches!(d, AuthDecision::Authorized));
}

#[test]
fn wrong_credential_is_challenged() {
    assert_challenge(&authorize(Some("Basic d3Jvbmc6d3Jvbmc=")));
}

#[test]
fn missing_header_is_challenged() {
    assert_challenge(&authorize(None));
}

#[test]
fn malformed_base64_is_challenged() {
    assert_challenge(&authorize(Some("Basic !!not base64!!")));
}

#[test]
fn other_scheme_is_challenged() {
    assert_challenge(&authorize(Some("Bearer Zm9yZWNhc3Q6Zm9yZWNhc3Q=")));
}

#[test]
fn plain_credential_without_encoding_is_challenged() {
    assert_challenge(&authorize(Some("Basic forecast:forecast")));
}

#[test]
fn repeated_scheme_prefix_is_challenged() {
    assert_challenge(&authorize(Some("Basic Basic Zm9yZWNhc3Q6Zm9yZWNhc3Q=")));
}

#[test]
fn lowercase_scheme_is_challenged() {
    assert_challenge(&authorize(Some("basic Zm9yZWNhc3Q6Zm9yZWNhc3Q=")));
}

#[test]
fn decoded_credential_decides() {
    assert!(matches!(decide(Some(b"forecast:forecast".to_vec())), AuthDecision::Authorized));
    assert_challenge(&decide(Some(b"forecast:forecas".to_vec())));
    assert_challenge(&decide(Some(b"wrong:wrong".to_vec())));
    assert_challenge(&decide(None));
}

#[test]
fn challenge_has_fixed_shape() {
    let r = Rejection::challenge();
    assert_eq!(r.status, 401);
    assert_eq!(r.body, "Unauthorized");
}
