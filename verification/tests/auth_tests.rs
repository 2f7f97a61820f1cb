use veter::auth::{
    HttpError, authorization_auth, header_auth, rejection_handler, subprotocol_auth,
};

#[test]
fn credential_formats() {
    assert_eq!(authorization_auth("secret"), "Token secret".to_string());
    assert_eq!(subprotocol_auth("secret"), "auth-secret".to_string());
    assert_eq!(authorization_auth(""), "Token ".to_string());
    assert_eq!(subprotocol_auth(""), "auth-".to_string());
}

#[test]
fn gate_accepts_exact_match_only() {
    let expected = authorization_auth("secret");
    let good = "Token secret".to_string();
    assert_eq!(header_auth(Some(&good), &expected), Ok(()));
}

#[test]
fn gate_rejects_missing_header() {
    let expected = authorization_auth("secret");
    assert_eq!(header_auth(None, &expected), Err(HttpError::InvalidToken));
}

#[test]
fn gate_rejects_empty_value() {
    let expected = authorization_auth("secret");
    let empty = String::new();
    assert_eq!(header_auth(Some(&empty), &expected), Err(HttpError::InvalidToken));
}

#[test]
fn gate_rejects_single_character_differences() {
    let expected = authorization_auth("secret");
    // Each candidate differs from "Token secret" in exactly one position.
    let original = "Token secret";
    for i in 0..original.len() {
        let mut bytes = original.as_bytes().to_vec();
        bytes[i] = if bytes[i] == b'x' { b'y' } else { b'x' };
        let near_miss = String::from_utf8(bytes).unwrap();
        assert_ne!(near_miss, *original);
        assert_eq!(
            header_auth(Some(&near_miss), &expected),
            Err(HttpError::InvalidToken)
        );
    }
}

#[test]
fn gate_rejects_wrong_scheme_and_truncations() {
    let expected = authorization_auth("secret");
    let candidates = [
        "token secret".to_string(),
        "Token secre".to_string(),
        "Token secrets".to_string(),
        "auth-secret".to_string(),
        "secret".to_string(),
    ];
    for candidate in candidates.iter() {
        assert_eq!(
            header_auth(Some(candidate), &expected),
            Err(HttpError::InvalidToken)
        );
    }
}

#[test]
fn invalid_token_maps_to_401_with_body() {
    let (status, body) = rejection_handler(HttpError::InvalidToken);
    assert_eq!(status, 401);
    assert_eq!(body, "Invalid token provided".to_string());
}

#[test]
fn conflict_maps_to_409_with_body() {
    let (status, body) = rejection_handler(HttpError::Conflict);
    assert_eq!(status, 409);
    assert_eq!(body, "Another client connected".to_string());
}
