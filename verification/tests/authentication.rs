use azure_mgmt::authentication::read_token_response;
use azure_mgmt::authentication::AlgorithmType;
use azure_mgmt::authentication::Header;
use azure_mgmt::authentication::ResponseBody;
use azure_mgmt::authentication::TokenManager;
use azure_mgmt::authentication::TokenResponse;
use azure_mgmt::authentication::Type;
use azure_mgmt::error::SimpleError;
use azure_mgmt::http::Method;
use azure_mgmt::http::Response;
use azure_mgmt::ident::AzureId;
use azure_mgmt::json::Json;
use azure_mgmt::scope::TokenScope;
use azure_mgmt::time::Timestamp;

fn manager() -> TokenManager {
    TokenManager::new(
        AzureId::new("dir-1".to_owned()).unwrap(),
        AzureId::new("client-9".to_owned()).unwrap(),
        (1u8..=20).collect(),
    )
    .unwrap()
}

fn response(status: u16, body: &str) -> Response {
    Response {
        status,
        headers: Vec::new(),
        body: body.to_owned(),
    }
}

#[test]
fn fingerprint_must_have_twenty_bytes() {
    let id = || AzureId::new("x".to_owned()).unwrap();
    assert!(TokenManager::new(id(), id(), vec![0; 19]).is_none());
    assert!(TokenManager::new(id(), id(), vec![0; 21]).is_none());
    assert!(TokenManager::new(id(), id(), Vec::new()).is_none());
    assert!(TokenManager::new(id(), id(), vec![0; 20]).is_some());
}

#[test]
fn token_endpoint_is_built_from_the_directory() {
    assert_eq!(
        manager().token_endpoint(),
        "https://login.microsoftonline.com/dir-1/oauth2/v2.0/token"
    );
}

#[test]
fn header_carries_the_fingerprint_in_base64() {
    let header = manager().header();
    assert_eq!(header.alg, AlgorithmType::Rs256);
    assert_eq!(header.algorithm_type(), AlgorithmType::Rs256);
    assert_eq!(header.typ, Type::JWT);
    assert_eq!(header.x5t, "AQIDBAUGBwgJCgsMDQ4PEBESExQ=");
}

#[test]
fn base64_pads_and_uses_the_standard_alphabet() {
    assert_eq!(Header::with_fingerprint(&[]).x5t, "");
    assert_eq!(Header::with_fingerprint(&[0xfb]).x5t, "+w==");
    assert_eq!(Header::with_fingerprint(&[0xff, 0xff]).x5t, "//8=");
    assert_eq!(Header::with_fingerprint(b"Man").x5t, "TWFu");
}

#[test]
fn claims_speak_of_the_client_to_the_endpoint_for_sixty_seconds() {
    let claims = manager().claims_with(1_700_000_000, "id-1".to_owned());
    assert_eq!(
        claims.audience,
        "https://login.microsoftonline.com/dir-1/oauth2/v2.0/token"
    );
    assert_eq!(claims.issuer, "client-9");
    assert_eq!(claims.subject, "client-9");
    assert_eq!(claims.not_before, 1_700_000_000);
    assert_eq!(claims.issued_at, 1_700_000_000);
    assert_eq!(claims.expiration, 1_700_000_060);
    assert_eq!(claims.json_web_token_id, "id-1");
}

#[test]
fn claims_at_the_last_second_that_fits() {
    let claims = manager().claims_with(u64::MAX - 60, "z".to_owned());
    assert_eq!(claims.expiration, u64::MAX);
}

#[test]
fn each_assertion_gets_a_fresh_identifier() {
    let m = manager();
    let a = m.jwt_claims(10);
    let b = m.jwt_claims(10);
    assert_eq!(a.json_web_token_id.len(), 36);
    assert_eq!(b.json_web_token_id.len(), 36);
    assert_ne!(a.json_web_token_id, b.json_web_token_id);
    assert_eq!(a.expiration, 70);
    assert_eq!(a.not_before, 10);
    assert_eq!(a.issued_at, 10);
    assert_eq!(a.issuer, "client-9");
    assert_eq!(a.subject, "client-9");
    assert_eq!(a.audience, m.token_endpoint());
}

#[test]
fn form_body_has_the_five_fields_in_order() {
    let body = manager().body(TokenScope::Management, "h.c.s");
    assert_eq!(
        body,
        "scope=https%3A%2F%2Fmanagement.azure.com%2F.default\
         &client_id=client-9\
         &client_assertion_type=urn%3Aietf%3Aparams%3Aoauth%3Aclient-assertion-type%3Ajwt-bearer\
         &client_assertion=h.c.s\
         &grant_type=client_credentials"
    );
}

#[test]
fn form_body_escapes_the_assertion() {
    let body = manager().body(TokenScope::Management, "a+b/c=d e~\u{e9}");
    assert!(body.contains("&client_assertion=a%2Bb%2Fc%3Dd%20e~%C3%A9&"));
}

#[test]
fn auth_request_posts_the_form() {
    let m = manager();
    let request = m.generate_auth_request(TokenScope::Management, "tok");
    assert_eq!(request.method, Method::Post);
    assert_eq!(request.uri, m.token_endpoint());
    assert_eq!(request.headers.len(), 1);
    assert_eq!(request.headers[0].name, "Content-Type");
    assert_eq!(request.headers[0].value, "application/x-www-form-urlencoded");
    assert_eq!(
        request.body,
        Some(m.body(TokenScope::Management, "tok").into_bytes())
    );
}

#[test]
fn token_response_is_read_with_its_expiry() {
    let now = Timestamp::new(1_000, 500).unwrap();
    let r = read_token_response(
        &response(200, "{\"access_token\":\"abc\",\"expires_in\":3600}"),
        &now,
    )
    .unwrap();
    assert_eq!(r.token, "abc");
    assert_eq!(r.expires_on.secs(), 4_600);
    assert_eq!(r.expires_on.subsec_nanos(), 500);
}

#[test]
fn token_response_ignores_other_members() {
    let now = Timestamp::new(0, 0).unwrap();
    let r = read_token_response(
        &response(
            200,
            "{\"token_type\":\"Bearer\",\"expires_in\":10,\"ext_expires_in\":10,\"access_token\":\"t\"}",
        ),
        &now,
    )
    .unwrap();
    assert_eq!(r.token, "t");
    assert_eq!(r.expires_on.secs(), 10);
}

#[test]
fn token_endpoint_failure_keeps_status_and_body() {
    let now = Timestamp::new(0, 0).unwrap();
    match read_token_response(&response(401, "{\"error\":\"invalid_client\"}"), &now) {
        Err(SimpleError::HttpStatus { status, body }) => {
            assert_eq!(status, 401);
            assert_eq!(body, "{\"error\":\"invalid_client\"}");
        }
        other => panic!("unexpected: {:?}", other),
    }
}

#[test]
fn token_body_that_is_no_json_is_refused() {
    let now = Timestamp::new(0, 0).unwrap();
    assert!(matches!(
        read_token_response(&response(200, "<html>"), &now),
        Err(SimpleError::SerdeError(_))
    ));
    assert!(matches!(
        read_token_response(&response(200, ""), &now),
        Err(SimpleError::SerdeError(_))
    ));
}

#[test]
fn token_body_of_another_shape_is_refused() {
    let now = Timestamp::new(0, 0).unwrap();
    for body in [
        "{}",
        "{\"access_token\":\"abc\"}",
        "{\"expires_in\":3600}",
        "{\"access_token\":5,\"expires_in\":3600}",
        "{\"access_token\":\"abc\",\"expires_in\":\"3600\"}",
        "{\"access_token\":\"abc\",\"expires_in\":3600.5}",
        "{\"access_token\":\"abc\",\"expires_in\":18446744073709551615}",
        "[\"abc\",3600]",
        "null",
    ] {
        assert!(
            matches!(
                read_token_response(&response(200, body), &now),
                Err(SimpleError::UnexpectedShape)
            ),
            "{}",
            body
        );
    }
}

#[test]
fn expiry_that_cannot_be_represented_is_refused() {
    let now = Timestamp::new(i64::MAX - 5, 0).unwrap();
    assert!(matches!(
        read_token_response(
            &response(200, "{\"access_token\":\"abc\",\"expires_in\":6}"),
            &now
        ),
        Err(SimpleError::UnexpectedShape)
    ));
    let ok = read_token_response(
        &response(200, "{\"access_token\":\"abc\",\"expires_in\":5}"),
        &now,
    )
    .unwrap();
    assert_eq!(ok.expires_on.secs(), i64::MAX);
}

#[test]
fn response_body_is_read_from_a_tree() {
    let tree = Json::Object(vec![
        ("expires_in".to_owned(), Json::Integer(-4)),
        ("access_token".to_owned(), Json::Text("t".to_owned())),
    ]);
    let body = ResponseBody::from_json(&tree).unwrap();
    assert_eq!(body.expires_in, -4);
    assert_eq!(body.access_token, "t");
    assert!(matches!(
        ResponseBody::from_json(&Json::Array(vec![])),
        Err(SimpleError::UnexpectedShape)
    ));
    let now = Timestamp::new(10, 1).unwrap();
    let token: TokenResponse = TokenResponse::from_body(body, &now).unwrap();
    assert_eq!(token.token, "t");
    assert_eq!(token.expires_on.secs(), 6);
    assert_eq!(token.expires_on.subsec_nanos(), 1);
}

#[test]
fn the_identifier_is_a_random_uuid_in_hyphenated_lower_case() {
    let m = manager();
    for _ in 0..50 {
        let id = m.jwt_claims(1).json_web_token_id;
        let chars: Vec<char> = id.chars().collect();
        assert_eq!(chars.len(), 36);
        for (i, c) in chars.iter().enumerate() {
            if i == 8 || i == 13 || i == 18 || i == 23 {
                assert_eq!(*c, '-');
            } else {
                assert!(matches!(*c, '0'..='9' | 'a'..='f'), "{}", id);
            }
        }
        assert_eq!(chars[14], '4');
        assert!(matches!(chars[19], '8' | '9' | 'a' | 'b'), "{}", id);
    }
}
