use moments::error::LibraryError;
use moments::immich_client::{
    check_pong, read_error, upload_fields, upload_headers, upload_name, upload_response,
    upload_result, Call, ImmichClient, ServerAbout,
};

#[test]
fn client_normalises_trailing_slash() {
    let client = ImmichClient::new("https://immich.example.com/", "test-token").unwrap();
    assert_eq!(client.base_url(), "https://immich.example.com");
    let client = ImmichClient::new("https://immich.example.com///", "test-token").unwrap();
    assert_eq!(client.base_url(), "https://immich.example.com");
}

#[test]
fn client_preserves_url_without_trailing_slash() {
    let client = ImmichClient::new("https://immich.example.com", "test-token").unwrap();
    assert_eq!(client.base_url(), "https://immich.example.com");
    assert_eq!(client.authorization(), "Bearer test-token");
}

#[test]
fn url_builds_api_path() {
    let client = ImmichClient::new("https://immich.example.com", "test-token").unwrap();
    assert_eq!(
        client.url("/server/ping"),
        "https://immich.example.com/api/server/ping"
    );
    assert_eq!(
        ImmichClient::login_url("https://immich.example.com/"),
        "https://immich.example.com/api/auth/login"
    );
}

#[test]
fn tokens_must_fit_a_header() {
    let err = ImmichClient::new("https://a", "bad\ntoken").unwrap_err();
    assert_eq!(
        err.to_string(),
        "immich error: invalid access token: failed to parse header value"
    );
    assert!(ImmichClient::new("https://a", "bad\u{7f}").is_err());
    assert!(ImmichClient::new("https://a", "tab\tis fine").is_ok());
    assert!(ImmichClient::new("https://a", "é").is_ok());
}

#[test]
fn server_about_display() {
    let about = ServerAbout {
        version: "1.99.0".to_string(),
        licensed: false,
    };
    assert_eq!(about.to_string(), "Immich 1.99.0");
}

#[test]
fn statuses_become_errors() {
    let call = Call::Endpoint {
        method: "GET".to_string(),
        path: "/albums".to_string(),
    };
    assert!(call.check_status(200, "200 OK", "").is_ok());
    assert!(call.check_status(299, "299", "").is_ok());
    let text = |r: Result<(), LibraryError>| r.unwrap_err().to_string();
    assert_eq!(
        text(call.check_status(404, "404 Not Found", "gone")),
        "immich error: GET /albums returned 404 Not Found: gone"
    );
    assert_eq!(
        text(Call::Login.check_status(401, "401 Unauthorized", "no")),
        "immich error: login failed with status 401 Unauthorized: no"
    );
    assert_eq!(
        text(Call::Ping.check_status(500, "500 Internal Server Error", "x")),
        "immich error: ping failed with status 500 Internal Server Error"
    );
    assert_eq!(
        text(Call::About.check_status(199, "199", "x")),
        "immich error: server about failed with status 199"
    );
    assert_eq!(
        text(Call::Upload.check_status(300, "300 Multiple Choices", "x")),
        "immich error: upload returned 300 Multiple Choices: x"
    );
    assert_eq!(
        call.connection_error("refused").to_string(),
        "immich error: GET /albums failed: refused"
    );
    assert_eq!(
        call.parse_error("eof").to_string(),
        "immich error: GET /albums parse failed: eof"
    );
    assert_eq!(
        Call::Login.connection_error("refused").to_string(),
        "immich error: login failed: refused"
    );
    assert_eq!(
        Call::About.parse_error("eof").to_string(),
        "immich error: invalid server about response: eof"
    );
    assert_eq!(
        read_error("/assets/1", "eof").to_string(),
        "immich error: GET /assets/1 read failed: eof"
    );
}

#[test]
fn only_pong_is_right() {
    assert!(check_pong("pong").is_ok());
    assert_eq!(
        check_pong("ping").unwrap_err().to_string(),
        "immich error: unexpected ping response: ping"
    );
}

#[test]
fn upload_answers() {
    let created = upload_response(201, br#"{"id": "asset-1", "status": "created"}"#).unwrap();
    assert_eq!(created.id, "asset-1");
    assert_eq!(created.status, "created");
    let duplicate = upload_response(200, br#"{"id": "asset-1"}"#).unwrap();
    assert_eq!(duplicate.status, "duplicate");
    assert_eq!(upload_response(201, br#"{"id": 7}"#).unwrap().id, "");
    assert_eq!(upload_response(201, b"[]").unwrap().id, "");
    assert_eq!(
        upload_response(201, b"<html>").unwrap_err().to_string(),
        "immich error: invalid upload response: error decoding response body"
    );
    assert_eq!(upload_result(201, Some(None)).unwrap().id, "");
    assert_eq!(upload_name(&None), "upload");
    assert!(upload_headers(&None).is_empty());
    let headers = upload_headers(&Some("aGFzaA==".to_string()));
    assert_eq!(headers.len(), 1);
    assert_eq!(headers[0].name, "x-immich-checksum");
    assert_eq!(headers[0].value, "aGFzaA==");
    let fields = upload_fields("a-1", "t1", "t2");
    let pairs: Vec<(&str, &str)> = fields
        .iter()
        .map(|f| (f.name.as_str(), f.value.as_str()))
        .collect();
    assert_eq!(
        pairs,
        vec![
            ("deviceAssetId", "a-1"),
            ("deviceId", "moments"),
            ("fileCreatedAt", "t1"),
            ("fileModifiedAt", "t2"),
        ]
    );
}
