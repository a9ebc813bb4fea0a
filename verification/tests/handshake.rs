use axum_tungstenite::rejection::WebSocketUpgradeRejection;
use axum_tungstenite::upgrade::{RequestParts, WebSocketConfig, WebSocketUpgrade};
use http::header::{HeaderMap, HeaderValue};

const SAMPLE_KEY: &str = "dGhlIHNhbXBsZSBub25jZQ==";
const SAMPLE_ACCEPT: &str = "s3pPLMBiTxaQ9kYGzzhZRbK+xOo=";

fn upgrade_headers() -> HeaderMap {
    let mut headers = HeaderMap::new();
    headers.insert("connection", HeaderValue::from_static("Upgrade"));
    headers.insert("upgrade", HeaderValue::from_static("websocket"));
    headers.insert("sec-websocket-version", HeaderValue::from_static("13"));
    headers.insert("sec-websocket-key", HeaderValue::from_static(SAMPLE_KEY));
    headers
}

fn request(method: &str, headers: HeaderMap) -> RequestParts<u32> {
    RequestParts { method: method.to_string(), headers, on_upgrade: Some(7) }
}

fn rejection_of(req: &mut RequestParts<u32>) -> WebSocketUpgradeRejection {
    match WebSocketUpgrade::from_request(req) {
        Ok(_) => panic!("the request was accepted"),
        Err(rejection) => rejection,
    }
}

fn value(headers: &HeaderMap, name: &str) -> Option<Vec<u8>> {
    headers.get(name).map(|found| found.as_bytes().to_vec())
}

#[test]
fn valid_request_is_accepted() {
    let mut req = request("GET", upgrade_headers());
    assert_eq!(req.rejection(), None);
    assert!(WebSocketUpgrade::from_request(&mut req).is_ok());
}

#[test]
fn accepting_takes_the_key_and_the_handle_out_of_the_request() {
    let mut req = request("GET", upgrade_headers());
    let upgrade = WebSocketUpgrade::from_request(&mut req);
    assert!(upgrade.is_ok());
    assert!(req.headers.get("sec-websocket-key").is_none());
    assert_eq!(req.on_upgrade, None);
    assert_eq!(req.method, "GET");
    assert_eq!(value(&req.headers, "connection"), Some(b"Upgrade".to_vec()));
    assert_eq!(value(&req.headers, "upgrade"), Some(b"websocket".to_vec()));
    assert_eq!(value(&req.headers, "sec-websocket-version"), Some(b"13".to_vec()));
    assert_eq!(req.headers.len(), 3);
}

#[test]
fn accepted_request_hands_its_handle_on() {
    let mut req = request("GET", upgrade_headers());
    req.on_upgrade = Some(41);
    let upgrade = WebSocketUpgrade::from_request(&mut req).unwrap();
    let (_, handoff) = upgrade.on_upgrade();
    assert_eq!(handoff.on_upgrade, 41);
}

#[test]
fn post_is_rejected_with_method_not_allowed() {
    let mut req = request("POST", upgrade_headers());
    assert_eq!(rejection_of(&mut req), WebSocketUpgradeRejection::MethodNotGet);
    assert_eq!(WebSocketUpgradeRejection::MethodNotGet.status(), 405);
}

#[test]
fn method_must_be_get_exactly() {
    for method in ["get", "Get", "GET ", "", "HEAD", "PUT", "CONNECT"] {
        let mut req = request(method, upgrade_headers());
        assert_eq!(rejection_of(&mut req), WebSocketUpgradeRejection::MethodNotGet);
    }
}

#[test]
fn rejected_request_is_left_as_it_was() {
    let mut req = request("POST", upgrade_headers());
    assert!(WebSocketUpgrade::from_request(&mut req).is_err());
    assert_eq!(req.method, "POST");
    assert_eq!(req.on_upgrade, Some(7));
    assert_eq!(req.headers, upgrade_headers());
}

#[test]
fn missing_version_is_rejected() {
    let mut headers = upgrade_headers();
    headers.remove("sec-websocket-version");
    let mut req = request("GET", headers);
    assert_eq!(
        rejection_of(&mut req),
        WebSocketUpgradeRejection::InvalidWebSocketVersionHeader
    );
    assert_eq!(req.headers.get("sec-websocket-key").unwrap(), SAMPLE_KEY);
}

#[test]
fn other_versions_are_rejected() {
    for version in ["12", "14", "1", "130", "13 ", " 13", "", "13, 8"] {
        let mut headers = upgrade_headers();
        headers.insert("sec-websocket-version", HeaderValue::from_str(version).unwrap());
        let mut req = request("GET", headers);
        assert_eq!(
            rejection_of(&mut req),
            WebSocketUpgradeRejection::InvalidWebSocketVersionHeader
        );
    }
}

#[test]
fn missing_version_without_key_is_still_a_version_rejection() {
    let mut headers = upgrade_headers();
    headers.remove("sec-websocket-version");
    headers.remove("sec-websocket-key");
    let mut req = request("GET", headers);
    assert_eq!(
        rejection_of(&mut req),
        WebSocketUpgradeRejection::InvalidWebSocketVersionHeader
    );
}

#[test]
fn checks_are_made_in_order() {
    let mut req = request("POST", HeaderMap::new());
    assert_eq!(rejection_of(&mut req), WebSocketUpgradeRejection::MethodNotGet);

    let mut req = request("GET", HeaderMap::new());
    assert_eq!(rejection_of(&mut req), WebSocketUpgradeRejection::InvalidConnectionHeader);

    let mut headers = HeaderMap::new();
    headers.insert("connection", HeaderValue::from_static("upgrade"));
    let mut req = request("GET", headers.clone());
    assert_eq!(rejection_of(&mut req), WebSocketUpgradeRejection::InvalidUpgradeHeader);

    headers.insert("upgrade", HeaderValue::from_static("websocket"));
    let mut req = request("GET", headers.clone());
    assert_eq!(
        rejection_of(&mut req),
        WebSocketUpgradeRejection::InvalidWebSocketVersionHeader
    );

    headers.insert("sec-websocket-version", HeaderValue::from_static("13"));
    let mut req = request("GET", headers.clone());
    assert_eq!(rejection_of(&mut req), WebSocketUpgradeRejection::WebSocketKeyHeaderMissing);

    headers.insert("sec-websocket-key", HeaderValue::from_static("k"));
    let mut req = request("GET", headers);
    assert!(WebSocketUpgrade::from_request(&mut req).is_ok());
}

#[test]
fn post_without_version_is_rejected_for_its_method() {
    let mut headers = upgrade_headers();
    headers.remove("sec-websocket-version");
    let mut req = request("POST", headers);
    assert_eq!(rejection_of(&mut req), WebSocketUpgradeRejection::MethodNotGet);
}

#[test]
fn connection_header_is_searched_without_regard_to_case() {
    for connection in ["upgrade", "Upgrade", "UPGRADE", "keep-alive, Upgrade", "Upgrade, keep-alive"] {
        let mut headers = upgrade_headers();
        headers.insert("connection", HeaderValue::from_str(connection).unwrap());
        let mut req = request("GET", headers);
        assert!(WebSocketUpgrade::from_request(&mut req).is_ok());
    }
}

#[test]
fn connection_header_without_upgrade_is_rejected() {
    for connection in ["keep-alive", "close", "", "upgrad", "up grade", "u,p,g,r,a,d,e"] {
        let mut headers = upgrade_headers();
        headers.insert("connection", HeaderValue::from_str(connection).unwrap());
        let mut req = request("GET", headers);
        assert_eq!(rejection_of(&mut req), WebSocketUpgradeRejection::InvalidConnectionHeader);
    }
}

#[test]
fn connection_header_is_searched_for_the_characters_not_the_token() {
    // A search for whole tokens would refuse these two: neither holds the
    // token `upgrade`.
    for connection in ["upgraded", "no-upgrade-here"] {
        let mut headers = upgrade_headers();
        headers.insert("connection", HeaderValue::from_str(connection).unwrap());
        let mut req = request("GET", headers);
        assert!(WebSocketUpgrade::from_request(&mut req).is_ok());
    }
}

#[test]
fn connection_header_that_is_not_utf8_is_rejected() {
    let mut headers = upgrade_headers();
    headers.insert("connection", HeaderValue::from_bytes(b"upgrade\xff").unwrap());
    let mut req = request("GET", headers);
    assert_eq!(rejection_of(&mut req), WebSocketUpgradeRejection::InvalidConnectionHeader);

    let mut headers = upgrade_headers();
    headers.insert("connection", HeaderValue::from_bytes("upgrade \u{e9}".as_bytes()).unwrap());
    let mut req = request("GET", headers);
    assert!(WebSocketUpgrade::from_request(&mut req).is_ok());
}

#[test]
fn missing_connection_header_is_rejected() {
    let mut headers = upgrade_headers();
    headers.remove("connection");
    let mut req = request("GET", headers);
    assert_eq!(rejection_of(&mut req), WebSocketUpgradeRejection::InvalidConnectionHeader);
}

#[test]
fn only_the_first_connection_header_counts() {
    let mut headers = upgrade_headers();
    headers.insert("connection", HeaderValue::from_static("keep-alive"));
    headers.append("connection", HeaderValue::from_static("upgrade"));
    let mut req = request("GET", headers);
    assert_eq!(rejection_of(&mut req), WebSocketUpgradeRejection::InvalidConnectionHeader);
}

#[test]
fn upgrade_header_is_compared_without_regard_to_case() {
    for upgrade in ["websocket", "WebSocket", "WEBSOCKET", "wEbSoCkEt"] {
        let mut headers = upgrade_headers();
        headers.insert("upgrade", HeaderValue::from_str(upgrade).unwrap());
        let mut req = request("GET", headers);
        assert!(WebSocketUpgrade::from_request(&mut req).is_ok());
    }
}

#[test]
fn upgrade_header_must_be_websocket_and_nothing_else() {
    for upgrade in ["websockets", "websocke", "h2c", "", " websocket", "websocket, h2c"] {
        let mut headers = upgrade_headers();
        headers.insert("upgrade", HeaderValue::from_str(upgrade).unwrap());
        let mut req = request("GET", headers);
        assert_eq!(rejection_of(&mut req), WebSocketUpgradeRejection::InvalidUpgradeHeader);
    }
    let mut headers = upgrade_headers();
    headers.remove("upgrade");
    let mut req = request("GET", headers);
    assert_eq!(rejection_of(&mut req), WebSocketUpgradeRejection::InvalidUpgradeHeader);
}

#[test]
fn missing_key_is_rejected() {
    let mut headers = upgrade_headers();
    headers.remove("sec-websocket-key");
    let mut req = request("GET", headers);
    assert_eq!(rejection_of(&mut req), WebSocketUpgradeRejection::WebSocketKeyHeaderMissing);
    assert_eq!(req.on_upgrade, Some(7));
}

#[test]
fn key_is_not_looked_into() {
    for key in ["", "not base64 at all!", "===="] {
        let mut headers = upgrade_headers();
        headers.insert("sec-websocket-key", HeaderValue::from_str(key).unwrap());
        let mut req = request("GET", headers);
        assert!(WebSocketUpgrade::from_request(&mut req).is_ok());
    }
}

#[test]
fn rejection_says_what_rejection_decides() {
    let mut req = request("GET", upgrade_headers());
    assert_eq!(req.rejection(), None);
    req.method = "POST".to_string();
    assert_eq!(req.rejection(), Some(WebSocketUpgradeRejection::MethodNotGet));
    req.method = "GET".to_string();
    req.headers.remove("sec-websocket-key");
    assert_eq!(req.rejection(), Some(WebSocketUpgradeRejection::WebSocketKeyHeaderMissing));
    assert_eq!(req.on_upgrade, Some(7));
}

#[test]
fn request_without_handle_cannot_be_captured() {
    let mut req = request("GET", upgrade_headers());
    req.on_upgrade = None;
    assert!(WebSocketUpgrade::try_from_request(&mut req).is_none());
    assert_eq!(req.headers, upgrade_headers());
    assert_eq!(req.on_upgrade, None);
}

#[test]
fn request_without_handle_is_still_rejected_for_what_is_wrong_with_it() {
    let mut req = request("POST", upgrade_headers());
    req.on_upgrade = None;
    match WebSocketUpgrade::try_from_request(&mut req) {
        Some(Err(rejection)) => assert_eq!(rejection, WebSocketUpgradeRejection::MethodNotGet),
        _ => panic!("the request was not rejected"),
    }
}

#[test]
fn try_from_request_accepts_what_from_request_accepts() {
    let mut req = request("GET", upgrade_headers());
    match WebSocketUpgrade::try_from_request(&mut req) {
        Some(Ok(upgrade)) => {
            let (response, _) = upgrade.on_upgrade();
            assert_eq!(response.status, 101);
        }
        _ => panic!("the request was not accepted"),
    }
    assert!(req.headers.get("sec-websocket-key").is_none());
    assert_eq!(req.on_upgrade, None);
}

#[test]
fn rejections_carry_status_and_body() {
    let all = [
        (WebSocketUpgradeRejection::MethodNotGet, 405, "Request method must be `GET`"),
        (
            WebSocketUpgradeRejection::InvalidConnectionHeader,
            400,
            "Connection header did not include 'upgrade'",
        ),
        (
            WebSocketUpgradeRejection::InvalidUpgradeHeader,
            400,
            "`Upgrade` header did not include 'websocket'",
        ),
        (
            WebSocketUpgradeRejection::InvalidWebSocketVersionHeader,
            400,
            "`Sec-WebSocket-Version` header did not include '13'",
        ),
        (
            WebSocketUpgradeRejection::WebSocketKeyHeaderMissing,
            400,
            "`Sec-WebSocket-Key` header missing",
        ),
    ];
    for (rejection, status, body) in all {
        assert_eq!(rejection.status(), status);
        assert_eq!(rejection.body(), body);
    }
}

#[test]
fn response_switches_protocols() {
    let mut req = request("GET", upgrade_headers());
    let upgrade = WebSocketUpgrade::from_request(&mut req).unwrap();
    let (response, _) = upgrade.on_upgrade();
    assert_eq!(response.status, 101);
    assert_eq!(value(&response.headers, "connection"), Some(b"upgrade".to_vec()));
    assert_eq!(value(&response.headers, "upgrade"), Some(b"websocket".to_vec()));
    assert_eq!(
        value(&response.headers, "sec-websocket-accept"),
        Some(SAMPLE_ACCEPT.as_bytes().to_vec())
    );
    assert_eq!(value(&response.headers, "sec-websocket-protocol"), None);
    assert_eq!(response.headers.len(), 3);
    assert_eq!(response.headers.keys_len(), 3);
}

#[test]
fn response_signs_the_key_that_came() {
    let mut headers = upgrade_headers();
    headers.insert("sec-websocket-key", HeaderValue::from_static("x3JJHMbDL1EzLkh9GBhXDw=="));
    let mut req = request("GET", headers);
    let upgrade = WebSocketUpgrade::from_request(&mut req).unwrap();
    let (response, _) = upgrade.on_upgrade();
    assert_eq!(
        value(&response.headers, "sec-websocket-accept"),
        Some(b"HSmrc0sMlYUkAGmm5OPpG2HaGWk=".to_vec())
    );
}

#[test]
fn only_the_first_key_is_signed() {
    let mut headers = upgrade_headers();
    headers.append("sec-websocket-key", HeaderValue::from_static("another"));
    let mut req = request("GET", headers);
    let upgrade = WebSocketUpgrade::from_request(&mut req).unwrap();
    assert!(req.headers.get("sec-websocket-key").is_none());
    let (response, _) = upgrade.on_upgrade();
    assert_eq!(
        value(&response.headers, "sec-websocket-accept"),
        Some(SAMPLE_ACCEPT.as_bytes().to_vec())
    );
}

#[test]
fn negotiator_starts_with_default_limits() {
    let mut req = request("GET", upgrade_headers());
    let upgrade = WebSocketUpgrade::from_request(&mut req).unwrap();
    let (_, handoff) = upgrade.on_upgrade();
    assert_eq!(handoff.config, WebSocketConfig::default());
    assert_eq!(handoff.config.max_send_queue, None);
    assert_eq!(handoff.config.max_message_size, 64 * 1024 * 1024);
    assert_eq!(handoff.config.max_frame_size, 16 * 1024 * 1024);
    assert!(!handoff.config.accept_unmasked_frames);
}

#[test]
fn limits_are_set_one_by_one() {
    let mut req = request("GET", upgrade_headers());
    let upgrade = WebSocketUpgrade::from_request(&mut req).unwrap();
    let (_, handoff) = upgrade.max_send_queue(3).on_upgrade();
    assert_eq!(
        handoff.config,
        WebSocketConfig { max_send_queue: Some(3), ..WebSocketConfig::default() }
    );

    let mut req = request("GET", upgrade_headers());
    let upgrade = WebSocketUpgrade::from_request(&mut req).unwrap();
    let (_, handoff) = upgrade.max_message_size(1024).on_upgrade();
    assert_eq!(
        handoff.config,
        WebSocketConfig { max_message_size: 1024, ..WebSocketConfig::default() }
    );

    let mut req = request("GET", upgrade_headers());
    let upgrade = WebSocketUpgrade::from_request(&mut req).unwrap();
    let (_, handoff) = upgrade.max_frame_size(512).on_upgrade();
    assert_eq!(
        handoff.config,
        WebSocketConfig { max_frame_size: 512, ..WebSocketConfig::default() }
    );

    let mut req = request("GET", upgrade_headers());
    let upgrade = WebSocketUpgrade::from_request(&mut req).unwrap();
    let (_, handoff) = upgrade.accept_unmasked_frames(true).on_upgrade();
    assert_eq!(
        handoff.config,
        WebSocketConfig { accept_unmasked_frames: true, ..WebSocketConfig::default() }
    );
}

#[test]
fn limits_are_set_together() {
    let mut req = request("GET", upgrade_headers());
    let upgrade = WebSocketUpgrade::from_request(&mut req).unwrap();
    let (response, handoff) = upgrade
        .max_send_queue(0)
        .max_message_size(usize::MAX)
        .max_frame_size(0)
        .accept_unmasked_frames(true)
        .accept_unmasked_frames(false)
        .max_send_queue(9)
        .on_upgrade();
    assert_eq!(
        handoff.config,
        WebSocketConfig {
            max_send_queue: Some(9),
            max_message_size: usize::MAX,
            max_frame_size: 0,
            accept_unmasked_frames: false,
        }
    );
    assert_eq!(response.status, 101);
    assert_eq!(handoff.on_upgrade, 7);
}
