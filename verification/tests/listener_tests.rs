use auth_bridge::listener::cors_headers;
use auth_bridge::listener::authorizer_event_name;
use auth_bridge::listener::respond_after_emit;
use auth_bridge::listener::route;
use auth_bridge::listener::BridgeReply;
use auth_bridge::listener::RouteAction;

#[test]
fn options_preflight() {
    let r = route("OPTIONS", None, false);
    match r {
        RouteAction::Reply(rep) => {
            assert_eq!(rep, BridgeReply::Preflight);
            assert_eq!(rep.status_code(), 200);
            assert!(rep.sends_cors_headers());
            assert!(rep.body_message().is_none());
        }
        RouteAction::EmitAuthorizer(_) => panic!("preflight must not emit"),
    }
}

#[test]
fn options_ignores_body_and_registry() {
    let body = b"this is not json".to_vec();
    let r = route("OPTIONS", Some(&body), true);
    assert!(matches!(r, RouteAction::Reply(BridgeReply::Preflight)));
}

#[test]
fn post_valid_json_with_handle_emits_payload() {
    let body = b"{\"url\":\"https://example.com/callback\"}".to_vec();
    let r = route("POST", Some(&body), true);
    match r {
        RouteAction::EmitAuthorizer(payload) => {
            assert_eq!(
                payload.get("url").and_then(|u| u.as_str()),
                Some("https://example.com/callback")
            );
        }
        RouteAction::Reply(rep) => panic!("expected an emission, got reply {:?}", rep),
    }
}

#[test]
fn post_valid_json_without_handle_accepted_silently() {
    let body = b"{\"url\":\"https://example.com/callback\"}".to_vec();
    let r = route("POST", Some(&body), false);
    match r {
        RouteAction::Reply(rep) => {
            assert_eq!(rep, BridgeReply::Accepted);
            assert_eq!(rep.status_code(), 202);
            assert!(rep.sends_cors_headers());
            assert!(rep.body_message().is_none());
        }
        RouteAction::EmitAuthorizer(_) => panic!("no handle, nothing may be emitted"),
    }
}

#[test]
fn post_malformed_body_refused() {
    let body = b"this is not json".to_vec();
    let r = route("POST", Some(&body), true);
    match r {
        RouteAction::Reply(rep) => {
            assert_eq!(rep, BridgeReply::BadBody);
            assert_eq!(rep.status_code(), 406);
            assert!(!rep.sends_cors_headers());
            assert_eq!(
                rep.body_message().as_deref(),
                Some("Must use json body: { url: string }")
            );
        }
        RouteAction::EmitAuthorizer(_) => panic!("malformed body must not be emitted"),
    }
}

#[test]
fn post_truncated_json_refused() {
    let body = b"{\"url\":".to_vec();
    let r = route("POST", Some(&body), true);
    assert!(matches!(r, RouteAction::Reply(BridgeReply::BadBody)));
}

#[test]
fn post_missing_body_refused() {
    let r = route("POST", None, true);
    assert!(matches!(r, RouteAction::Reply(BridgeReply::BadBody)));
}

#[test]
fn post_bare_json_number_is_valid() {
    let body = b"123".to_vec();
    let r = route("POST", Some(&body), false);
    assert!(matches!(r, RouteAction::Reply(BridgeReply::Accepted)));
    let almost = b"123a".to_vec();
    let r2 = route("POST", Some(&almost), false);
    assert!(matches!(r2, RouteAction::Reply(BridgeReply::BadBody)));
}

#[test]
fn other_methods_refused() {
    for method in ["GET", "PUT", "DELETE", "PATCH", "HEAD", ""] {
        let r = route(method, None, true);
        match r {
            RouteAction::Reply(rep) => {
                assert_eq!(rep, BridgeReply::BadMethod);
                assert_eq!(rep.status_code(), 400);
                assert!(!rep.sends_cors_headers());
                assert_eq!(
                    rep.body_message().as_deref(),
                    Some("Only OPTIONS, POST methods are allowed")
                );
            }
            RouteAction::EmitAuthorizer(_) => panic!("unsupported method must not emit"),
        }
    }
}

#[test]
fn emission_outcome_decides_terminal_reply() {
    let ok = respond_after_emit(true);
    assert_eq!(ok, BridgeReply::Accepted);
    assert_eq!(ok.status_code(), 202);
    let failed = respond_after_emit(false);
    assert_eq!(failed, BridgeReply::Unavailable);
    assert_eq!(failed.status_code(), 406);
    assert_eq!(failed.body_message().as_deref(), Some("Currently unavailable"));
}

#[test]
fn cors_headers_are_exactly_three() {
    let headers = cors_headers();
    assert_eq!(headers.len(), 3);
    assert_eq!(headers[0].0, "Access-Control-Allow-Origin");
    assert_eq!(headers[0].1, "*");
    assert_eq!(headers[1].0, "Access-Control-Allow-Methods");
    assert_eq!(headers[1].1, "POST");
    assert_eq!(headers[2].0, "Access-Control-Allow-Headers");
    assert_eq!(headers[2].1, "Content-Type, Authorization");
}

#[test]
fn event_name_is_authorizer() {
    assert_eq!(authorizer_event_name(), "authorizer");
}

#[test]
fn callback_port_is_fixed() {
    assert_eq!(auth_bridge::listener::CALLBACK_PORT, 47673);
}

#[test]
fn many_posts_each_get_an_independent_reply() {
    // Routing holds no cross-request state: a burst of requests, valid
    // and malformed mixed, is answered request by request.
    for i in 0..100 {
        let body = if i % 2 == 0 {
            format!("{{\"url\":\"https://example.com/cb/{i}\"}}").into_bytes()
        } else {
            format!("not json {i}").into_bytes()
        };
        let r = route("POST", Some(&body), true);
        if i % 2 == 0 {
            assert!(matches!(r, RouteAction::EmitAuthorizer(_)));
        } else {
            assert!(matches!(r, RouteAction::Reply(BridgeReply::BadBody)));
        }
    }
}

#[test]
fn valid_post_emits_exactly_once() {
    let body = b"{\"url\":\"https://example.com/cb\"}".to_vec();
    let mut emitted: Vec<serde_json::Value> = Vec::new();
    let reply = match route("POST", Some(&body), true) {
        RouteAction::Reply(rep) => rep,
        RouteAction::EmitAuthorizer(payload) => {
            emitted.push(payload);
            respond_after_emit(true)
        }
    };
    assert_eq!(emitted.len(), 1);
    let expected: serde_json::Value = serde_json::from_slice(&body).unwrap();
    assert_eq!(emitted[0], expected);
    assert_eq!(reply.status_code(), 202);
}
