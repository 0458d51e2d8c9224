use std::sync::{Arc, Mutex};

use easy_jsonrpc::MaybeReply;
use wallet_controller::error::ControllerError;
use wallet_controller::gate::{ForeignCheckMiddlewareFn, NodeVersionInfo, Slate, VersionCompatInfo};
use wallet_controller::handlers::{
    foreign_single_use, owner_single_use, Foreign, ForeignAPIHandlerV2, Owner, OwnerAPIHandlerV2,
    OwnerAPIHandlerV3,
};
use wallet_controller::listener::{basic_auth_credential, foreign_router, owner_router, ApiHandler};
use wallet_controller::router::{
    BasicAuthMiddleware, HttpMethod, HttpRequest, RouteOutcome, Router,
};


fn req(method: HttpMethod, path: &str, authorization: Option<&str>) -> HttpRequest {
    HttpRequest {
        method,
        path: path.to_string(),
        authorization: authorization.map(|a| a.to_string()),
    }
}

fn respond<H>(o: RouteOutcome<'_, H>) -> (u16, Vec<(String, String)>, String) {
    match o {
        RouteOutcome::Respond(r) => (
            r.status,
            r.headers.into_iter().map(|h| (h.name, h.value)).collect(),
            r.body,
        ),
        RouteOutcome::Dispatch(_) => panic!("expected a response"),
    }
}

fn wallet() -> Arc<Mutex<u32>> {
    Arc::new(Mutex::new(7))
}

#[test]
fn credential_is_basic_grin_secret() {
    assert_eq!(basic_auth_credential("secret"), "Basic Z3JpbjpzZWNyZXQ=");
}

#[test]
fn preflight_on_every_route_without_credentials() {
    for secret in [None, Some("secret".to_string())] {
        let router = owner_router::<u32, u8>(wallet(), None, secret, Some(true)).unwrap();
        for path in ["/v2/owner", "/v3/owner", "/v2/foreign"] {
            let (status, headers, body) = respond(router.route(&req(HttpMethod::Options, path, None)));
            assert_eq!(status, 200);
            assert_eq!(body, "{}");
            assert!(headers.contains(&("access-control-allow-origin".to_string(), "*".to_string())));
            assert!(headers.contains(&(
                "access-control-allow-headers".to_string(),
                "Content-Type, Authorization".to_string()
            )));
        }
    }
    let router = foreign_router::<u32, u8>(wallet(), None).unwrap();
    let (status, _, body) = respond(router.route(&req(HttpMethod::Options, "/v2/foreign", None)));
    assert_eq!((status, body.as_str()), (200, "{}"));
}

#[test]
fn owner_secret_requires_authorization() {
    let router = owner_router::<u32, u8>(wallet(), None, Some("secret".to_string()), None).unwrap();
    let (status, headers, body) = respond(router.route(&req(HttpMethod::Post, "/v2/owner", None)));
    assert_eq!(status, 401);
    assert!(headers.contains(&(
        "www-authenticate".to_string(),
        "Basic realm=\"GrinOwnerAPI\"".to_string()
    )));
    assert_eq!(body, "");
    let (status, _, _) =
        respond(router.route(&req(HttpMethod::Post, "/v3/owner", Some("Basic wrong"))));
    assert_eq!(status, 401);
    match router.route(&req(HttpMethod::Post, "/v3/owner", Some("Basic Z3JpbjpzZWNyZXQ="))) {
        RouteOutcome::Dispatch(ApiHandler::OwnerV3(_)) => {},
        _ => panic!("expected the v3 owner handler"),
    }
}

#[test]
fn owner_without_secret_dispatches() {
    let router = owner_router::<u32, u8>(wallet(), None, None, Some(false)).unwrap();
    match router.route(&req(HttpMethod::Post, "/v2/owner", None)) {
        RouteOutcome::Dispatch(ApiHandler::OwnerV2(_)) => {},
        _ => panic!("expected the v2 owner handler"),
    }
    // the foreign route is not mounted unless asked for
    let (status, _, _) = respond(router.route(&req(HttpMethod::Post, "/v2/foreign", None)));
    assert_eq!(status, 404);
}

#[test]
fn owner_with_foreign_mounts_foreign() {
    let router = owner_router::<u32, u8>(wallet(), Some(4), None, Some(true)).unwrap();
    match router.route(&req(HttpMethod::Post, "/v2/foreign", None)) {
        RouteOutcome::Dispatch(ApiHandler::ForeignV2(h)) => assert_eq!(h.keychain_mask, Some(4)),
        _ => panic!("expected the foreign handler"),
    }
}

#[test]
fn unknown_path_not_found() {
    let router = foreign_router::<u32, u8>(wallet(), None).unwrap();
    let (status, headers, body) = respond(router.route(&req(HttpMethod::Post, "/v2/owner", None)));
    assert_eq!(status, 404);
    assert_eq!(headers.len(), 2);
    assert_eq!(body, "");
    let (status, _, _) = respond(router.route(&req(HttpMethod::Other, "/v2/foreign", None)));
    assert_eq!(status, 404);
}

#[test]
fn duplicate_route_refused() {
    let mut router: Router<u8> = Router::new();
    assert_eq!(router.add_route("/a".to_string(), 1), Ok(()));
    assert_eq!(router.add_route("/b".to_string(), 2), Ok(()));
    assert_eq!(router.add_route("/a".to_string(), 3), Err(()));
    match router.route(&req(HttpMethod::Post, "/a", None)) {
        RouteOutcome::Dispatch(h) => assert_eq!(*h, 1),
        _ => panic!("expected a dispatch"),
    }
}

#[test]
fn first_refusing_middleware_answers() {
    let mut router: Router<u8> = Router::new();
    router.add_route("/a".to_string(), 1).unwrap();
    router.add_middleware(BasicAuthMiddleware::new("one".to_string(), "realm one".to_string()));
    router.add_middleware(BasicAuthMiddleware::new("two".to_string(), "realm two".to_string()));
    let (status, headers, _) = respond(router.route(&req(HttpMethod::Post, "/a", Some("one"))));
    assert_eq!(status, 401);
    assert_eq!(headers[2], ("www-authenticate".to_string(), "realm two".to_string()));
    let (_, headers, _) = respond(router.route(&req(HttpMethod::Post, "/a", None)));
    assert_eq!(headers[2].1, "realm one");
}

#[test]
fn handlers_parse_and_answer() {
    let w = wallet();
    let v2 = OwnerAPIHandlerV2::new(w.clone());
    let v3 = OwnerAPIHandlerV3::new(w.clone());
    let f = ForeignAPIHandlerV2::new(w.clone(), Some(9u8));
    assert_eq!(v2.handle_post_request(Some(b"oops")).err().unwrap().status, 500);
    assert!(v3.handle_post_request(Some(b"{}")).is_ok());
    let (api, _) = f.handle_post_request(Some(b"{}")).ok().unwrap();
    assert!(api.check_installed);
    assert_eq!(api.keychain_mask, Some(9));
    assert_eq!(*api.wallet_inst.lock().unwrap(), 7);
    assert_eq!(v2.post(MaybeReply::DontReply).body, "[]");
    assert_eq!(f.options().body, "{}");
    assert_eq!(v3.options().status, 200);
}

#[test]
fn foreign_facade_runs_gate() {
    let s = Slate { version_info: VersionCompatInfo { version: 3, block_header_version: 2 } };
    let n = Some(NodeVersionInfo { block_header_version: 1 });
    let gated: Foreign<u32, u8> = Foreign::new(wallet(), None, true);
    let open: Foreign<u32, u8> = Foreign::new(wallet(), None, false);
    assert!(gated.check(ForeignCheckMiddlewareFn::ReceiveTx, n, Some(&s)).is_err());
    assert!(open.check(ForeignCheckMiddlewareFn::ReceiveTx, n, Some(&s)).is_ok());
    assert!(gated.check(ForeignCheckMiddlewareFn::BuildCoinbase, n, Some(&s)).is_ok());
}

#[test]
fn single_use_calls_return_the_call_result() {
    let w = wallet();
    let mask = 5u8;
    let r = owner_single_use(w.clone(), Some(&mask), |api: &mut Owner<u32>, m: Option<&u8>| {
        *api.wallet_inst.lock().unwrap() += 1;
        assert_eq!(m, Some(&5));
        Ok(())
    });
    assert_eq!(r, Ok(()));
    assert_eq!(*w.lock().unwrap(), 8);
    let r = foreign_single_use(w.clone(), Some(mask), |api: &mut Foreign<u32, u8>| {
        assert!(api.check_installed);
        Err(ControllerError::GenericError("no".to_string()))
    });
    assert_eq!(r, Err(ControllerError::GenericError("no".to_string())));
}

#[test]
fn routes_share_the_wallet_handle_and_mask() {
    let w = wallet();
    let router = owner_router::<u32, u8>(w.clone(), Some(3), None, Some(true)).unwrap();
    for path in ["/v2/owner", "/v3/owner", "/v2/foreign"] {
        match router.route(&req(HttpMethod::Post, path, None)) {
            RouteOutcome::Dispatch(ApiHandler::OwnerV2(h)) => assert!(Arc::ptr_eq(&h.wallet, &w)),
            RouteOutcome::Dispatch(ApiHandler::OwnerV3(h)) => assert!(Arc::ptr_eq(&h.wallet, &w)),
            RouteOutcome::Dispatch(ApiHandler::ForeignV2(h)) => {
                assert!(Arc::ptr_eq(&h.wallet, &w));
                assert_eq!(h.keychain_mask, Some(3));
                let (api, _) = h.handle_post_request(Some(b"[]")).ok().unwrap();
                assert!(Arc::ptr_eq(&api.wallet_inst, &w));
                assert_eq!(api.keychain_mask, Some(3));
            },
            _ => panic!("expected a dispatch"),
        }
    }
    let router = foreign_router::<u32, u8>(w.clone(), None).unwrap();
    match router.route(&req(HttpMethod::Post, "/v2/foreign", None)) {
        RouteOutcome::Dispatch(ApiHandler::ForeignV2(h)) => {
            assert!(Arc::ptr_eq(&h.wallet, &w));
            assert_eq!(h.keychain_mask, None);
        },
        _ => panic!("expected a dispatch"),
    }
    let v2 = OwnerAPIHandlerV2::new(w.clone());
    let (api, _) = v2.handle_post_request(Some(b"{}")).ok().unwrap();
    assert!(Arc::ptr_eq(&api.wallet_inst, &w));
}
