//! The routers of the Owner and Foreign listeners: which routes they serve,
//! and the credential that guards the Owner listener.
use vstd::prelude::*;

use crate::error::ControllerError;
use crate::handlers::{ForeignAPIHandlerV2, OwnerAPIHandlerV2, OwnerAPIHandlerV3, WalletHandle};
use crate::router::{
    credential_matches, first_refusal, route_decision, BasicAuthMiddleware, HttpMethod,
    RequestView, RouteDecision, Router, RouterView,
};

verus! {

/// The handler bound to one route of a listener.
#[verifier::reject_recursive_types(W)]
pub enum ApiHandler<W, K> {
    /// The version 2 Owner API.
    OwnerV2(OwnerAPIHandlerV2<W>),
    /// The version 3 Owner API.
    OwnerV3(OwnerAPIHandlerV3<W>),
    /// The version 2 Foreign API.
    ForeignV2(ForeignAPIHandlerV2<W, K>),
}

/// The challenge the Owner listener sends to a request without valid
/// credentials.
pub open spec fn owner_basic_realm() -> Seq<char> {
    "Basic realm=\"GrinOwnerAPI\""@
}

/// What base64 makes of the UTF-8 bytes of a text, in the standard alphabet
/// with padding.
pub uninterp spec fn base64_of(s: Seq<char>) -> Seq<char>;

/// Relies on base64::encode: the standard, padded base64 text of the bytes.
#[verifier::external_body]
fn to_base64(s: &str) -> (r: String)
    ensures
        r@ == base64_of(s@),
{
    base64::encode(s)
}

/// The `Authorization` value that the Owner listener expects for a secret:
/// HTTP Basic credentials for the user "grin".
pub open spec fn owner_credential(api_secret: Seq<char>) -> Seq<char> {
    "Basic "@ + base64_of("grin:"@ + api_secret)
}

/// The `Authorization` value that the Owner listener expects for a secret.
pub fn basic_auth_credential(api_secret: &str) -> (r: String)
    ensures
        r@ == owner_credential(api_secret@),
{
    let mut user = String::from_str("grin:");
    user.append(api_secret);
    let encoded = to_base64(user.as_str());
    let mut r = String::from_str("Basic ");
    r.append(encoded.as_str());
    r
}

/// The middleware chain of an Owner listener: one credential check when a
/// secret is configured, none otherwise.
pub open spec fn owner_auth(api_secret: Option<Seq<char>>) -> Seq<(Seq<char>, Seq<char>)> {
    match api_secret {
        Some(s) => seq![(owner_credential(s), owner_basic_realm())],
        None => Seq::empty(),
    }
}

/// The paths an Owner listener serves.
pub open spec fn owner_paths(with_foreign: bool) -> Seq<Seq<char>> {
    if with_foreign {
        seq!["/v2/owner"@, "/v3/owner"@, "/v2/foreign"@]
    } else {
        seq!["/v2/owner"@, "/v3/owner"@]
    }
}

/// The paths a Foreign listener serves.
pub open spec fn foreign_paths() -> Seq<Seq<char>> {
    seq!["/v2/foreign"@]
}

pub open spec fn opt_view(s: Option<String>) -> Option<Seq<char>> {
    match s {
        Some(t) => Some(t@),
        None => None,
    }
}

fn route_failure() -> (e: ControllerError) {
    ControllerError::GenericError(String::from_str("Router failed to add route"))
}

/// The router of an Owner listener: the version 2 and 3 Owner APIs, the
/// version 2 Foreign API too when so configured, and HTTP Basic
/// authentication when a secret is configured.
pub fn owner_router<W, K: Clone>(
    wallet: WalletHandle<W>,
    keychain_mask: Option<K>,
    api_secret: Option<String>,
    owner_api_include_foreign: Option<bool>,
) -> (r: Result<Router<ApiHandler<W, K>>, ControllerError>)
    ensures
        r matches Ok(router) && {
            &&& router.wf()
            &&& router@.paths == owner_paths(owner_api_include_foreign == Some(true))
            &&& router@.handlers.len() == router@.paths.len()
            &&& router@.auth == owner_auth(opt_view(api_secret))
            &&& router@.handlers[0] matches ApiHandler::OwnerV2(h) && h.wallet == wallet
            &&& router@.handlers[1] matches ApiHandler::OwnerV3(h) && h.wallet == wallet
            &&& owner_api_include_foreign == Some(true) ==> (router@.handlers[2] matches
                ApiHandler::ForeignV2(h) && h.wallet == wallet && h.keychain_mask == keychain_mask)
        },
{
    proof {
        reveal_strlit("/v2/owner");
        reveal_strlit("/v3/owner");
        reveal_strlit("/v2/foreign");
    }
    let ghost secret = opt_view(api_secret);
    let mut router = Router::new();
    match api_secret {
        Some(s) => {
            let cred = basic_auth_credential(s.as_str());
            router.add_middleware(
                BasicAuthMiddleware::new(cred, String::from_str("Basic realm=\"GrinOwnerAPI\"")),
            );
            assert(router@.auth =~= owner_auth(secret));
        },
        None => {
            assert(router@.auth =~= owner_auth(secret));
        },
    }
    let api_handler_v2 = OwnerAPIHandlerV2::new(wallet.clone());
    let api_handler_v3 = OwnerAPIHandlerV3::new(wallet.clone());
    let ghost p0 = "/v2/owner"@;
    let ghost p1 = "/v3/owner"@;
    let ghost p2 = "/v2/foreign"@;
    assert(p0[2] != p1[2]);
    assert(p0[4] != p2[4]);
    assert(p1[2] != p2[2]);
    if router.add_route(String::from_str("/v2/owner"), ApiHandler::OwnerV2(api_handler_v2)).is_err() {
        return Err(route_failure());
    }
    if router.add_route(String::from_str("/v3/owner"), ApiHandler::OwnerV3(api_handler_v3)).is_err() {
        return Err(route_failure());
    }
    let with_foreign = match owner_api_include_foreign {
        Some(b) => b,
        None => false,
    };
    if with_foreign {
        let foreign_api_handler_v2 = ForeignAPIHandlerV2::new(wallet, keychain_mask);
        if router.add_route(
            String::from_str("/v2/foreign"),
            ApiHandler::ForeignV2(foreign_api_handler_v2),
        ).is_err() {
            return Err(route_failure());
        }
    }
    assert(router@.paths =~= owner_paths(owner_api_include_foreign == Some(true)));
    Ok(router)
}

/// The router of a Foreign listener: the version 2 Foreign API alone, with
/// no authentication.
pub fn foreign_router<W, K: Clone>(wallet: WalletHandle<W>, keychain_mask: Option<K>) -> (r: Result<
    Router<ApiHandler<W, K>>,
    ControllerError,
>)
    ensures
        r matches Ok(router) && {
            &&& router.wf()
            &&& router@.paths == foreign_paths()
            &&& router@.handlers.len() == router@.paths.len()
            &&& router@.auth == Seq::<(Seq<char>, Seq<char>)>::empty()
            &&& router@.handlers[0] matches ApiHandler::ForeignV2(h) && h.wallet == wallet
                && h.keychain_mask == keychain_mask
        },
{
    let api_handler_v2 = ForeignAPIHandlerV2::new(wallet, keychain_mask);
    let mut router = Router::new();
    if router.add_route(String::from_str("/v2/foreign"), ApiHandler::ForeignV2(api_handler_v2)).is_err() {
        return Err(route_failure());
    }
    assert(router@.paths =~= foreign_paths());
    Ok(router)
}

/// Authentication on an Owner listener is opt-in: with a secret configured, a
/// request to any of its routes that carries no `Authorization` header (and is
/// not a preflight) is refused with the Owner challenge; with none, the same
/// POST reaches its route's handler.
pub proof fn lemma_owner_auth_opt_in<H>(
    v: RouterView<H>,
    api_secret: Option<Seq<char>>,
    req: RequestView,
)
    requires
        v.auth == owner_auth(api_secret),
        v.paths.contains(req.path),
        req.authorization is None,
        req.method != HttpMethod::Options,
    ensures
        api_secret is Some ==> route_decision(v, req) == RouteDecision::Unauthorized(0)
            && v.auth[0].1 == owner_basic_realm(),
        (api_secret is None && req.method == HttpMethod::Post) ==> route_decision(v, req)
            == RouteDecision::Dispatch(v.paths.index_of(req.path)),
{
    if api_secret is Some {
        assert(first_refusal(v.auth, req.authorization, 0));
        assert(!credential_matches(req.authorization, v.auth[0].0));
        let c = choose|x: int| first_refusal(v.auth, req.authorization, x);
        assert(c == 0);
    }
}

} // verus!
