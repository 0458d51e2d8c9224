//! The per-version API handlers, the facades they build for each request, and
//! the single-use entry points.
//!
//! A POST takes two steps. `handle_post_request` builds a fresh facade over the
//! shared wallet handle and parses the body; the caller dispatches the parsed
//! request to the API's JSON-RPC method table with that facade, and `post`
//! turns the outcome into the response. Only a failure before dispatch (a body
//! that cannot be received or is not JSON) answers with status 500. An error
//! raised by a wallet operation, a rejection by the compatibility check
//! included, travels inside the JSON-RPC reply as an error object, and the
//! response has status 200.
use vstd::prelude::*;

use std::sync::{Arc, Mutex};

use easy_jsonrpc::MaybeReply;

use crate::error::ControllerError;
use crate::gate::{
    check_middleware, gate_allows, incompatible_slate_text, opt_slate, ForeignCheckMiddlewareFn,
    NodeVersionInfo, Slate,
};
use crate::response::{is_envelope, HttpResponse, STATUS_OK};
use crate::rpc::{
    options_response, parsed_from, post_prelude, post_prelude_failure, post_prelude_ok,
    preflight_text, reply_envelope, reply_response,
};

verus! {

/// A lock that admits one holder at a time.
#[verifier::external_type_specification]
#[verifier::external_body]
#[verifier::reject_recursive_types(T)]
pub struct ExMutex<T: ?Sized>(Mutex<T>);

/// The shared, exclusively-locked handle to a wallet instance.
pub type WalletHandle<W> = Arc<Mutex<W>>;

/// The Owner API facade over a wallet, built afresh for each call.
#[verifier::reject_recursive_types(W)]
pub struct Owner<W> {
    /// The shared wallet handle.
    pub wallet_inst: WalletHandle<W>,
}

impl<W> Owner<W> {
    /// A facade over the given wallet handle.
    pub fn new(wallet_inst: WalletHandle<W>) -> (r: Owner<W>)
        ensures
            r.wallet_inst == wallet_inst,
    {
        Owner { wallet_inst }
    }
}

/// The Foreign API facade over a wallet, with the key mask threaded into
/// every call and, when installed, the compatibility gate run before every
/// operation.
#[verifier::reject_recursive_types(W)]
pub struct Foreign<W, K> {
    /// The shared wallet handle.
    pub wallet_inst: WalletHandle<W>,
    /// The optional mask over the wallet's stored keys.
    pub keychain_mask: Option<K>,
    /// Whether the compatibility gate runs before each operation.
    pub check_installed: bool,
}

impl<W, K> Foreign<W, K> {
    /// A facade over the given wallet handle and key mask.
    pub fn new(wallet_inst: WalletHandle<W>, keychain_mask: Option<K>, check_installed: bool) -> (r:
        Foreign<W, K>)
        ensures
            r.wallet_inst == wallet_inst,
            r.keychain_mask == keychain_mask,
            r.check_installed == check_installed,
    {
        Foreign { wallet_inst, keychain_mask, check_installed }
    }

    /// The precondition of an operation: the compatibility check's verdict when it is
    /// installed, success otherwise.
    pub fn check(
        &self,
        name: ForeignCheckMiddlewareFn,
        node_version_info: Option<NodeVersionInfo>,
        slate: Option<&Slate>,
    ) -> (r: Result<(), ControllerError>)
        ensures
            self.check_installed ==> (r is Ok <==> gate_allows(
                name,
                node_version_info,
                opt_slate(slate),
            )),
            !self.check_installed ==> r is Ok,
            r matches Err(e) ==> e matches ControllerError::Compatibility(m) && m@
                == incompatible_slate_text(),
    {
        if self.check_installed {
            check_middleware(name, node_version_info, slate)
        } else {
            Ok(())
        }
    }
}

/// The Owner API handler, version 2.
#[verifier::reject_recursive_types(W)]
pub struct OwnerAPIHandlerV2<W> {
    /// The shared wallet handle.
    pub wallet: WalletHandle<W>,
}

impl<W> OwnerAPIHandlerV2<W> {
    /// A handler over the given wallet handle.
    pub fn new(wallet: WalletHandle<W>) -> (r: OwnerAPIHandlerV2<W>)
        ensures
            r.wallet == wallet,
    {
        OwnerAPIHandlerV2 { wallet }
    }

    /// The first step of a POST: a fresh Owner facade over the wallet and
    /// the parsed body to dispatch to the version 2 Owner method table, or the failure
    /// response when the body could not be received or is not JSON.
    pub fn handle_post_request(&self, body: Option<&[u8]>) -> (r: Result<
        (Owner<W>, serde_json::Value),
        HttpResponse,
    >)
        ensures
            post_prelude_ok(body, r is Ok),
            r matches Err(resp) ==> post_prelude_failure(body, resp@),
            r matches Ok((_, v)) ==> parsed_from(body, v),
            r matches Ok((api, _)) ==> api.wallet_inst == self.wallet,
    {
        let api = Owner::new(self.wallet.clone());
        match post_prelude(body) {
            Ok(v) => Ok((api, v)),
            Err(resp) => Err(resp),
        }
    }

    /// The response to the outcome of the dispatch.
    pub fn post(&self, outcome: MaybeReply) -> (r: HttpResponse)
        ensures
            reply_envelope(outcome, r@),
    {
        reply_response(outcome)
    }

    /// The response to a CORS preflight.
    pub fn options(&self) -> (r: HttpResponse)
        ensures
            is_envelope(r@, STATUS_OK, preflight_text()),
    {
        options_response()
    }
}

/// The Owner API handler, version 3, whose method table adds the secure
/// channel and the wallet lifecycle operations.
#[verifier::reject_recursive_types(W)]
pub struct OwnerAPIHandlerV3<W> {
    /// The shared wallet handle.
    pub wallet: WalletHandle<W>,
}

impl<W> OwnerAPIHandlerV3<W> {
    /// A handler over the given wallet handle.
    pub fn new(wallet: WalletHandle<W>) -> (r: OwnerAPIHandlerV3<W>)
        ensures
            r.wallet == wallet,
    {
        OwnerAPIHandlerV3 { wallet }
    }

    /// The first step of a POST: a fresh Owner facade over the wallet and
    /// the parsed body to dispatch to the version 3 Owner method table, or the failure
    /// response when the body could not be received or is not JSON.
    pub fn handle_post_request(&self, body: Option<&[u8]>) -> (r: Result<
        (Owner<W>, serde_json::Value),
        HttpResponse,
    >)
        ensures
            post_prelude_ok(body, r is Ok),
            r matches Err(resp) ==> post_prelude_failure(body, resp@),
            r matches Ok((_, v)) ==> parsed_from(body, v),
            r matches Ok((api, _)) ==> api.wallet_inst == self.wallet,
    {
        let api = Owner::new(self.wallet.clone());
        match post_prelude(body) {
            Ok(v) => Ok((api, v)),
            Err(resp) => Err(resp),
        }
    }

    /// The response to the outcome of the dispatch.
    pub fn post(&self, outcome: MaybeReply) -> (r: HttpResponse)
        ensures
            reply_envelope(outcome, r@),
    {
        reply_response(outcome)
    }

    /// The response to a CORS preflight.
    pub fn options(&self) -> (r: HttpResponse)
        ensures
            is_envelope(r@, STATUS_OK, preflight_text()),
    {
        options_response()
    }
}

/// Whether `copy` is a clone of the key mask `mask`: both absent, or both
/// present with the second a clone of the first.
pub open spec fn mask_cloned<K: Clone>(mask: Option<K>, copy: Option<K>) -> bool {
    match mask {
        None => copy is None,
        Some(m) => copy matches Some(c) && cloned(m, c),
    }
}

/// The Foreign API handler, version 2: every request gets a facade that holds
/// the configured key mask and runs the compatibility gate.
#[verifier::reject_recursive_types(W)]
pub struct ForeignAPIHandlerV2<W, K> {
    /// The shared wallet handle.
    pub wallet: WalletHandle<W>,
    /// The optional mask over the wallet's stored keys.
    pub keychain_mask: Option<K>,
}

impl<W, K: Clone> ForeignAPIHandlerV2<W, K> {
    /// A handler over the given wallet handle and key mask.
    pub fn new(wallet: WalletHandle<W>, keychain_mask: Option<K>) -> (r: ForeignAPIHandlerV2<W, K>)
        ensures
            r.wallet == wallet,
            r.keychain_mask == keychain_mask,
    {
        ForeignAPIHandlerV2 { wallet, keychain_mask }
    }

    /// The first step of a POST: a fresh Foreign facade over the wallet, with
    /// the key mask and the compatibility gate installed, and the parsed body
    /// to dispatch to the Foreign method table; or the failure response when
    /// the body could not be received or is not JSON.
    pub fn handle_post_request(&self, body: Option<&[u8]>) -> (r: Result<
        (Foreign<W, K>, serde_json::Value),
        HttpResponse,
    >)
        ensures
            post_prelude_ok(body, r is Ok),
            r matches Err(resp) ==> post_prelude_failure(body, resp@),
            r matches Ok((_, v)) ==> parsed_from(body, v),
            r matches Ok((api, _)) ==> api.check_installed && api.wallet_inst == self.wallet
                && mask_cloned(self.keychain_mask, api.keychain_mask),
    {
        let api = Foreign::new(self.wallet.clone(), self.keychain_mask.clone(), true);
        match post_prelude(body) {
            Ok(v) => Ok((api, v)),
            Err(resp) => Err(resp),
        }
    }

    /// The response to the outcome of the dispatch.
    pub fn post(&self, outcome: MaybeReply) -> (r: HttpResponse)
        ensures
            reply_envelope(outcome, r@),
    {
        reply_response(outcome)
    }

    /// The response to a CORS preflight.
    pub fn options(&self) -> (r: HttpResponse)
        ensures
            is_envelope(r@, STATUS_OK, preflight_text()),
    {
        options_response()
    }
}

/// Runs one Owner API call against a wallet, for a single-use (command line)
/// invocation: the call gets a fresh facade over the handle and the key mask,
/// and its result is returned.
pub fn owner_single_use<'a, W, K, F>(
    wallet: WalletHandle<W>,
    keychain_mask: Option<&'a K>,
    f: F,
) -> (r: Result<(), ControllerError>) where
    F: FnOnce(&mut Owner<W>, Option<&'a K>) -> Result<(), ControllerError>,

    requires
        forall|api: &mut Owner<W>| f.requires((api, keychain_mask)),
    ensures
        exists|api: &mut Owner<W>| api.wallet_inst == wallet && f.ensures((api, keychain_mask), r),
{
    let mut api = Owner::new(wallet);
    let res = f(&mut api, keychain_mask);
    assert(exists|a: &mut Owner<W>| a.wallet_inst == wallet && f.ensures((a, keychain_mask), res));
    res
}

/// Runs one Foreign API call against a wallet, for a single-use (command line)
/// invocation: the call gets a fresh facade over the handle that holds the key
/// mask and runs the compatibility gate before each operation, and its result
/// is returned.
pub fn foreign_single_use<W, K, F>(wallet: WalletHandle<W>, keychain_mask: Option<K>, f: F) -> (r:
    Result<(), ControllerError>) where F: FnOnce(&mut Foreign<W, K>) -> Result<(), ControllerError>,

    requires
        forall|api: &mut Foreign<W, K>| f.requires((api,)),
    ensures
        exists|api: &mut Foreign<W, K>|
            {
                &&& api.wallet_inst == wallet
                &&& api.check_installed
                &&& api.keychain_mask == keychain_mask
                &&& f.ensures((api,), r)
            },
{
    let mut api = Foreign::new(wallet, keychain_mask, true);
    let res = f(&mut api);
    assert(exists|a: &mut Foreign<W, K>|
        {
            &&& a.wallet_inst == wallet
            &&& a.check_installed
            &&& a.keychain_mask == keychain_mask
            &&& f.ensures((a,), res)
        });
    res
}

} // verus!
