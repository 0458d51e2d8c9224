//! The compatibility gate: decides whether an incoming slate may be processed
//! by a Foreign API operation.
use vstd::prelude::*;

use crate::error::ControllerError;

verus! {

/// The lowest slate version this wallet accepts.
pub const CURRENT_SLATE_VERSION: u16 = 3;

/// The lowest block header version a slate must carry once the node is past
/// the first protocol epoch.
pub const GRIN_BLOCK_HEADER_VERSION: u16 = 3;

/// The Foreign API operations that are subject to the compatibility check.
#[derive(Debug, Clone, Copy, PartialEq, Eq, Structural)]
pub enum ForeignCheckMiddlewareFn {
    /// Verifying the messages of a slate.
    VerifySlateMessages,
    /// Building a coinbase output: exempt from every check.
    BuildCoinbase,
    /// Receiving a transaction from a counterparty.
    ReceiveTx,
    /// Finalizing an invoice transaction.
    FinalizeInvoiceTx,
}

/// What the connected node reports of its protocol version.
#[derive(Debug, Clone, Copy, PartialEq, Eq, Structural)]
pub struct NodeVersionInfo {
    /// The block header version (protocol epoch) the node is at.
    pub block_header_version: u16,
}

/// The versions that a slate declares.
#[derive(Debug, Clone, Copy, PartialEq, Eq, Structural)]
pub struct VersionCompatInfo {
    /// The slate format version.
    pub version: u16,
    /// The block header version the slate's sender was built against.
    pub block_header_version: u16,
}

/// The part of a slate that the compatibility check reads.
#[derive(Debug, Clone, Copy, PartialEq, Eq, Structural)]
pub struct Slate {
    /// The slate's declared versions.
    pub version_info: VersionCompatInfo,
}

/// The protocol epoch the wallet works in: the node's block header version,
/// or the oldest epoch when the node reported none.
pub open spec fn epoch_floor(node_version_info: Option<NodeVersionInfo>) -> u16 {
    match node_version_info {
        Some(n) => n.block_header_version,
        None => 1,
    }
}

/// Whether a slate is incompatible with a wallet working in epoch `bhv`.
pub open spec fn slate_incompatible(bhv: u16, s: Slate) -> bool {
    ||| s.version_info.version < CURRENT_SLATE_VERSION
    ||| (bhv == 1 && s.version_info.block_header_version != 1)
    ||| (bhv > 1 && s.version_info.block_header_version < GRIN_BLOCK_HEADER_VERSION)
}

/// Whether the compatibility check lets an operation through.
pub open spec fn gate_allows(
    name: ForeignCheckMiddlewareFn,
    node_version_info: Option<NodeVersionInfo>,
    slate: Option<Slate>,
) -> bool {
    match name {
        ForeignCheckMiddlewareFn::BuildCoinbase => true,
        _ => match slate {
            Some(s) => !slate_incompatible(epoch_floor(node_version_info), s),
            None => true,
        },
    }
}

/// The remediation hint carried by a rejection.
pub open spec fn incompatible_slate_text() -> Seq<char> {
    "Incoming Slate is not compatible with this wallet. Please upgrade the node or use a different one."@
}

/// Checks an incoming slate against the wallet's supported slate version and
/// the node's protocol epoch. Coinbase construction is always allowed.
pub fn check_middleware(
    name: ForeignCheckMiddlewareFn,
    node_version_info: Option<NodeVersionInfo>,
    slate: Option<&Slate>,
) -> (r: Result<(), ControllerError>)
    ensures
        r is Ok <==> gate_allows(name, node_version_info, opt_slate(slate)),
        r matches Err(e) ==> e matches ControllerError::Compatibility(m) && m@
            == incompatible_slate_text(),
{
    match name {
        ForeignCheckMiddlewareFn::BuildCoinbase => Ok(()),
        _ => {
            let mut bhv: u16 = 1;
            if let Some(n) = node_version_info {
                bhv = n.block_header_version;
            }
            if let Some(s) = slate {
                if s.version_info.version < CURRENT_SLATE_VERSION || (bhv == 1
                    && s.version_info.block_header_version != 1) || (bhv > 1
                    && s.version_info.block_header_version < GRIN_BLOCK_HEADER_VERSION) {
                    return Err(
                        ControllerError::Compatibility(
                            String::from_str(
                                "Incoming Slate is not compatible with this wallet. Please upgrade the node or use a different one.",
                            ),
                        ),
                    );
                }
            }
            Ok(())
        },
    }
}

/// The slate behind an optional reference.
pub open spec fn opt_slate(slate: Option<&Slate>) -> Option<Slate> {
    match slate {
        Some(s) => Some(*s),
        None => None,
    }
}

/// A slate older than the supported slate version is rejected for every
/// operation but coinbase construction, whatever the node reports.
pub proof fn lemma_old_slate_rejected(
    name: ForeignCheckMiddlewareFn,
    node_version_info: Option<NodeVersionInfo>,
    s: Slate,
)
    requires
        name != ForeignCheckMiddlewareFn::BuildCoinbase,
        s.version_info.version < CURRENT_SLATE_VERSION,
    ensures
        !gate_allows(name, node_version_info, Some(s)),
{
}

/// In the first epoch (no node information, or a node at header version 1) a
/// current slate is accepted exactly when it declares header version 1.
pub proof fn lemma_first_epoch_exact(
    name: ForeignCheckMiddlewareFn,
    node_version_info: Option<NodeVersionInfo>,
    s: Slate,
)
    requires
        name != ForeignCheckMiddlewareFn::BuildCoinbase,
        epoch_floor(node_version_info) == 1,
        s.version_info.version >= CURRENT_SLATE_VERSION,
    ensures
        gate_allows(name, node_version_info, Some(s)) <==> s.version_info.block_header_version
            == 1,
{
}

/// Past the first epoch a current slate is accepted exactly when its header
/// version reaches the supported minimum.
pub proof fn lemma_later_epoch_minimum(
    name: ForeignCheckMiddlewareFn,
    node_version_info: Option<NodeVersionInfo>,
    s: Slate,
)
    requires
        name != ForeignCheckMiddlewareFn::BuildCoinbase,
        epoch_floor(node_version_info) > 1,
        s.version_info.version >= CURRENT_SLATE_VERSION,
    ensures
        gate_allows(name, node_version_info, Some(s)) <==> s.version_info.block_header_version
            >= GRIN_BLOCK_HEADER_VERSION,
{
}

/// Coinbase construction passes the compatibility check with any slate or none, whatever the
/// node reports.
pub proof fn lemma_coinbase_exempt(
    node_version_info: Option<NodeVersionInfo>,
    slate: Option<Slate>,
)
    ensures
        gate_allows(ForeignCheckMiddlewareFn::BuildCoinbase, node_version_info, slate),
{
}

/// Without a slate there is nothing to negotiate, and every operation passes.
pub proof fn lemma_no_slate_allowed(
    name: ForeignCheckMiddlewareFn,
    node_version_info: Option<NodeVersionInfo>,
)
    ensures
        gate_allows(name, node_version_info, None),
{
}

} // verus!
