use wallet_controller::error::ControllerError;
use wallet_controller::gate::{
    check_middleware, ForeignCheckMiddlewareFn, NodeVersionInfo, Slate, VersionCompatInfo,
    CURRENT_SLATE_VERSION, GRIN_BLOCK_HEADER_VERSION,
};

fn slate(version: u16, block_header_version: u16) -> Slate {
    Slate { version_info: VersionCompatInfo { version, block_header_version } }
}

fn node(block_header_version: u16) -> Option<NodeVersionInfo> {
    Some(NodeVersionInfo { block_header_version })
}

const HINT: &str =
    "Incoming Slate is not compatible with this wallet. Please upgrade the node or use a different one.";

#[test]
fn old_slate_rejected_whatever_the_node() {
    let s = slate(CURRENT_SLATE_VERSION - 1, 1);
    for n in [None, node(1), node(2), node(3), node(9)] {
        let r = check_middleware(ForeignCheckMiddlewareFn::ReceiveTx, n, Some(&s));
        assert_eq!(r, Err(ControllerError::Compatibility(HINT.to_string())));
    }
}

#[test]
fn first_epoch_needs_header_version_one() {
    let two = slate(CURRENT_SLATE_VERSION, 2);
    let one = slate(CURRENT_SLATE_VERSION, 1);
    assert!(check_middleware(ForeignCheckMiddlewareFn::ReceiveTx, node(1), Some(&two)).is_err());
    assert!(check_middleware(ForeignCheckMiddlewareFn::ReceiveTx, node(1), Some(&one)).is_ok());
    // no node information means the first epoch
    assert!(check_middleware(ForeignCheckMiddlewareFn::FinalizeInvoiceTx, None, Some(&two)).is_err());
    assert!(check_middleware(ForeignCheckMiddlewareFn::FinalizeInvoiceTx, None, Some(&one)).is_ok());
}

#[test]
fn later_epoch_needs_minimum_header_version() {
    let below = slate(CURRENT_SLATE_VERSION, GRIN_BLOCK_HEADER_VERSION - 1);
    let at = slate(CURRENT_SLATE_VERSION, GRIN_BLOCK_HEADER_VERSION);
    let above = slate(CURRENT_SLATE_VERSION + 1, GRIN_BLOCK_HEADER_VERSION + 1);
    let f = ForeignCheckMiddlewareFn::VerifySlateMessages;
    assert!(check_middleware(f, node(3), Some(&below)).is_err());
    assert!(check_middleware(f, node(3), Some(&at)).is_ok());
    assert!(check_middleware(f, node(3), Some(&above)).is_ok());
    assert_eq!(GRIN_BLOCK_HEADER_VERSION, 3);
    assert_eq!(CURRENT_SLATE_VERSION, 3);
}

#[test]
fn coinbase_always_allowed() {
    let bad = slate(0, 0);
    let f = ForeignCheckMiddlewareFn::BuildCoinbase;
    assert_eq!(check_middleware(f, None, None), Ok(()));
    assert_eq!(check_middleware(f, None, Some(&bad)), Ok(()));
    assert_eq!(check_middleware(f, node(3), Some(&bad)), Ok(()));
}

#[test]
fn no_slate_allowed() {
    assert_eq!(check_middleware(ForeignCheckMiddlewareFn::ReceiveTx, node(3), None), Ok(()));
}

#[test]
fn compatibility_error_text() {
    let e = ControllerError::Compatibility(HINT.to_string());
    assert_eq!(e.message(), HINT);
    let g = ControllerError::GenericError("boom".to_string());
    assert_eq!(g.message(), "Generic error: boom");
}
