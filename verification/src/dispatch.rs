//! Transaction-type dispatch: which handler an incoming transaction's type
//! code routes to.

use vstd::prelude::*;

verus! {

/// Type code of a generic payment transaction.
pub const TX_TYPE_PAYMENT: i32 = 0;

/// Type code of an exchange order-create transaction.
pub const TX_TYPE_OFFER_CREATE: i32 = 7;

/// Type code of an exchange order-cancel transaction.
pub const TX_TYPE_OFFER_CANCEL: i32 = 8;

/// Type code of the application's own transfer transaction.
pub const LKS_TRANSFER_TYPE: i32 = 1234;

/// Where a transaction type routes: the transfer handler, the
/// exchange-operation handler, or unconditional pass-through.
#[derive(Clone, Copy, Debug, PartialEq, Eq, Structural)]
pub enum Route {
    /// Payment-shaped transactions: the transfer handler decides.
    Transfer,
    /// Order-book transactions: the exchange-operation handler decides.
    Dex,
    /// Every other type code: accept unconditionally, touch nothing.
    PassThrough,
}

/// The route a transaction type code takes.
pub open spec fn spec_route(tx_type: i32) -> Route {
    if tx_type == LKS_TRANSFER_TYPE || tx_type == TX_TYPE_PAYMENT {
        Route::Transfer
    } else if tx_type == TX_TYPE_OFFER_CREATE || tx_type == TX_TYPE_OFFER_CANCEL {
        Route::Dex
    } else {
        Route::PassThrough
    }
}

/// Routes a transaction type code to its handler. Type codes outside the
/// recognized set fall through to pass-through; none is rejected. Callers
/// read the fee and amount slots only when the route requires a handler.
pub fn route_for_type(tx_type: i32) -> (r: Route)
    ensures
        r == spec_route(tx_type),
{
    if tx_type == LKS_TRANSFER_TYPE || tx_type == TX_TYPE_PAYMENT {
        Route::Transfer
    } else if tx_type == TX_TYPE_OFFER_CREATE || tx_type == TX_TYPE_OFFER_CANCEL {
        Route::Dex
    } else {
        Route::PassThrough
    }
}

} // verus!
