//! An escrow-mediated advertising-payment agreement.
//!
//! An advertiser deposits a fixed amount of a fungible token; a publisher is
//! paid per ad view above a baseline over a fixed period; an escrow party
//! attests the final view count and triggers settlement. The whole state
//! machine — initialization, view attestation and payment execution, with its
//! authorization and arithmetic rules — lives here as pure, verified
//! functions of (stored record, caller identity, current time, arguments).
//! The host that supplies durable storage, the clock and the token ledger
//! drives this machine from outside and performs the transfers it reports.

pub mod laws;
pub mod machine;
pub mod types;
