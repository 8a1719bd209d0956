//! Verified core of an on-chain NFT marketplace orchestrator.
//!
//! The marketplace lets users register collection templates, spawn collection
//! instances, mint tokens through them, and trade tokens by fixed-price sale,
//! English auction, or private offer.  Token bookkeeping itself lives in
//! independently deployed collection actors; the orchestrator talks to them
//! only through asynchronous request/reply messages.
//!
//! Every state-changing operation that contacts a foreign actor is split in
//! two: a *start* function that validates the request, performs the
//! reservation writes that must precede the suspension point, and returns the
//! data of the outgoing call; and a *reply* function that consumes the foreign
//! actor's answer and finalizes local state.  Both halves return the exact
//! list of value transfers the marketplace must perform, so the custody
//! discipline — attached value is always either forwarded or returned, on
//! every exit path — is part of each contract.
//!
//! The surrounding message loop (decoding inbound requests, issuing the
//! calls, waking the right continuation with its reply) is ordinary unverified
//! plumbing and lives outside this crate.

pub mod auction;
pub mod creation;
pub mod laws;
pub mod marketplace;
pub mod offer;
pub mod payment;
pub mod sale;
pub mod snapshot;
pub mod store;
pub mod types;
