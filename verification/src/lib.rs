//! Distribution of the fees of a shared liquidity position, once a day and
//! page by page, between the investors of the position and its creator.
//!
//! Investors are paid in proportion to what each of them still has locked,
//! and together no more than the share of the fees that the policy grants
//! and the day's cap allows. Shares too small to be worth a transfer are
//! carried to the next page. The page that closes a day sends all that is
//! left of the fee pool to the creator.
//!
//! The library decides and keeps the books; it moves nothing. A caller reads
//! the accounts, calls [`engine::crank_distribute`], makes the transfers that
//! the outcome names and stores the progress record.
//!
//! - [`model`] says what a call does, as mathematics; [`laws`] proves what
//!   follows from it: fees are conserved, a repeated page pays nothing, the
//!   cap holds, dust is not lost.
//! - [`engine`] holds the two operations, [`relay`] the request for the claim
//!   that may go before a distribution.
//! - [`share`], [`payout`], [`day`] and [`amounts`] compute the parts.
//! - [`state`], [`accounts`], [`events`], [`errors`], [`keys`] and
//!   [`authority`] hold the data.

pub mod accounts;
pub mod amounts;
pub mod authority;
pub mod day;
pub mod engine;
pub mod errors;
pub mod events;
pub mod keys;
pub mod laws;
pub mod model;
pub mod payout;
pub mod relay;
pub mod share;
pub mod state;
