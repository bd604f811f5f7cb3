//! The satellite of a token economy whose revenue is gathered in one central account.
//!
//! On every chain but the one that hosts the central account, funds that would otherwise be
//! burned (transaction fees, coretime revenue, slashes) are gathered in a satellite account.
//! Sending them on to the central account is not part of it yet.
//!
//! ```text
//! +-----------------+     +-----------------+     +-----------------+
//! |   relay chain   |     |  system chain   |     |  system chain   |
//! |    satellite    |     |    satellite    |     |    satellite    |
//! +--------+--------+     +--------+--------+     +--------+--------+
//!          +-----------------------+-----------------------+
//!                                  v
//!                        +-------------------+
//!                        |  central account  |
//!                        +-------------------+
//! ```
//!
//! The satellite decides and the runtime acts. A handler settles which call on the currency or
//! the account registry comes next, as a value of [`requests`], and goes on from the reply:
//!
//! - [`AccumulateInSatellite`] is a [`FundingSink`]: it takes funds out of an account and into the
//!   satellite account.
//! - [`SlashToSatellite`] takes imbalances, such as slashes.
//! - [`DealWithFeesSplit`] parts fees between the satellite account and another handler.
//! - [`SinkToSatellite`] takes imbalances of the older currency interface.
//! - [`DirectBurn`] is the sink that burns after all.
//!
//! [`books`] says what the requests do to accounts, [`operations`] what each operation does, and
//! [`laws`] what holds of the whole.
pub mod account;
pub mod balance;
pub mod books;
pub mod credit;
pub mod funding;
pub mod handlers;
pub mod laws;
pub mod operations;
pub mod pallet;
pub mod requests;
pub mod tokens;
pub mod weights;

pub use account::{AccountId, PalletId};
pub use balance::Balance;
pub use credit::Credit;
pub use funding::{BurnHandler, DirectBurn, FundingSink};
pub use handlers::{AccumulateInSatellite, DealWithFeesSplit, SinkToSatellite, SlashToSatellite};
pub use pallet::{Config, Event, GenesisConfig, Pallet};
pub use tokens::{Fortitude, Precision, Preservation};
pub use weights::{DbWeight, Weight};
