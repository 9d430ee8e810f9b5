//! Risk and settlement core of a leveraged perpetual-futures venue.
//!
//! The engine prices positions, enforces margin and leverage limits,
//! validates oracle prices, and liquidates undercollateralized accounts.
//! Every operation is a pure state transition over plain records: the
//! caller supplies the validated inputs (records, the clock, an oracle
//! snapshot) and receives the mutated records together with the amounts
//! that must move between accounts. Storage, addressing and token
//! transfers are external collaborators and live outside this crate.

pub mod errors;
pub mod fixed_point;
pub mod state;
pub mod oracle;
pub mod trade;
pub mod lifecycle;
pub mod liquidation;
pub mod admin;
