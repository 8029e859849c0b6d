//! A minimal ledger program core that records short text messages into
//! newly created storage accounts.
//!
//! The library has two halves, run in order on every invocation:
//! an instruction decoder that parses and validates the binary
//! instruction buffer, and an account materializer that computes the
//! storage size, drives the host's account-creation service, and lays
//! out the persisted record byte for byte.

pub mod errors;
pub mod instruction;
pub mod little_endian;
pub mod record;
pub mod session;

pub use errors::TweetError;
pub use instruction::process_instruction;
pub use instruction::TweetInstruction;
pub use session::SendTweet;
