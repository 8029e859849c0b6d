//! The account materializer, as a session between this core and the
//! host environment.
//!
//! The host alone can query the fee schedule, create an account, hand
//! out write access to its data, and read the trusted clock. The core
//! keeps every decision: the order of the requests, the error each
//! host refusal maps to, and the bytes the new account is filled with.
//! A caller runs the session by performing the returned action and
//! feeding the host's reply back into `step`.

use vstd::prelude::*;
use vstd::pervasive::unreached;
use crate::errors::TweetError;
use crate::instruction::TweetInstruction;
use crate::record::{spec_record, spec_space, tweet_space, serialize_record};

verus! {

/// The two states of the storage account that this core can bring
/// about: it either does not exist yet, or holds a complete record.
#[derive(Clone, Copy, Debug, PartialEq, Eq, Structural)]
pub enum StorageState {
    Nonexistent,
    Populated,
}

/// Where a session stands: which host reply it is waiting for, or how
/// it ended.
#[derive(Clone, Copy, Debug, PartialEq, Eq, Structural)]
pub enum Phase {
    /// Waiting for the rent-exempt minimum balance.
    AwaitRent,
    /// Waiting for the outcome of the account-creation request.
    AwaitCreation { lamports: u64 },
    /// Waiting for write access to the new account's data.
    AwaitAccess,
    /// Waiting for the current time from the host clock.
    AwaitClock,
    /// The record bytes have been handed out; the account is populated.
    Complete,
    /// A host refusal ended the session with this error.
    Aborted { error: TweetError },
}

/// A host reply to the pending request of a session.
#[derive(Clone, Copy, Debug, PartialEq, Eq, Structural)]
pub enum HostEvent {
    /// The rent-exempt minimum balance for the requested size.
    RentMinimum { lamports: u64 },
    /// The account-creation request went through.
    CreationDone,
    /// The host rejected the account-creation request.
    CreationRejected,
    /// The new account's data is writable.
    AccessGranted,
    /// The new account's data was not writable.
    AccessDenied,
    /// The current time from the host's trusted clock.
    ClockRead { unix_timestamp: i64 },
    /// The clock service was unavailable.
    ClockFailed,
}

/// What the caller must do next on the core's behalf.
#[derive(Debug, PartialEq)]
pub enum HostAction {
    /// Ask the host for the rent-exempt minimum of `space` bytes.
    QueryRent { space: u64 },
    /// Create the storage account: transfer `lamports` from the
    /// author, sized to `space` bytes, owned by this program.
    CreateAccount { lamports: u64, space: u64 },
    /// Obtain exclusive write access to the new account's data.
    BorrowData,
    /// Read the current time from the host's trusted clock.
    ReadClock,
    /// Write these bytes over the whole account data, byte for byte.
    WriteRecord { bytes: Vec<u8> },
    /// Abort the call with this error; the host rolls back as a unit.
    Fail { error: TweetError },
}

/// One send-tweet call in progress: the validated payload, the author
/// identity, and the phase of the host conversation.
pub struct SendTweet {
    tweet: TweetInstruction,
    author: [u8; 32],
    phase: Phase,
}

impl SendTweet {
    /// The phase the session is in.
    pub closed spec fn spec_phase(self) -> Phase {
        self.phase
    }

    /// The payload the session was started with.
    pub closed spec fn spec_tweet(self) -> (Seq<u8>, Seq<u8>) {
        self.tweet@
    }

    /// The author identity the session was started with.
    pub closed spec fn spec_author(self) -> Seq<u8> {
        self.author@
    }

    /// The storage account holds a record exactly when the session
    /// completed; every other phase leaves it nonexistent.
    pub open spec fn spec_storage_state(self) -> StorageState {
        if self.spec_phase() is Complete {
            StorageState::Populated
        } else {
            StorageState::Nonexistent
        }
    }

    /// Which host replies answer the pending request of this session.
    pub open spec fn expects(self, event: HostEvent) -> bool {
        match self.spec_phase() {
            Phase::AwaitRent => event is RentMinimum,
            Phase::AwaitCreation { .. } => event is CreationDone || event is CreationRejected,
            Phase::AwaitAccess => event is AccessGranted || event is AccessDenied,
            Phase::AwaitClock => event is ClockRead || event is ClockFailed,
            Phase::Complete => false,
            Phase::Aborted { .. } => false,
        }
    }

    /// Opens a session for a validated payload and author, with the
    /// first host request: the rent-exempt minimum for exactly the
    /// record's size.
    pub fn new(tweet: TweetInstruction, author: [u8; 32]) -> (r: (SendTweet, HostAction))
        ensures
            r.0.spec_phase() == Phase::AwaitRent,
            r.0.spec_tweet() == tweet@,
            r.0.spec_author() == author@,
            r.1 == (HostAction::QueryRent {
                space: spec_space(tweet@.0.len() as int, tweet@.1.len() as int) as u64,
            }),
    {
        let space = tweet_space(&tweet);
        (
            SendTweet { tweet, author, phase: Phase::AwaitRent },
            HostAction::QueryRent { space },
        )
    }

    /// The phase the session is in.
    pub fn phase(&self) -> (r: Phase)
        ensures
            r == self.spec_phase(),
    {
        self.phase
    }

    /// The state of the storage account as this session left it.
    pub fn storage_state(&self) -> (r: StorageState)
        ensures
            r == self.spec_storage_state(),
    {
        match self.phase {
            Phase::Complete => StorageState::Populated,
            _ => StorageState::Nonexistent,
        }
    }

    /// Advances the session on a host reply and says what to do next.
    ///
    /// The payload and author never change. Each host refusal aborts
    /// with its own error, at the earliest possible check; the only
    /// path to `Complete` runs through every host service in order,
    /// and the bytes handed out there are the full record, sized to
    /// fill the account exactly.
    pub fn step(self, event: HostEvent) -> (r: (SendTweet, HostAction))
        requires
            self.expects(event),
        ensures
            r.0.spec_tweet() == self.spec_tweet(),
            r.0.spec_author() == self.spec_author(),
            (match (self.spec_phase(), event) {
                (Phase::AwaitRent, HostEvent::RentMinimum { lamports }) => {
                    &&& r.0.spec_phase() == (Phase::AwaitCreation { lamports })
                    &&& r.1 == (HostAction::CreateAccount {
                        lamports,
                        space: spec_space(
                            self.spec_tweet().0.len() as int,
                            self.spec_tweet().1.len() as int,
                        ) as u64,
                    })
                },
                (Phase::AwaitCreation { .. }, HostEvent::CreationDone) => {
                    &&& r.0.spec_phase() == Phase::AwaitAccess
                    &&& r.1 == HostAction::BorrowData
                },
                (Phase::AwaitCreation { .. }, HostEvent::CreationRejected) => {
                    &&& r.0.spec_phase() == (Phase::Aborted {
                        error: TweetError::AllocationFailed,
                    })
                    &&& r.1 == (HostAction::Fail { error: TweetError::AllocationFailed })
                },
                (Phase::AwaitAccess, HostEvent::AccessGranted) => {
                    &&& r.0.spec_phase() == Phase::AwaitClock
                    &&& r.1 == HostAction::ReadClock
                },
                (Phase::AwaitAccess, HostEvent::AccessDenied) => {
                    &&& r.0.spec_phase() == (Phase::Aborted {
                        error: TweetError::AccountAccessDenied,
                    })
                    &&& r.1 == (HostAction::Fail { error: TweetError::AccountAccessDenied })
                },
                (Phase::AwaitClock, HostEvent::ClockRead { unix_timestamp }) => {
                    &&& r.0.spec_phase() == Phase::Complete
                    &&& r.1 matches HostAction::WriteRecord { bytes }
                    &&& (r.1)->WriteRecord_bytes@ == spec_record(
                        self.spec_author(),
                        unix_timestamp,
                        self.spec_tweet().0,
                        self.spec_tweet().1,
                    )
                    &&& (r.1)->WriteRecord_bytes@.len() == spec_space(
                        self.spec_tweet().0.len() as int,
                        self.spec_tweet().1.len() as int,
                    )
                },
                (Phase::AwaitClock, HostEvent::ClockFailed) => {
                    &&& r.0.spec_phase() == (Phase::Aborted {
                        error: TweetError::ClockUnavailable,
                    })
                    &&& r.1 == (HostAction::Fail { error: TweetError::ClockUnavailable })
                },
                _ => false,
            }),
            r.0.spec_storage_state() == StorageState::Populated <==> r.0.spec_phase()
                is Complete,
    {
        match (self.phase, event) {
            (Phase::AwaitRent, HostEvent::RentMinimum { lamports }) => {
                let space = tweet_space(&self.tweet);
                (
                    SendTweet {
                        tweet: self.tweet,
                        author: self.author,
                        phase: Phase::AwaitCreation { lamports },
                    },
                    HostAction::CreateAccount { lamports, space },
                )
            },
            (Phase::AwaitCreation { .. }, HostEvent::CreationDone) => {
                (
                    SendTweet {
                        tweet: self.tweet,
                        author: self.author,
                        phase: Phase::AwaitAccess,
                    },
                    HostAction::BorrowData,
                )
            },
            (Phase::AwaitCreation { .. }, HostEvent::CreationRejected) => {
                (
                    SendTweet {
                        tweet: self.tweet,
                        author: self.author,
                        phase: Phase::Aborted { error: TweetError::AllocationFailed },
                    },
                    HostAction::Fail { error: TweetError::AllocationFailed },
                )
            },
            (Phase::AwaitAccess, HostEvent::AccessGranted) => {
                (
                    SendTweet {
                        tweet: self.tweet,
                        author: self.author,
                        phase: Phase::AwaitClock,
                    },
                    HostAction::ReadClock,
                )
            },
            (Phase::AwaitAccess, HostEvent::AccessDenied) => {
                (
                    SendTweet {
                        tweet: self.tweet,
                        author: self.author,
                        phase: Phase::Aborted { error: TweetError::AccountAccessDenied },
                    },
                    HostAction::Fail { error: TweetError::AccountAccessDenied },
                )
            },
            (Phase::AwaitClock, HostEvent::ClockRead { unix_timestamp }) => {
                let bytes = serialize_record(&self.author, unix_timestamp, &self.tweet);
                (
                    SendTweet {
                        tweet: self.tweet,
                        author: self.author,
                        phase: Phase::Complete,
                    },
                    HostAction::WriteRecord { bytes },
                )
            },
            (Phase::AwaitClock, HostEvent::ClockFailed) => {
                (
                    SendTweet {
                        tweet: self.tweet,
                        author: self.author,
                        phase: Phase::Aborted { error: TweetError::ClockUnavailable },
                    },
                    HostAction::Fail { error: TweetError::ClockUnavailable },
                )
            },
            _ => unreached(),
        }
    }
}

} // verus!
