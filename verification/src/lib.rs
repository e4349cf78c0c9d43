//! Session lifecycle and notification pipeline for PlusLife test runs.
//!
//! A diagnostic device reports the progress of one test run through a series
//! of webhooks. This library tracks each run as a session in a registry, folds
//! the device's events through a two-state protocol machine, turns the samples
//! into a normalised chart, and decides what is pushed to live viewers and what
//! is mailed to the person who started the run.
//!
//! Everything here is synchronous and free of I/O: the functions say what has
//! to be drawn, sent or answered, and the surrounding program does it.

use vstd::prelude::*;

use crate::messages::Message;
use crate::state::State;

pub mod address;
pub mod graph;
pub mod mailgun;
pub mod messages;
pub mod notifier;
pub mod sessions;
pub mod state;
pub mod text;
pub mod websockets;

verus! {

/// Everything that can go wrong while a session is served.
#[derive(Debug, PartialEq)]
pub enum Error {
    /// The device said the test had finished but sent no result.
    TestFinishedMissingResult,
    /// The test was expected to finish and did not; the state is kept.
    MissingTestFinished(State),
    /// The event makes no sense in the session's state; the state is kept.
    UnexpectedMessage(State, Box<Message>),
    /// A sample names a channel that the chart has no line for.
    TooManyChannels(usize),
    /// A setting the server was started with cannot be used.
    InvalidEnvVar { name: String, cause: String },
    /// Reading or writing failed.
    Io(String),
    /// A value could not be turned into JSON, or JSON into a value.
    Serde(String),
    /// The chart could not be drawn.
    Plotting(String),
    /// The mail provider could not be reached or refused the request.
    Reqwest(String),
}

/// One webhook body as it is written to the log: the message, and when it
/// came in.
#[derive(Debug)]
pub struct LogWrapper {
    pub timestamp: jiff::Timestamp,
    pub message: Message,
}

impl Error {
    /// The state that a session goes back to after this error, if the error
    /// leaves it one. An error without one ends the session.
    pub open spec fn restorable(self) -> Option<State> {
        match self {
            Error::MissingTestFinished(state) => Some(state),
            Error::UnexpectedMessage(state, _) => Some(state),
            _ => None,
        }
    }

    /// The state to restore, borrowed.
    pub fn get_state(&self) -> (state: Option<&State>)
        ensures
            match state {
                Some(kept) => self.restorable() == Some(*kept),
                None => self.restorable() is None,
            },
    {
        match self {
            Error::TestFinishedMissingResult => None,
            Error::MissingTestFinished(state) => Some(state),
            Error::UnexpectedMessage(state, _) => Some(state),
            Error::TooManyChannels(_) => None,
            Error::InvalidEnvVar { .. } => None,
            Error::Io(_) => None,
            Error::Serde(_) => None,
            Error::Plotting(_) => None,
            Error::Reqwest(_) => None,
        }
    }

    /// Splits the errors in two: `Ok` with the state to restore, or the error
    /// itself where it leaves none.
    pub fn into_state(self) -> (split: Result<State, Error>)
        ensures
            match split {
                Ok(kept) => self.restorable() == Some(kept),
                Err(fatal) => self.restorable() is None && fatal == self,
            },
    {
        match self {
            Error::MissingTestFinished(state) => Ok(state),
            Error::UnexpectedMessage(state, _) => Ok(state),
            other => Err(other),
        }
    }
}

} // verus!
