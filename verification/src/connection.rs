//! Opening the database connection: what is needed to connect, and what to do
//! after an attempt failed.

use vstd::prelude::*;
use crate::error::ExportError;

verus! {

/// How to reach the database and how patiently.
#[derive(Debug, Clone)]
pub struct ConnectOpts {
    /// Connection string used to connect to the database.
    pub connection_string: Option<String>,
    /// Maximum number of retries after a connection attempt failed.
    pub max_connect_retries: u32,
    /// Time in seconds to wait between connect retries.
    pub connect_retry_interval: u64,
}

impl Default for ConnectOpts {
    /// No connection string, no retries, no waiting.
    fn default() -> (opts: Self)
        ensures
            opts.connection_string is None,
            opts.max_connect_retries == 0,
            opts.connect_retry_interval == 0,
    {
        ConnectOpts { connection_string: None, max_connect_retries: 0, connect_retry_interval: 0 }
    }
}

/// How one attempt to connect ended, as the caller classifies the driver's
/// answer.
#[derive(Debug, Clone, Copy, PartialEq, Eq, Structural)]
pub enum ConnectOutcome {
    /// The driver handed out a connection.
    Connected,
    /// The connection was refused, timed out or was reset: worth another try.
    Transient,
    /// The driver rejected the credentials, or failed for good otherwise.
    Rejected,
}

/// Whether `state`, the five characters by which a driver names the state
/// of a failed call, tells of a failure that may pass: the connection could
/// not be established (`08001`), the link broke (`08S01`), or a timeout
/// expired (`HYT00`, `HYT01`).
pub open spec fn is_transient_state(state: Seq<u8>) -> bool {
    ||| state == seq![48u8, 56u8, 48u8, 48u8, 49u8]
    ||| state == seq![48u8, 56u8, 83u8, 48u8, 49u8]
    ||| state == seq![72u8, 89u8, 84u8, 48u8, 48u8]
    ||| state == seq![72u8, 89u8, 84u8, 48u8, 49u8]
}

/// Whether `state` is the five bytes given.
fn is_state(state: &[u8], a: u8, b: u8, c: u8, d: u8, e: u8) -> (same: bool)
    ensures
        same == (state@ == seq![a, b, c, d, e]),
{
    if state.len() != 5 {
        return false;
    }
    let same = state[0] == a && state[1] == b && state[2] == c && state[3] == d && state[4] == e;
    assert(same ==> state@ =~= seq![a, b, c, d, e]);
    assert(!same ==> state@[0] != a || state@[1] != b || state@[2] != c || state@[3] != d
        || state@[4] != e);
    same
}

/// Classifies a failed attempt to connect by the state the driver reports:
/// a refused connection, a broken link and a timeout are transient, every
/// other failure, a rejected login among them, is final.
pub fn outcome_of_failure(state: &[u8]) -> (outcome: ConnectOutcome)
    ensures
        outcome == (if is_transient_state(state@) {
            ConnectOutcome::Transient
        } else {
            ConnectOutcome::Rejected
        }),
{
    if is_state(state, 48, 56, 48, 48, 49) || is_state(state, 48, 56, 83, 48, 49) || is_state(
        state,
        72,
        89,
        84,
        48,
        48,
    ) || is_state(state, 72, 89, 84, 48, 49) {
        ConnectOutcome::Transient
    } else {
        ConnectOutcome::Rejected
    }
}

/// What to do after an attempt to connect.
#[derive(Debug, Clone, Copy, PartialEq, Eq, Structural)]
pub enum ConnectStep {
    /// Go on with the connection.
    Proceed,
    /// Sleep for `wait_seconds`, then try again; `retries_made` counts this
    /// retry in.
    Retry { wait_seconds: u64, retries_made: u32 },
    /// Stop with this error.
    GiveUp(ExportError),
}

impl ConnectOpts {
    /// The step that follows an attempt which ended in `outcome`, after
    /// `retries_made` retries: a transient failure is retried after the fixed
    /// interval while retries are left, any other failure ends the export.
    pub open spec fn spec_after_attempt(
        &self,
        retries_made: u32,
        outcome: ConnectOutcome,
    ) -> ConnectStep {
        match outcome {
            ConnectOutcome::Connected => ConnectStep::Proceed,
            ConnectOutcome::Rejected => ConnectStep::GiveUp(ExportError::ConnectionFailure),
            ConnectOutcome::Transient => if retries_made < self.max_connect_retries {
                ConnectStep::Retry {
                    wait_seconds: self.connect_retry_interval,
                    retries_made: (retries_made + 1) as u32,
                }
            } else {
                ConnectStep::GiveUp(ExportError::ConnectionFailure)
            },
        }
    }

    /// Seconds spent sleeping until the export gives up on a database that
    /// answers every attempt with a transient failure, counted from the
    /// moment `retries_made` retries are behind.
    pub open spec fn wait_until_giving_up(&self, retries_made: u32) -> nat
        decreases self.max_connect_retries - retries_made,
    {
        if retries_made < self.max_connect_retries {
            self.connect_retry_interval as nat + self.wait_until_giving_up(
                (retries_made + 1) as u32,
            )
        } else {
            0
        }
    }

    /// The connection string to hand to the driver, or `InvalidConfiguration`
    /// exactly where none was given.
    pub fn connection_target(&self) -> (result: Result<&String, ExportError>)
        ensures
            match self.connection_string {
                Some(text) => result == Ok::<&String, ExportError>(&text),
                None => result == Err::<&String, ExportError>(ExportError::InvalidConfiguration),
            },
    {
        match &self.connection_string {
            Some(text) => Ok(text),
            None => Err(ExportError::InvalidConfiguration),
        }
    }

    /// Decides what follows an attempt to connect that ended in `outcome`
    /// after `retries_made` retries.
    pub fn after_attempt(&self, retries_made: u32, outcome: ConnectOutcome) -> (step: ConnectStep)
        ensures
            step == self.spec_after_attempt(retries_made, outcome),
    {
        match outcome {
            ConnectOutcome::Connected => ConnectStep::Proceed,
            ConnectOutcome::Rejected => ConnectStep::GiveUp(ExportError::ConnectionFailure),
            ConnectOutcome::Transient => {
                if retries_made < self.max_connect_retries {
                    ConnectStep::Retry {
                        wait_seconds: self.connect_retry_interval,
                        retries_made: retries_made + 1,
                    }
                } else {
                    ConnectStep::GiveUp(ExportError::ConnectionFailure)
                }
            },
        }
    }

    /// Against a database that cannot be reached, the export sleeps once per
    /// allowed retry, each time for the configured interval, before it gives
    /// up: counted from `retries_made` retries, the time slept is the
    /// interval times the retries that are left.
    pub proof fn lemma_unreachable_waits_every_retry(&self, retries_made: u32)
        requires
            retries_made <= self.max_connect_retries,
        ensures
            self.wait_until_giving_up(retries_made) == (self.max_connect_retries - retries_made)
                * self.connect_retry_interval,
            self.spec_after_attempt(self.max_connect_retries, ConnectOutcome::Transient)
                == ConnectStep::GiveUp(ExportError::ConnectionFailure),
        decreases self.max_connect_retries - retries_made,
    {
        let left = self.max_connect_retries - retries_made;
        let interval = self.connect_retry_interval as int;
        if retries_made < self.max_connect_retries {
            self.lemma_unreachable_waits_every_retry((retries_made + 1) as u32);
            assert(left * interval == interval + (left - 1) * interval) by (nonlinear_arith);
        } else {
            assert(left * interval == 0) by (nonlinear_arith)
                requires
                    left == 0,
            ;
        }
    }
}

} // verus!
