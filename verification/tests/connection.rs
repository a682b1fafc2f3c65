use odbc2parquet::connection::{outcome_of_failure, ConnectOpts, ConnectOutcome, ConnectStep};
use odbc2parquet::error::ExportError;

fn opts(retries: u32, interval: u64) -> ConnectOpts {
    ConnectOpts {
        connection_string: Some(String::from("Driver={Any};Server=nowhere;")),
        max_connect_retries: retries,
        connect_retry_interval: interval,
    }
}

#[test]
fn default_connect_opts_are_empty() {
    let opts = ConnectOpts::default();
    assert!(opts.connection_string.is_none());
    assert_eq!(opts.max_connect_retries, 0);
    assert_eq!(opts.connect_retry_interval, 0);
}

#[test]
fn missing_connection_string_is_invalid_configuration() {
    let opts = ConnectOpts::default();
    assert_eq!(opts.connection_target(), Err(ExportError::InvalidConfiguration));
}

#[test]
fn connection_string_is_handed_out() {
    let opts = opts(0, 0);
    assert_eq!(
        opts.connection_target().map(|s| s.as_str()),
        Ok("Driver={Any};Server=nowhere;")
    );
}

#[test]
fn success_proceeds() {
    assert_eq!(opts(3, 5).after_attempt(0, ConnectOutcome::Connected), ConnectStep::Proceed);
    assert_eq!(opts(0, 0).after_attempt(7, ConnectOutcome::Connected), ConnectStep::Proceed);
}

#[test]
fn rejected_credentials_are_not_retried() {
    assert_eq!(
        opts(3, 5).after_attempt(0, ConnectOutcome::Rejected),
        ConnectStep::GiveUp(ExportError::ConnectionFailure)
    );
}

#[test]
fn unreachable_host_with_two_retries_waits_two_seconds() {
    let opts = opts(2, 1);
    let mut retries = 0;
    let mut waited = 0;
    let mut attempts = 0;
    let error = loop {
        attempts += 1;
        match opts.after_attempt(retries, ConnectOutcome::Transient) {
            ConnectStep::Retry { wait_seconds, retries_made } => {
                assert_eq!(wait_seconds, 1);
                assert_eq!(retries_made, retries + 1);
                waited += wait_seconds;
                retries = retries_made;
            }
            ConnectStep::GiveUp(error) => break error,
            ConnectStep::Proceed => panic!("an unreachable host does not connect"),
        }
    };
    assert_eq!(error, ExportError::ConnectionFailure);
    assert_eq!(attempts, 3);
    assert_eq!(waited, 2);
}

#[test]
fn no_retries_gives_up_at_once() {
    assert_eq!(
        opts(0, 30).after_attempt(0, ConnectOutcome::Transient),
        ConnectStep::GiveUp(ExportError::ConnectionFailure)
    );
}

#[test]
fn transient_failure_then_success() {
    let opts = opts(5, 7);
    assert_eq!(
        opts.after_attempt(0, ConnectOutcome::Transient),
        ConnectStep::Retry { wait_seconds: 7, retries_made: 1 }
    );
    assert_eq!(opts.after_attempt(1, ConnectOutcome::Connected), ConnectStep::Proceed);
}

#[test]
fn refused_broken_and_timed_out_connections_are_transient() {
    for state in ["08001", "08S01", "HYT00", "HYT01"] {
        assert_eq!(outcome_of_failure(state.as_bytes()), ConnectOutcome::Transient, "{state}");
    }
}

#[test]
fn every_other_failure_is_final() {
    for state in ["28000", "08004", "08002", "HY000", "IM002", "08s01", "hyt00", "", "0800", "080011"] {
        assert_eq!(outcome_of_failure(state.as_bytes()), ConnectOutcome::Rejected, "{state:?}");
    }
}
