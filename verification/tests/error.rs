use particl_indexer::error::IngestError;

#[test]
fn every_error_has_its_message() {
    let cases = vec![
        (IngestError::BadEndpoint, "Particld IP parsing error."),
        (IngestError::DatabaseUnreachable, "Failed to initialize DB."),
        (IngestError::HeightOverflow, "There is no height after the top one."),
        (IngestError::MissingOutput, "The block lacks the output that is read."),
        (IngestError::UnexpectedOutput, "Unexpected type of vout when validating address."),
        (IngestError::NoStakeAddress, "The list of stake addresses is empty."),
        (IngestError::MalformedVote, "Sanity checks for parsed vote stats failed."),
        (IngestError::IncompleteTally, "The tally lacks a bookkeeping key."),
        (IngestError::MalformedTally, "An outcome of the tally is not a count and a percentage."),
        (IngestError::UnexpectedNotification, "Got unexpected value from ZMQ."),
        (IngestError::UnexpectedEvent, "The engine got an answer it did not ask for."),
    ];
    for (error, message) in cases {
        assert_eq!(error.message(), message);
    }
}

#[test]
fn an_upstream_failure_speaks_for_itself() {
    assert_eq!(IngestError::Upstream("connection refused".to_string()).message(), "connection refused");
    assert_eq!(IngestError::Upstream(String::new()).message(), "");
}

#[test]
fn inconsistent_heights_show_both_sums() {
    assert_eq!(
        IngestError::InconsistentHeights { expected: 6, stored: 5 }.message(),
        "Database is insane! Computed fold: 6, stored fold: 5"
    );
    assert_eq!(
        IngestError::InconsistentHeights { expected: u128::MAX, stored: u64::MAX }.message(),
        "Database is insane! Computed fold: 340282366920938463463374607431768211455, stored fold: 18446744073709551615"
    );
    assert_eq!(
        IngestError::InconsistentHeights { expected: 0, stored: 0 }.message(),
        "Database is insane! Computed fold: 0, stored fold: 0"
    );
}
