use influxdb_timestream_connector::error::ConnectorError;
use influxdb_timestream_connector::ingestion::{
    chunk_records, provision_action, ProvisionAction, ResourceKind, WriteAction, WriteScheduler,
    MAX_TIMESTREAM_BATCH_SIZE,
};
use influxdb_timestream_connector::records_builder::{MeasureValueType, Record, TimeUnit};

fn record(i: usize) -> Record {
    Record {
        measure_name: "m".to_string(),
        measure_values: vec![],
        measure_value_type: MeasureValueType::Multi,
        time: i.to_string(),
        time_unit: TimeUnit::Nanoseconds,
        dimensions: vec![],
    }
}

fn records(n: usize) -> Vec<Record> {
    (0..n).map(record).collect()
}

#[test]
fn chunking_counts_and_sizes() {
    for m in [0usize, 1, 99, 100, 101, 250, 5000] {
        let input = records(m);
        let chunks = chunk_records(&input);
        assert_eq!(chunks.len(), (m + 99) / 100);
        for (k, chunk) in chunks.iter().enumerate() {
            if k + 1 < chunks.len() {
                assert_eq!(chunk.len(), MAX_TIMESTREAM_BATCH_SIZE);
            } else {
                assert!(!chunk.is_empty() && chunk.len() <= MAX_TIMESTREAM_BATCH_SIZE);
            }
        }
        let flat: Vec<Record> = chunks.into_iter().flatten().collect();
        assert_eq!(flat, input);
    }
}

#[test]
fn chunking_250_records() {
    let chunks = chunk_records(&records(250));
    let sizes: Vec<usize> = chunks.iter().map(|c| c.len()).collect();
    assert_eq!(sizes, vec![100, 100, 50]);
    assert_eq!(chunks[2][0].time, "200");
}

/// Drives a scheduler with writes that complete in an adversarial order and
/// checks the permit bound at every step.
fn run(permits: usize, total: usize, failing: &[usize]) -> (Result<(), ConnectorError>, usize, Vec<usize>) {
    let mut s = WriteScheduler::new(permits, total);
    let mut in_flight: Vec<usize> = Vec::new();
    let mut started: Vec<usize> = Vec::new();
    let mut peak = 0;
    loop {
        match s.next_action() {
            WriteAction::Dispatch(i) => {
                in_flight.push(i);
                started.push(i);
                assert!(s.in_flight() <= permits);
                peak = peak.max(s.in_flight());
            }
            WriteAction::Wait => {
                // complete the most recently started write first
                let i = in_flight.pop().expect("a write in flight");
                let outcome = if failing.contains(&i) {
                    Err(ConnectorError::Write(format!("chunk {}", i)))
                } else {
                    Ok(())
                };
                s.complete(outcome);
            }
            WriteAction::Finish => break,
        }
    }
    assert!(in_flight.is_empty());
    (s.finish(), peak, started)
}

#[test]
fn scheduler_never_exceeds_permits() {
    let (result, peak, started) = run(12, 57, &[]);
    assert_eq!(result, Ok(()));
    assert_eq!(peak, 12);
    assert_eq!(started, (0..57).collect::<Vec<usize>>());
    let (_, peak, _) = run(16, 3, &[]);
    assert_eq!(peak, 3);
}

#[test]
fn scheduler_reports_first_failure_after_draining() {
    // with one permit chunks complete in order, so chunk 2 fails first
    let (result, _, started) = run(1, 6, &[4, 2]);
    assert_eq!(result, Err(ConnectorError::Write("chunk 2".to_string())));
    assert_eq!(started.len(), 6);
}

#[test]
fn scheduler_with_no_chunks_finishes_at_once() {
    let mut s = WriteScheduler::new(16, 0);
    assert_eq!(s.next_action(), WriteAction::Finish);
    assert_eq!(s.finish(), Ok(()));
}

#[test]
fn provisioning_decisions() {
    assert_eq!(provision_action(ResourceKind::Table, "t", Ok(true), false), ProvisionAction::Ready);
    assert_eq!(provision_action(ResourceKind::Table, "t", Ok(false), true), ProvisionAction::Create);
    assert_eq!(
        provision_action(ResourceKind::Table, "t", Ok(false), false),
        ProvisionAction::Fail(ConnectorError::TableMissing("t".to_string()))
    );
    assert_eq!(
        provision_action(ResourceKind::Database, "db", Ok(false), false),
        ProvisionAction::Fail(ConnectorError::DatabaseMissing("db".to_string()))
    );
    assert_eq!(
        provision_action(ResourceKind::Database, "db", Err("denied".to_string()), true),
        ProvisionAction::Fail(ConnectorError::Provision("denied".to_string()))
    );
}
