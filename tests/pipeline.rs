use qdrant_up::batching::batch_count;
use qdrant_up::compression::{resolve_compression, CompressionMode, CompressionPlan};
use qdrant_up::config::PipelineConfig;
use qdrant_up::connector::connect;
use qdrant_up::endpoint::{ensure_grpc_port, port_to_apply, GRPC_PORT};
use qdrant_up::errors::PipelineError;
use qdrant_up::provision::{after_creation, after_existence_check, Metric, ProvisionAction};
use qdrant_up::upload::{ProgressEvent, Step, UploadRun};

/// What a run over `n` points in batches of `b` sends and reports, where the
/// upsert of batch `fail_at` (1-based) fails.
struct Trace {
    slices: Vec<(usize, usize)>,
    events: Vec<ProgressEvent>,
    outcome: Result<usize, PipelineError>,
}

fn simulate(n: usize, b: usize, fail_at: Option<usize>) -> Trace {
    let mut run = UploadRun::new(n, b).unwrap();
    let mut trace = Trace { slices: Vec::new(), events: Vec::new(), outcome: Ok(0) };
    loop {
        match run.next_step() {
            Step::Upsert { batch, start, end } => {
                trace.slices.push((start, end));
                match run.record(fail_at != Some(batch)) {
                    Ok(event) => trace.events.push(event),
                    Err(e) => {
                        trace.outcome = Err(e);
                        assert_eq!(run.next_step(), Step::Halted { batch });
                        return trace;
                    }
                }
            }
            Step::Done { total_points } => {
                trace.outcome = Ok(total_points);
                return trace;
            }
            Step::Halted { .. } => unreachable!(),
        }
    }
}

#[test]
fn batch_count_is_ceiling() {
    assert_eq!(batch_count(0, 100), 0);
    assert_eq!(batch_count(1, 100), 1);
    assert_eq!(batch_count(100, 100), 1);
    assert_eq!(batch_count(101, 100), 2);
    assert_eq!(batch_count(250, 100), 3);
    assert_eq!(batch_count(usize::MAX, 1), usize::MAX);
    assert_eq!(batch_count(usize::MAX, usize::MAX), 1);
    assert_eq!(batch_count(usize::MAX, 2), usize::MAX / 2 + 1);
}

#[test]
fn batches_cover_every_point() {
    for n in 0..60usize {
        for b in 1..12usize {
            let t = simulate(n, b, None);
            let total = (n + b - 1) / b;
            assert_eq!(t.events.len(), total);
            let sum: usize = t.events.iter().map(|e| e.points).sum();
            assert_eq!(sum, n);
            if n > 0 {
                let last = t.events.last().unwrap().points;
                assert_eq!(last, if n % b == 0 { b } else { n % b });
            }
            let mut next = 0;
            for &(start, end) in &t.slices {
                assert_eq!(start, next);
                assert!(end > start && end - start <= b);
                next = end;
            }
            assert_eq!(next, n);
            assert_eq!(t.outcome, Ok(n));
        }
    }
}

#[test]
fn progress_indices_run_from_one_to_total() {
    let t = simulate(37, 5, None);
    let indices: Vec<usize> = t.events.iter().map(|e| e.batch).collect();
    assert_eq!(indices, (1..=8).collect::<Vec<usize>>());
    assert!(t.events.iter().all(|e| e.total == 8));
}

#[test]
fn empty_input_completes_with_zero_points() {
    let t = simulate(0, 100, None);
    assert!(t.slices.is_empty());
    assert!(t.events.is_empty());
    assert_eq!(t.outcome, Ok(0));
    let run = UploadRun::new(0, 100).unwrap();
    assert_eq!(run.total_batches(), 0);
    assert_eq!(run.next_step(), Step::Done { total_points: 0 });
}

#[test]
fn two_hundred_fifty_points_in_batches_of_one_hundred() {
    let t = simulate(250, 100, None);
    assert_eq!(t.slices, vec![(0, 100), (100, 200), (200, 250)]);
    assert_eq!(
        t.events,
        vec![
            ProgressEvent { batch: 1, total: 3, points: 100 },
            ProgressEvent { batch: 2, total: 3, points: 100 },
            ProgressEvent { batch: 3, total: 3, points: 50 },
        ]
    );
    assert_eq!(t.outcome, Ok(250));
}

#[test]
fn second_batch_failure_stops_the_run() {
    let t = simulate(250, 100, Some(2));
    assert_eq!(t.events, vec![ProgressEvent { batch: 1, total: 3, points: 100 }]);
    assert_eq!(t.slices, vec![(0, 100), (100, 200)]);
    assert_eq!(t.outcome, Err(PipelineError::UpsertError { batch: 2 }));
}

#[test]
fn failure_reports_nothing_for_later_batches() {
    for k in 1..=5usize {
        let t = simulate(50, 10, Some(k));
        assert_eq!(t.events.len(), k - 1);
        assert!(t.events.iter().all(|e| e.batch < k));
        assert_eq!(t.outcome, Err(PipelineError::UpsertError { batch: k }));
    }
}

#[test]
fn zero_batch_size_is_refused() {
    assert!(matches!(UploadRun::new(10, 0), Err(PipelineError::ZeroBatchSize)));
    assert!(matches!(UploadRun::new(0, 0), Err(PipelineError::ZeroBatchSize)));
}

#[test]
fn run_counters() {
    let mut run = UploadRun::new(7, 3).unwrap();
    assert_eq!(run.total_batches(), 3);
    assert_eq!(run.completed(), 0);
    assert_eq!(run.record(true), Ok(ProgressEvent { batch: 1, total: 3, points: 3 }));
    assert_eq!(run.completed(), 1);
}

#[test]
fn endpoint_without_port_gets_grpc_port() {
    assert_eq!(ensure_grpc_port("http://localhost").unwrap(), "http://localhost:6334/");
    assert_eq!(
        ensure_grpc_port("https://xyz.cloud.qdrant.io").unwrap(),
        "https://xyz.cloud.qdrant.io:6334/"
    );
}

#[test]
fn endpoint_with_port_is_kept() {
    assert_eq!(ensure_grpc_port("http://localhost:1234").unwrap(), "http://localhost:1234/");
    assert_eq!(ensure_grpc_port("https://host:6333/").unwrap(), "https://host:6333/");
}

#[test]
fn unparseable_endpoint_is_refused() {
    assert_eq!(ensure_grpc_port("not a url"), Err(PipelineError::InvalidEndpoint));
    assert_eq!(ensure_grpc_port(""), Err(PipelineError::InvalidEndpoint));
    assert_eq!(ensure_grpc_port("http://"), Err(PipelineError::InvalidEndpoint));
}

#[test]
fn endpoint_that_cannot_take_a_port_is_refused() {
    assert_eq!(ensure_grpc_port("file:///tmp/x"), Err(PipelineError::InvalidEndpoint));
    assert_eq!(ensure_grpc_port("mailto:someone@example.com"), Err(PipelineError::InvalidEndpoint));
}

#[test]
fn port_decision() {
    assert_eq!(port_to_apply(None), Some(GRPC_PORT));
    assert_eq!(port_to_apply(None), Some(6334));
    assert_eq!(port_to_apply(Some(1234)), None);
}

#[test]
fn compression_substitutes_gzip() {
    assert_eq!(
        resolve_compression(CompressionMode::Disabled),
        CompressionPlan { gzip: false, substituted: false }
    );
    let gzip = resolve_compression(CompressionMode::Gzip);
    assert_eq!(gzip, CompressionPlan { gzip: true, substituted: false });
    for mode in [CompressionMode::Zstd, CompressionMode::Lz4] {
        let plan = resolve_compression(mode);
        assert_eq!(plan.gzip, gzip.gzip);
        assert!(plan.substituted);
    }
}

#[test]
fn connector_accepts_every_compression_mode() {
    for mode in [
        CompressionMode::Disabled,
        CompressionMode::Gzip,
        CompressionMode::Zstd,
        CompressionMode::Lz4,
    ] {
        assert!(connect("http://localhost:6334/", "key", 30, mode).is_ok());
    }
}

#[test]
fn connector_refuses_a_malformed_endpoint() {
    assert!(matches!(
        connect("http://[::1", "key", 30, CompressionMode::Disabled),
        Err(PipelineError::ConnectionError)
    ));
}

#[test]
fn existing_collection_is_kept() {
    assert_eq!(after_existence_check(Some(true), 768), Ok(ProvisionAction::Keep));
    // a second pass against the same store decides the same way
    assert_eq!(after_existence_check(Some(true), 768), Ok(ProvisionAction::Keep));
    assert_eq!(after_existence_check(Some(true), 3), Ok(ProvisionAction::Keep));
}

#[test]
fn missing_collection_is_created_with_cosine() {
    assert_eq!(
        after_existence_check(Some(false), 768),
        Ok(ProvisionAction::Create { dimensions: 768, metric: Metric::Cosine })
    );
    assert_eq!(after_creation(true), Ok(()));
}

#[test]
fn provisioning_failures() {
    assert_eq!(after_existence_check(None, 768), Err(PipelineError::ProvisioningError));
    assert_eq!(after_creation(false), Err(PipelineError::ProvisioningError));
}

#[test]
fn collection_exists_then_upserts_proceed() {
    assert_eq!(after_existence_check(Some(true), 4), Ok(ProvisionAction::Keep));
    let t = simulate(3, 2, None);
    assert_eq!(t.slices, vec![(0, 2), (2, 3)]);
    assert_eq!(t.outcome, Ok(3));
}

#[test]
fn config_defaults() {
    let c = PipelineConfig::with_defaults(
        "http://localhost".to_string(),
        "key".to_string(),
        "points.json".to_string(),
    );
    assert_eq!(c.url, "http://localhost");
    assert_eq!(c.api_key, "key");
    assert_eq!(c.input, "points.json");
    assert_eq!(c.collection, "documents");
    assert_eq!(c.dimensions, 768);
    assert_eq!(c.batch_size, 100);
    assert_eq!(c.timeout_secs, 30);
    assert_eq!(c.pool_size, 3);
    assert_eq!(c.compression, CompressionMode::Disabled);
}
