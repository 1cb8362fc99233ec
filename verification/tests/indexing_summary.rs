use graphcast_cli::operator::operation::{summarize_indexing_statuses, BlockProgress};
use graphcast_cli::query::{
    Block, ChainStatus, DecodeFault, IndexerInfo, IndexerUrl, IndexingStatus, QueryError,
    SubgraphHealth,
};

fn chain(latest: &str, head: &str) -> ChainStatus {
    ChainStatus {
        network: "mainnet".to_string(),
        latest_block: Block { number: latest.to_string(), hash: "0xaa".to_string() },
        chain_head_block: Block { number: head.to_string(), hash: "0xbb".to_string() },
    }
}

fn with_chains(id: &str, synced: bool, chains: Vec<ChainStatus>) -> Result<IndexerInfo, QueryError> {
    Ok(IndexerInfo {
        info: IndexerUrl { id: id.to_string(), url: format!("https://{}.example/", id) },
        status: IndexingStatus { health: SubgraphHealth::healthy, synced, chains },
    })
}

fn ok(id: &str, latest: &str, head: &str, synced: bool) -> Result<IndexerInfo, QueryError> {
    with_chains(id, synced, vec![chain(latest, head)])
}

fn network_error() -> Result<IndexerInfo, QueryError> {
    Err(QueryError::Network("unreachable".to_string()))
}

fn progress(latest_block: i64, chain_head_block: i64) -> BlockProgress {
    BlockProgress { latest_block, chain_head_block }
}

fn average_percent(samples: &[BlockProgress]) -> Option<f64> {
    if samples.is_empty() {
        return None;
    }
    let sum: f64 = samples
        .iter()
        .map(|s| s.latest_block as f64 / s.chain_head_block as f64 * 100.0)
        .sum();
    Some(sum / samples.len() as f64)
}

#[test]
fn two_results_and_one_error() {
    let summary = summarize_indexing_statuses(vec![
        ok("A", "100", "100", true),
        ok("B", "50", "100", false),
        network_error(),
    ]);
    assert_eq!(summary.total_endpoints, 3);
    assert_eq!(summary.successful_endpoints, 2);
    assert_eq!(summary.failed_endpoints, 1);
    assert_eq!(summary.synced_count, 1);
    assert_eq!(summary.best_block, Some(progress(100, 100)));
    assert_eq!(summary.best_block_progress, "100 / 100");
    assert_eq!(summary.progress_samples, vec![progress(100, 100), progress(50, 100)]);
    assert_eq!(average_percent(&summary.progress_samples), Some(75.0));
}

#[test]
fn every_query_failed() {
    let summary = summarize_indexing_statuses(vec![
        network_error(),
        Err(QueryError::Decode(DecodeFault::UnexpectedShape)),
        Err(QueryError::Decode(DecodeFault::HttpStatus(503))),
        Err(QueryError::Decode(DecodeFault::MalformedBody)),
    ]);
    assert_eq!(summary.total_endpoints, 4);
    assert_eq!(summary.successful_endpoints, 0);
    assert_eq!(summary.failed_endpoints, 4);
    assert_eq!(summary.synced_count, 0);
    assert_eq!(summary.best_block, None);
    assert_eq!(summary.best_block_progress, "N/A");
    assert!(summary.progress_samples.is_empty());
    assert_eq!(average_percent(&summary.progress_samples), None);
}

#[test]
fn no_endpoint_at_all() {
    let summary = summarize_indexing_statuses(vec![]);
    assert_eq!(summary.total_endpoints, 0);
    assert_eq!(summary.successful_endpoints, 0);
    assert_eq!(summary.failed_endpoints, 0);
    assert_eq!(summary.synced_count, 0);
    assert_eq!(summary.best_block_progress, "N/A");
    assert!(summary.progress_samples.is_empty());
}

#[test]
fn every_endpoint_counts_once() {
    let sets = vec![
        vec![ok("A", "1", "2", true)],
        vec![network_error()],
        vec![ok("A", "1", "2", true), network_error(), ok("B", "x", "2", true)],
        vec![with_chains("A", true, vec![]), ok("B", "7", "0", false), ok("C", "7", "9", true)],
        vec![network_error(), network_error(), ok("A", "3", "4", false), network_error()],
    ];
    for statuses in sets {
        let asked = statuses.len();
        let summary = summarize_indexing_statuses(statuses);
        assert_eq!(summary.total_endpoints, asked);
        assert_eq!(summary.successful_endpoints + summary.failed_endpoints, asked);
        assert!(summary.synced_count <= summary.successful_endpoints);
        assert!(summary.progress_samples.len() <= summary.successful_endpoints);
    }
}

#[test]
fn zero_chain_head_stays_out_of_the_mean() {
    let summary = summarize_indexing_statuses(vec![
        ok("A", "30", "0", true),
        ok("B", "50", "100", false),
        ok("C", "0", "0", false),
        ok("D", "100", "100", true),
    ]);
    assert_eq!(summary.successful_endpoints, 4);
    assert_eq!(summary.synced_count, 2);
    assert_eq!(summary.progress_samples, vec![progress(50, 100), progress(100, 100)]);
    assert!(summary.progress_samples.iter().all(|s| s.chain_head_block != 0));
    assert_eq!(average_percent(&summary.progress_samples), Some(75.0));
    assert_eq!(summary.best_block, Some(progress(100, 100)));
}

#[test]
fn only_zero_chain_heads_leave_no_sample() {
    let summary = summarize_indexing_statuses(vec![ok("A", "30", "0", true)]);
    assert_eq!(summary.successful_endpoints, 1);
    assert!(summary.progress_samples.is_empty());
    assert_eq!(average_percent(&summary.progress_samples), None);
    assert_eq!(summary.best_block_progress, "0 / 30");
}

#[test]
fn first_of_equal_maxima_is_best() {
    let summary = summarize_indexing_statuses(vec![
        ok("A", "10", "40", false),
        ok("B", "90", "100", false),
        ok("C", "90", "200", false),
        ok("D", "90", "300", false),
        ok("E", "20", "400", false),
    ]);
    assert_eq!(summary.best_block, Some(progress(90, 100)));
    assert_eq!(summary.best_block_progress, "100 / 90");
}

#[test]
fn best_is_written_chain_head_first() {
    let summary = summarize_indexing_statuses(vec![
        ok("A", "16000000", "17000000", false),
        ok("B", "15999999", "17000001", true),
    ]);
    assert_eq!(summary.best_block_progress, "17000000 / 16000000");
    let negative = summarize_indexing_statuses(vec![ok("A", "-5", "-9", false)]);
    assert_eq!(negative.best_block_progress, "-9 / -5");
    assert_eq!(negative.progress_samples, vec![progress(-5, -9)]);
}

#[test]
fn result_without_chains_counts_as_failure() {
    let summary = summarize_indexing_statuses(vec![
        with_chains("A", true, vec![]),
        ok("B", "5", "10", true),
    ]);
    assert_eq!(summary.total_endpoints, 2);
    assert_eq!(summary.successful_endpoints, 1);
    assert_eq!(summary.failed_endpoints, 1);
    assert_eq!(summary.synced_count, 1);
    assert_eq!(summary.best_block_progress, "10 / 5");
}

#[test]
fn result_with_unreadable_block_number_counts_as_failure() {
    let summary = summarize_indexing_statuses(vec![
        ok("A", "five", "10", true),
        ok("B", "5", "", true),
        ok("C", "9223372036854775808", "10", true),
        ok("D", " 5", "10", true),
    ]);
    assert_eq!(summary.successful_endpoints, 0);
    assert_eq!(summary.failed_endpoints, 4);
    assert_eq!(summary.synced_count, 0);
    assert_eq!(summary.best_block_progress, "N/A");
}

#[test]
fn only_the_first_chain_is_read() {
    let summary = summarize_indexing_statuses(vec![with_chains(
        "A",
        false,
        vec![chain("1", "2"), chain("bad", "bad"), chain("100", "200")],
    )]);
    assert_eq!(summary.successful_endpoints, 1);
    assert_eq!(summary.best_block, Some(progress(1, 2)));
    assert_eq!(summary.progress_samples, vec![progress(1, 2)]);
}
