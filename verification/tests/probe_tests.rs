use tcpping::outcome::{classify_attempt, ProbeOutcome};
use tcpping::probe::{probe_step, replay};
use tcpping::resolve::{first_address, get_socket_addr, HostAddr, ResolveError};
use tcpping::report::{failure_line, fmt_u128, success_line, summary_line};
use tcpping::stats::Statistics;
use tcpping::TIMEOUT_MS;

#[test]
fn initial_statistics() {
    let s = Statistics::new();
    assert_eq!(s.sequence, 1);
    assert_eq!(s.avg, 0);
    assert_eq!(s.min, u128::MAX);
    assert_eq!(s.max, 0);
    assert_eq!(s.lost, 0);
}

#[test]
fn classify_within_bound_is_success() {
    assert_eq!(classify_attempt(true, 0), ProbeOutcome::Success(0));
    assert_eq!(classify_attempt(true, 42), ProbeOutcome::Success(42));
    assert_eq!(classify_attempt(true, TIMEOUT_MS), ProbeOutcome::Success(TIMEOUT_MS));
}

#[test]
fn classify_over_bound_is_failure() {
    assert_eq!(classify_attempt(true, TIMEOUT_MS + 1), ProbeOutcome::Failure);
    assert_eq!(classify_attempt(true, u128::MAX), ProbeOutcome::Failure);
}

#[test]
fn classify_unconnected_is_failure() {
    assert_eq!(classify_attempt(false, 0), ProbeOutcome::Failure);
    assert_eq!(classify_attempt(false, 10), ProbeOutcome::Failure);
}

#[test]
fn average_recurrence_scripted() {
    let mut s = Statistics::new();
    s.record(ProbeOutcome::Success(10));
    assert_eq!(s.avg, 10);
    s.record(ProbeOutcome::Success(20));
    assert_eq!(s.avg, 15);
    s.record(ProbeOutcome::Failure);
    assert_eq!(s.avg, 10);
    s.record(ProbeOutcome::Success(30));
    assert_eq!(s.avg, 15);
    assert_eq!(s.sequence, 5);
    assert_eq!(s.lost, 1);
}

#[test]
fn average_truncates() {
    let mut s = Statistics::new();
    s.record(ProbeOutcome::Success(1));
    s.record(ProbeOutcome::Success(2));
    // (1 * 1 + 2) / 2 = 3 / 2 truncates to 1
    assert_eq!(s.avg, 1);
}

#[test]
fn loss_accounting() {
    let script = vec![
        ProbeOutcome::Success(10),
        ProbeOutcome::Failure,
        ProbeOutcome::Failure,
        ProbeOutcome::Success(20),
        ProbeOutcome::Failure,
    ];
    let n = script.len() as u128;
    let successes = script
        .iter()
        .filter(|o| matches!(o, ProbeOutcome::Success(_)))
        .count() as u128;
    let s = replay(&script);
    assert!(s.lost <= n);
    assert_eq!(n - s.lost, successes);
    assert_eq!(s.sequence, n + 1);
}

#[test]
fn min_max_update_on_success() {
    let mut s = Statistics::new();
    s.record(ProbeOutcome::Success(20));
    assert_eq!(s.min, 20);
    assert_eq!(s.max, 20);
    s.record(ProbeOutcome::Success(5));
    assert_eq!(s.min, 5);
    assert_eq!(s.max, 20);
    s.record(ProbeOutcome::Success(30));
    assert_eq!(s.min, 5);
    assert_eq!(s.max, 30);
}

#[test]
fn all_failures_leave_min_max_untouched() {
    let script = vec![ProbeOutcome::Failure, ProbeOutcome::Failure, ProbeOutcome::Failure];
    let s = replay(&script);
    assert_eq!(s.min, u128::MAX);
    assert_eq!(s.max, 0);
    assert_eq!(s.avg, 0);
    assert_eq!(s.lost, 3);
    assert_eq!(s.sequence, 4);
}

#[test]
fn failure_keeps_min_max() {
    let mut s = Statistics::new();
    s.record(ProbeOutcome::Success(12));
    s.record(ProbeOutcome::Failure);
    assert_eq!(s.min, 12);
    assert_eq!(s.max, 12);
    assert_eq!(s.lost, 1);
}

#[test]
fn resolution_mechanism_failure() {
    assert_eq!(first_address(None), Err(ResolveError::ResolutionFailed));
}

#[test]
fn resolution_empty_candidates() {
    assert_eq!(first_address(Some(vec![])), Err(ResolveError::NoAddressFound));
}

#[test]
fn resolution_picks_first_candidate() {
    let candidates = vec![String::from("10.0.0.1:80"), String::from("10.0.0.2:80")];
    assert_eq!(first_address(Some(candidates)), Ok(String::from("10.0.0.1:80")));
}

#[test]
fn get_socket_addr_binds_hostname() {
    let candidates = vec![String::from("93.184.216.34:443")];
    let host = get_socket_addr(String::from("example.com"), Some(candidates)).unwrap();
    assert_eq!(host.addr, "93.184.216.34:443");
    assert_eq!(host.hostname, "example.com");
}

#[test]
fn get_socket_addr_propagates_errors() {
    let r = get_socket_addr(String::from("nonexistent.invalid"), None);
    assert!(matches!(r, Err(ResolveError::ResolutionFailed)));
    let r = get_socket_addr(String::from("nonexistent.invalid"), Some(vec![]));
    assert!(matches!(r, Err(ResolveError::NoAddressFound)));
}

#[test]
fn fmt_u128_values() {
    assert_eq!(fmt_u128(0), "0");
    assert_eq!(fmt_u128(7), "7");
    assert_eq!(fmt_u128(10), "10");
    assert_eq!(fmt_u128(100), "100");
    assert_eq!(fmt_u128(12345), "12345");
    assert_eq!(fmt_u128(u128::MAX), "340282366920938463463374607431768211455");
}

#[test]
fn success_line_text() {
    let host = HostAddr { addr: String::from("127.0.0.1:8080"), hostname: String::from("localhost") };
    let line = success_line(&host, 3, 42);
    assert_eq!(line, "Connected to [127.0.0.1:8080] localhost seq=3 time=42 ms");
}

#[test]
fn failure_line_text() {
    let host = HostAddr { addr: String::from("127.0.0.1:8080"), hostname: String::from("localhost") };
    let line = failure_line(&host);
    assert_eq!(line, "Failed to connect to [127.0.0.1:8080] localhost...");
}

#[test]
fn degenerate_summary() {
    // The summary of a run whose probe loop never started: resolution
    // failed, or the running flag was already false.
    let s = Statistics::new();
    let text = summary_line(&s);
    assert_eq!(
        text,
        "\nTotal: 1 Avg: 0ms Min: 340282366920938463463374607431768211455ms Max: 0ms Lost: 0\n"
    );
}

#[test]
fn summary_does_not_mutate() {
    let mut s = Statistics::new();
    s.record(ProbeOutcome::Success(10));
    s.record(ProbeOutcome::Failure);
    let before = s;
    let first = summary_line(&s);
    let second = summary_line(&s);
    assert_eq!(first, second);
    assert_eq!(s, before);
}

#[test]
fn three_successful_iterations() {
    // Three iterations against an open local port, then the running
    // flag goes false: three success lines, nothing lost, and the
    // summary stands at sequence 4 by the increment-after-use rule.
    let host = HostAddr { addr: String::from("127.0.0.1:8080"), hostname: String::from("localhost") };
    let mut s = Statistics::new();
    let elapsed = [5u128, 7, 6];
    let mut lines = Vec::new();
    for ms in elapsed {
        lines.push(probe_step(&mut s, &host, true, ms));
    }
    assert_eq!(lines[0], "Connected to [127.0.0.1:8080] localhost seq=1 time=5 ms");
    assert_eq!(lines[1], "Connected to [127.0.0.1:8080] localhost seq=2 time=7 ms");
    assert_eq!(lines[2], "Connected to [127.0.0.1:8080] localhost seq=3 time=6 ms");
    assert_eq!(s.lost, 0);
    assert_eq!(s.sequence, 4);
    assert!(s.min <= s.max);
    assert_eq!(summary_line(&s), "\nTotal: 4 Avg: 6ms Min: 5ms Max: 7ms Lost: 0\n");
}

#[test]
fn probe_step_failure() {
    let host = HostAddr { addr: String::from("10.1.1.1:9"), hostname: String::from("far.example") };
    let mut s = Statistics::new();
    let line = probe_step(&mut s, &host, false, 0);
    assert_eq!(line, "Failed to connect to [10.1.1.1:9] far.example...");
    assert_eq!(s.lost, 1);
    assert_eq!(s.sequence, 2);
}

#[test]
fn no_iterations_leave_initial_statistics() {
    // The running flag was false before the first iteration: zero
    // attempts, and the summary is the degenerate one.
    let s = replay(&vec![]);
    assert_eq!(s, Statistics::new());
    assert_eq!(
        summary_line(&s),
        "\nTotal: 1 Avg: 0ms Min: 340282366920938463463374607431768211455ms Max: 0ms Lost: 0\n"
    );
}

#[test]
fn replay_matches_stepwise_recording() {
    let script = vec![
        ProbeOutcome::Success(100),
        ProbeOutcome::Failure,
        ProbeOutcome::Success(50),
    ];
    let folded = replay(&script);
    let mut stepped = Statistics::new();
    for o in &script {
        stepped.record(*o);
    }
    assert_eq!(folded, stepped);
}
