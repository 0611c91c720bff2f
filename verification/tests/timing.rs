use rust_bench::timing::time_fibonacci_35;

#[test]
fn timed_run_reports_the_value_and_a_well_formed_duration() {
    let run = time_fibonacci_35();
    assert_eq!(run.value, 9227465);
    assert!(run.elapsed.nanos < 1_000_000_000);
}

#[test]
fn repeated_runs_are_independent() {
    let first = time_fibonacci_35();
    let second = time_fibonacci_35();
    assert_eq!(first.value, 9227465);
    assert_eq!(second.value, 9227465);
    assert!(first.elapsed.nanos < 1_000_000_000);
    assert!(second.elapsed.nanos < 1_000_000_000);
}
