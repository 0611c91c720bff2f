use rust_bench::fib::fibonacci;

#[test]
fn base_values_are_their_own_index() {
    assert_eq!(fibonacci(0), 0);
    assert_eq!(fibonacci(1), 1);
}

#[test]
fn recurrence_holds_on_small_values() {
    let mut n: u32 = 2;
    while n <= 25 {
        assert_eq!(fibonacci(n), fibonacci(n - 1) + fibonacci(n - 2));
        n += 1;
    }
}

#[test]
fn fibonacci_10_is_55() {
    assert_eq!(fibonacci(10), 55);
}

#[test]
fn fibonacci_20_is_6765() {
    assert_eq!(fibonacci(20), 6765);
}

#[test]
fn fibonacci_35_is_9227465() {
    assert_eq!(fibonacci(35), 9227465);
}
