//! A small benchmark library: the Fibonacci sequence computed by naive
//! double recursion, and a driver that times one such computation on the
//! host's monotonic clock.

pub mod fib;
pub mod timing;
