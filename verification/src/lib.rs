//! Verified models of thread-safe data structures and synchronization
//! primitives: a bounded blocking queue, a blocking priority queue, an
//! unbounded MPMC queue, a work-stealing deque, a lock-free stack, a
//! spinlock, a token-bucket rate limiter, and an atomic-counter
//! abstraction with explicit memory-ordering control.
//!
//! Every operation is specified and verified as one serialized (linearized)
//! step on the structure's state: the contracts pin down exactly what each
//! call returns and how it changes the contents. The blocking shells
//! (mutexes, condition variables, OS threads) that schedule those steps
//! live outside this library; they hand it one operation at a time.

pub mod atomic_counter;
pub mod bank_account;
pub mod basics;
pub mod bounded_queue;
pub mod cache;
pub mod config;
pub mod containers;
pub mod counters;
pub mod data_structures;
pub mod errors;
pub mod example_glob;
pub mod game_state;
pub mod generics;
pub mod lock_free_stack;
pub mod math_functions;
pub mod math_operations;
pub mod mpmc_queue;
pub mod priority_queue;
pub mod rate_limiter;
pub mod spinlock;
pub mod string_utils;
pub mod traffic_light;
pub mod work_stealing;
