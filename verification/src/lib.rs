//! Cooperative, userspace-scheduled concurrency.
//!
//! The crate has two layers. The first is a stack-switching scheduler for
//! green threads: a fixed pool of fibers, each with its own stack and saved
//! register context, multiplexed round-robin onto one thread of control.
//! The second is a small poll-based task model (futures, an executor and the
//! state a reactor keeps) that sits on top of an event queue.
//!
//! Everything here is decision logic over plain values. Moving the CPU from
//! one stack to another, and talking to sockets, is left to the caller.

pub mod aarch64;
pub mod convention;
pub mod coroutine;
pub mod executor;
pub mod fibers;
pub mod future;
pub mod http;
pub mod http_waker;
pub mod pinning;
pub mod poll;
pub mod reactor;
pub mod rounds;
pub mod runtime_two;
pub mod schedule;
pub mod stack;
pub mod state;
pub mod switching;
pub mod x86_64;
