//! Kernel objects for inter-task communication: a duplex byte pipe built on a
//! fixed-capacity ring buffer, an eventfd-style counter, and small byte
//! allocators. Each operation here is one non-blocking step; whoever holds the
//! shared state's lock runs it and, when it asks to wait, yields and retries.

pub mod allocator;
pub mod eventfd;
pub mod pipe;
pub mod ring_buffer;
