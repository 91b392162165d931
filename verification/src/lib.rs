//! A platform adapter for named shared-memory segments.
//!
//! The adapter unifies the POSIX (`shm_open`/`mmap`) and Windows
//! (`CreateFileMappingW`/`MapViewOfFile`) shared-memory APIs behind one
//! interface of five operations — create, open, unmap, close, destroy —
//! with a single contract and error taxonomy.
//!
//! The operating-system calls themselves are raw, unsafe primitives that a
//! thin driver performs. Everything the adapter decides — which call to make
//! next, how to roll back a partially finished `create`, which error to
//! report — lives here as verified state machines ([`flow`]). The intended
//! semantics of the five operations is captured by an executable model of
//! the operating system's shared-memory registry ([`model`]), against which
//! the machines are run and the library's laws are proved ([`adapter`],
//! [`laws`]).

pub mod error;
pub mod name;
pub mod flow;
pub mod model;
pub mod adapter;
pub mod laws;
