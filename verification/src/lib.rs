//! `neko`: a minimal `cat(1)` for Linux on x86-64, with Japanese
//! diagnostics.
//!
//! The library holds the program's logic, verified: the error numbers and
//! their descriptions ([`errno`]), the diagnostic lines ([`error`]), file
//! metadata and raw system call results ([`fs`]), the loops that write
//! whole buffers ([`io`]), the handling of interrupted calls ([`retries`]),
//! and the program itself as a state machine ([`cat`]). The system calls
//! are made by the caller, which hands their outcomes back.
pub mod cat;
pub mod errno;
pub mod error;
pub mod fs;
pub mod io;
pub mod retries;
pub mod x86_64;
