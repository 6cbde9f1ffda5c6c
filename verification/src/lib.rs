//! A minimal chromeless desktop shell, modelled and verified.
//!
//! The library holds the logic of a borderless top-level window that hosts an
//! embedded web view: UTF-16 text conversion for the native API, DPI scaling
//! arithmetic, the decision logic of both window procedures, the lifecycle of
//! the closure-to-callback adapter slots, the single-assignment controller
//! cell, the startup orchestration, and the embedded web payload. The native
//! calls themselves (window creation, message pumping, the browser runtime)
//! live outside the library and act on the decisions it returns.

pub mod adapter;
pub mod cell;
pub mod layout;
pub mod payload;
pub mod procs;
pub mod startup;
pub mod text;
