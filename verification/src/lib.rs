//! Decision core of a small HTTP service that answers whether a container
//! image exists in a public registry.
//!
//! The service asks an external command-line tool and reports what the tool's
//! exit says. Everything that decides something lives here and is verified:
//! which command line is run for an image, what a finished (or never started)
//! process means, which HTTP reply follows, and how a served request is
//! logged. Spawning the process, serving sockets and writing log lines are
//! left to the program built around this library.
pub mod filter;
pub mod image_exist;
pub mod logging;
pub mod status;
pub mod swagger;
