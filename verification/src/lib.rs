//! The verified core of a serving front end for language models.
//!
//! `http` accounts for requests and their responses, `compute` runs CPU-bound
//! work on a pool of threads, `entrypoint` brings the service up and keeps it in
//! step with the models, and `protocols` reads the options of a request. Reading
//! and sending are left to the program around the library.

mod calls;
pub mod compute;
pub mod entrypoint;
pub mod http;
pub mod protocols;
pub mod text;
pub mod time;
