//! Protocol side of a client for the AWS Lambda runtime API.
//!
//! The crate holds everything the client decides and computes: the requests
//! of the four exchanges, the reading of a poll reply's headers into an
//! [`EventContext`], the classification of replies into recoverable and
//! unrecoverable errors, and the JSON body of an error report. It performs no
//! network I/O itself; a caller sends each [`RuntimeRequest`] and hands the
//! reply back.

pub mod client;
pub mod codec;
pub mod context;
pub mod decimal;
pub mod error;
pub mod headers;
pub mod json;
pub mod lifecycle;
pub mod string_map;
pub mod wire;

pub use client::{Post, RuntimeClient};
pub use context::{ClientApplication, ClientContext, CognitoIdentity, EventContext};
pub use error::{ApiError, ErrorKind, ErrorResponse, RuntimeApiError};
pub use headers::LambdaHeaders;
pub use lifecycle::{Report, WorkerEvent, WorkerState};
pub use string_map::StringMap;
pub use wire::{HttpStatus, Method, RuntimeRequest};
