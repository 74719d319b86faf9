//! The decisions of a chat completion call against an OpenAI-compatible,
//! Azure-style or custom HTTP endpoint: where the call goes, which header
//! carries the credential, when a second attempt is made, and what the
//! answer comes to.
//!
//! The crate performs no I/O. A caller sends what [`dispatch::Action`] asks
//! for and reports what came back as a [`dispatch::Event`].
//!
//! Every contract is stated over a model of the data: texts are sequences
//! of characters, and each record has a ghost counterpart that its view
//! returns.

pub mod dispatch;
pub mod endpoint;
pub mod error;
pub mod header;
pub mod outbound;
pub mod payload;
pub mod request;
pub mod response;
pub mod text;
