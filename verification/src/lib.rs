//! Verified core of the bindings to parakeet.cpp, a ggml-based inference
//! library for NVIDIA Parakeet and Nemotron speech recognition models.
//!
//! The library holds what the bindings decide on their own: which errors they
//! report and with what messages, how arguments are checked before they reach
//! the native layer, how native results become values, and the prefix diff
//! that streaming sessions use to turn a re-decoded transcript into a delta.

use vstd::prelude::*;

pub mod error;
pub mod model;
pub mod options;
pub mod stream;

pub use error::Error;
pub use model::{Model, NativeRequest, SUPPORTED_ABI};
pub use options::TranscribeOptions;
pub use stream::{common_prefix_len, Partial};

verus! {

} // verus!
