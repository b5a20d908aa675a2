pub mod authenticator;
pub mod codec;
pub mod connection;
pub mod device;
mod error;

pub use error::Error;

use vstd::prelude::*;

verus! {

/// The receive buffer ceiling for one response frame.
pub const BUF_SIZE: usize = 8192;

} // verus!
