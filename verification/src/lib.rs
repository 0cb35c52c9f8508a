//! Verified core of the `dnet` messaging library.
use vstd::prelude::*;

pub mod js;
pub mod latest;
pub mod logging;
pub mod macros;
pub mod number;
pub mod pipe;
pub mod rpc;
pub mod split;
pub mod transport;
pub mod void;
pub mod wall;
pub mod wrappers;

verus! {

} // verus!
