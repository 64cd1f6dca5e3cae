//! Launcher core: the message framing spoken between a launcher and the
//! worker it supervises, the lifecycle rules of a spawned process, and the
//! decision logic of both ends of the control channel.

pub mod client;
pub mod error;
pub mod os;
pub mod protocol;
pub mod server;
pub mod supervisor;
pub mod transport;
pub mod wire;

use vstd::prelude::*;

verus! {

/// The name of the worker binary inside its package.
pub const SUP_CMD: &'static str = "hab-sup";

/// The package that holds the worker.
pub const SUP_PACKAGE_IDENT: &'static str = "core/hab-sup";

} // verus!
