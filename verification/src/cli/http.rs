//! Options of the static file server command.

use vstd::prelude::*;

verus! {

/// The HTTP subcommands.
#[derive(Debug, Clone)]
pub enum HttpSubCommand {
    Serve(HttpServeOpts),
}

/// Options of the serve command.
#[derive(Debug, Clone)]
pub struct HttpServeOpts {
    pub dir: String,
    pub port: u16,
}

} // verus!
