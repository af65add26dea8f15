//! Command-line settings of the server.
use vstd::prelude::*;

verus! {

/// What the server is asked to do.
#[derive(Debug, Clone, Copy, PartialEq, Eq, Structural)]
pub enum Commands {
    Serve,
}

/// Default port to listen on.
pub const DEFAULT_PORT: u16 = 6688;

#[derive(Debug, Clone)]
pub struct MetaInfo {
    /// Host name to listen on.
    pub host: String,
    /// Port to listen on.
    pub port: u16,
    /// Directory of the server's data, database files included.
    pub data_path: String,
    pub cmd: Commands,
}

} // verus!
