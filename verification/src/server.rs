//! The management server's record: the configuration path it manages and the
//! pid file it consults.

use vstd::prelude::*;

verus! {

/// The management server: holds the shared configuration path and the pid
/// file path every request acts on.
#[derive(Clone, Debug)]
pub struct StunnelServer {
    config_path: String,
    pid_file: String,
}

/// Mathematical image of a `StunnelServer`.
pub struct StunnelServerV {
    pub config_path: Seq<char>,
    pub pid_file: Seq<char>,
}

impl View for StunnelServer {
    type V = StunnelServerV;

    closed spec fn view(&self) -> StunnelServerV {
        StunnelServerV { config_path: self.config_path@, pid_file: self.pid_file@ }
    }
}

impl StunnelServer {
    /// A server managing the configuration at `config_path`, with the
    /// process's pid kept at `pid_file`.
    pub fn new(config_path: String, pid_file: String) -> (r: StunnelServer)
        ensures
            r@.config_path == config_path@,
            r@.pid_file == pid_file@,
    {
        StunnelServer { config_path, pid_file }
    }

    /// The configuration path this server manages.
    pub fn config_path(&self) -> (r: &String)
        ensures
            r@ == self@.config_path,
    {
        &self.config_path
    }

    /// The pid file this server consults.
    pub fn pid_file(&self) -> (r: &String)
        ensures
            r@ == self@.pid_file,
    {
        &self.pid_file
    }
}

} // verus!
