//! The settings a caller may give, and what holds where one is left out.

use vstd::prelude::*;

verus! {

/// The port that is listened on where none is given.
pub const DEFAULT_PORT: u16 = 3000;

/// The settings as they were given.
#[derive(Debug)]
pub struct Cli {
    pub port: Option<u16>,
    pub dump_path: Option<String>,
    pub bitmap_path: Option<String>,
}

impl Cli {
    /// The port to listen on.
    pub fn port_or_default(&self) -> (port: u16)
        ensures
            port == match self.port {
                Some(given) => given,
                None => DEFAULT_PORT,
            },
    {
        match self.port {
            Some(given) => given,
            None => DEFAULT_PORT,
        }
    }

    /// The file that snapshots are kept in as text: `dump.bin` where none
    /// is given.
    pub fn dump_path_or_default(&self) -> (path: String)
        ensures
            path@ == match self.dump_path {
                Some(given) => given@,
                None => "dump.bin"@,
            },
    {
        match &self.dump_path {
            Some(given) => given.clone(),
            None => "dump.bin".to_owned(),
        }
    }

    /// The file that snapshots are kept in as pictures: `dump.png` where
    /// none is given.
    pub fn bitmap_path_or_default(&self) -> (path: String)
        ensures
            path@ == match self.bitmap_path {
                Some(given) => given@,
                None => "dump.png"@,
            },
    {
        match &self.bitmap_path {
            Some(given) => given.clone(),
            None => "dump.png".to_owned(),
        }
    }
}

} // verus!
