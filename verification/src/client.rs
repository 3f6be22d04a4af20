//! Client-side configuration: the command-line argument records and the
//! rules for merging a configuration file into them. The defaults act as
//! sentinels: a file value only wins where the command line still holds
//! the default.

use vstd::prelude::*;
use vstd::string::StringExecFns;
use crate::text::str_eq;

verus! {

/// Arguments of an upload run.
#[derive(Debug)]
pub struct UploadArgs {
    /// Connection settings shared by all client commands.
    pub args: ClientConfig,
    /// Token or URL to upload to, when the receiver allocated the ticket.
    pub token: Option<String>,
    /// Overrides the file name announced to the server.
    pub name: Option<String>,
    /// The file to send.
    pub file: String,
}

/// Arguments of a download run.
#[derive(Debug)]
pub struct DownloadArgs {
    /// Connection settings shared by all client commands.
    pub args: ClientConfig,
    /// Where to write the file; the announced name when absent.
    pub output: Option<String>,
    /// Overwrite an existing file.
    pub yes: bool,
    /// URL or token to download; absent for a reverse upload.
    pub path: Option<String>,
}

/// Arguments of a server run.
#[derive(Debug)]
pub struct ServerArgs {
    /// Address to listen on.
    pub listen: Option<String>,
    /// Keyserver URL template, holding `{}` for the user name.
    pub keyserver: Option<String>,
}

/// Connection settings of the client: server address, user name to
/// authenticate as, and where its keys live.
#[derive(Debug)]
pub struct ClientConfig {
    /// The server to connect to.
    pub server: Option<String>,
    /// User name to authenticate against.
    pub username: Option<String>,
    /// Path holding the key or keys to sign with.
    pub key: Option<String>,
}

pub open spec fn default_server() -> Seq<char> {
    "http://localhost:3000"@
}

pub open spec fn default_username() -> Seq<char> {
    "default"@
}

pub open spec fn default_key() -> Seq<char> {
    "~/.ssh"@
}

/// How one optional setting merges: a present non-default file value wins
/// over the current one.
pub open spec fn spec_merged(
    current: Option<String>,
    incoming: Option<String>,
    sentinel: Seq<char>,
) -> Option<String> {
    match incoming {
        Some(v) => if v@ != sentinel {
            Some(v)
        } else {
            current
        },
        None => current,
    }
}

impl ClientConfig {
    /// Merges a configuration file into the command-line settings: each
    /// file value replaces the current one unless it is the default
    /// sentinel for its field.
    pub fn merge(&mut self, config: ClientConfig)
        ensures
            final(self).server == spec_merged(old(self).server, config.server, default_server()),
            final(self).username == spec_merged(
                old(self).username,
                config.username,
                default_username(),
            ),
            final(self).key == spec_merged(old(self).key, config.key, default_key()),
    {
        match config.server {
            Some(server) => {
                if !str_eq(server.as_str(), "http://localhost:3000") {
                    self.server = Some(server);
                }
            },
            None => {},
        }
        match config.username {
            Some(username) => {
                if !str_eq(username.as_str(), "default") {
                    self.username = Some(username);
                }
            },
            None => {},
        }
        match config.key {
            Some(key) => {
                if !str_eq(key.as_str(), "~/.ssh") {
                    self.key = Some(key);
                }
            },
            None => {},
        }
    }

    /// The effective settings, with each absent field replaced by its
    /// default.
    pub fn get_absolute(&self) -> (r: (String, String, String))
        ensures
            r.0@ == (match self.server {
                Some(s) => s@,
                None => default_server(),
            }),
            r.1@ == (match self.username {
                Some(s) => s@,
                None => default_username(),
            }),
            r.2@ == (match self.key {
                Some(s) => s@,
                None => default_key(),
            }),
    {
        let server = match &self.server {
            Some(server) => server.clone(),
            None => String::from_str("http://localhost:3000"),
        };
        let username = match &self.username {
            Some(username) => username.clone(),
            None => String::from_str("default"),
        };
        let key = match &self.key {
            Some(key) => key.clone(),
            None => String::from_str("~/.ssh"),
        };
        (server, username, key)
    }
}

} // verus!
