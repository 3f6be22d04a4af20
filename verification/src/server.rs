//! Server configuration: what a configuration file may set for a server
//! run, and how command-line arguments override it.

use vstd::prelude::*;
use vstd::string::StringExecFns;
use crate::client::ServerArgs;
use crate::serveropts::ServerOptions;

verus! {

/// A server run's configuration: the listen address, the two tier
/// policies, the keyserver template, and the configured users (raw OpenSSH
/// key lines or names to resolve against the keyserver).
#[derive(Debug)]
pub struct ServerConfig {
    /// Address to listen on.
    pub listen: Option<String>,
    /// Tier for anonymous tickets; a default is used when absent.
    pub public_options: Option<ServerOptions>,
    /// Tier for authenticated tickets; a default is used when absent.
    pub authenticated_options: Option<ServerOptions>,
    /// Keyserver URL template, holding `{}` for the user name.
    pub keyserver: Option<String>,
    /// Configured users.
    pub users: Vec<String>,
}

impl ServerConfig {
    /// An empty configuration: everything absent, no users.
    pub fn default() -> (r: ServerConfig)
        ensures
            r.listen is None,
            r.public_options is None,
            r.authenticated_options is None,
            r.keyserver is None,
            r.users@.len() == 0,
    {
        ServerConfig {
            listen: None,
            public_options: None,
            authenticated_options: None,
            keyserver: None,
            users: Vec::new(),
        }
    }

    /// Applies command-line arguments: the listen address is taken from
    /// the arguments or falls back to the default, and the keyserver is
    /// whatever the arguments say, present or not.
    pub fn apply_args(&mut self, args: ServerArgs)
        ensures
            final(self).listen matches Some(l) && l@ == (match args.listen {
                Some(a) => a@,
                None => "0.0.0.0:3000"@,
            }),
            final(self).keyserver == args.keyserver,
            final(self).public_options == old(self).public_options,
            final(self).authenticated_options == old(self).authenticated_options,
            final(self).users == old(self).users,
    {
        self.listen = Some(
            match args.listen {
                Some(l) => l,
                None => String::from_str("0.0.0.0:3000"),
            },
        );
        self.keyserver = args.keyserver;
    }
}

} // verus!
