//! Startup configuration of the `serve` subcommand.

use vstd::prelude::*;

verus! {

/// Buffer size used when none is configured.
pub const DEFAULT_BUF_SIZE: usize = 32768;

/// Settings of one proxy process; fixed once startup is over.
#[derive(Debug, Clone)]
pub struct ServeArgs {
    /// Address the proxy binds.
    pub listen: String,
    /// Address of the one backend every client is paired with.
    pub backend: String,
    /// Read buffer size used when a script asks for size zero.
    pub buf_size: usize,
    /// Relational store URI; empty switches its script function off.
    pub mysql_uri: String,
    /// Key-value store URI; empty switches its script function off.
    pub redis_uri: String,
    /// Path of the script source.
    pub script: String,
    /// Name of the global function called once per connection.
    pub script_entry: String,
}

/// The subcommands of the program.
#[derive(Debug, Clone)]
pub enum Command {
    /// Run the proxy.
    Serve(ServeArgs),
}

/// The parsed command line.
#[derive(Debug, Clone)]
pub struct Cli {
    pub command: Command,
}

impl ServeArgs {
    /// The settings in force when only the two store URIs are given.
    pub fn with_defaults(mysql_uri: String, redis_uri: String) -> (args: ServeArgs)
        ensures
            args.listen@ == "0.0.0.0:8080"@,
            args.backend@ == "127.0.0.1:8081"@,
            args.buf_size == DEFAULT_BUF_SIZE,
            args.mysql_uri == mysql_uri,
            args.redis_uri == redis_uri,
            args.script@ == "app.lua"@,
            args.script_entry@ == "handle"@,
    {
        ServeArgs {
            listen: "0.0.0.0:8080".to_owned(),
            backend: "127.0.0.1:8081".to_owned(),
            buf_size: DEFAULT_BUF_SIZE,
            mysql_uri,
            redis_uri,
            script: "app.lua".to_owned(),
            script_entry: "handle".to_owned(),
        }
    }
}

impl Cli {
    /// The settings that the chosen subcommand carries.
    pub fn serve_args(&self) -> (args: &ServeArgs)
        ensures
            self.command == Command::Serve(*args),
    {
        match &self.command {
            Command::Serve(args) => args,
        }
    }
}

} // verus!
