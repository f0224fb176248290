//! Decision core of a scriptable TCP reverse proxy.
//!
//! The proxy accepts a client, dials one fixed backend and hands both byte
//! streams to a script. The functions here decide: each takes the outcome of a
//! piece of I/O as a plain value and answers with the next state, the
//! shutdowns to perform and the reply owed to the script. The sockets, the log
//! sink and the pools live with the caller. The interpreter is the caller's
//! too; the library binds into it the globals that need nothing else, and
//! looks the entry function up.

pub mod cli;
pub mod pool;
pub mod script;
pub mod server;
