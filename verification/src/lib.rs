//! Decision logic of a watch / build / reload loop for a web application that
//! ships a server binary together with a browser-side WebAssembly bundle.
//!
//! Every function here is pure: callers perform the file, process and channel
//! work and feed the results back in.

pub mod assets;
pub mod bus;
pub mod command;
pub mod config;
pub mod path;
pub mod pipeline;
pub mod reload;
pub mod resync;
pub mod roots;
pub mod search;
pub mod text;
pub mod wasm;
pub mod watch;
