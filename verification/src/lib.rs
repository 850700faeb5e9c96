//! Decision logic of a desktop launcher that supervises one backend process.
//!
//! The launcher picks a local port, finds the backend executable, cleans the
//! environment the backend will inherit, starts it, forwards its output while
//! debugging, and makes sure it is gone before the launcher itself exits.
//! Everything here works on plain values: the caller performs the operating
//! system calls and hands their results in.

pub mod env;
pub mod error;
pub mod locate;
pub mod logs;
pub mod platform;
pub mod port;
pub mod power;
pub mod spawn;
pub mod supervisor;
pub mod text;
pub mod window;
