//! A filesystem bridge that serves a sandboxed guest's file operations
//! through a narrow backend port.
//!
//! The guest's execution engine talks to [`proxy::ProxyFileSystem`]. The
//! filesystem forwards every operation to a backend, anything that provides
//! the operations of [`callbacks::FsCallbacks`], and translates what comes
//! back with [`metadata`] and [`path`]. [`local::LocalBackend`] is a backend
//! that lives in memory: a [`store::FileStore`] for whole files and a
//! [`handle::HandleTable`] for the files that are open. What holds of it,
//! whatever is done to it, is proved in [`laws`]. [`remote`] checks the
//! callbacks of a backend that lives on the other side of a host boundary
//! before the first call is made.
//!
//! Around the bridge stand a few pieces that the engine's glue needs:
//! [`execute`] puts the result of a run together, [`exit_code`] recovers an
//! exit code from an error message, [`runtime`] numbers runtime instances,
//! [`package`] names locally registered packages, and [`spawn`] names and
//! stamps the requests by which a guest asks for a sub-agent, with
//! [`clock`] and [`decimal`] underneath.

pub mod callbacks;
pub mod clock;
pub mod decimal;
pub mod error;
pub mod execute;
pub mod exit_code;
pub mod handle;
pub mod laws;
pub mod local;
pub mod metadata;
pub mod package;
pub mod path;
pub mod proxy;
pub mod remote;
pub mod runtime;
pub mod spawn;
pub mod store;
pub mod types;
