//! Core logic of the speech workstation backend: configuration, model
//! catalog, download bookkeeping, and the text and byte formats exchanged
//! with the speech tools.
use vstd::prelude::*;

pub mod text;
pub mod transcribe;
pub mod api_server;
pub mod audio;
pub mod config;
pub mod downloads;
pub mod error;
pub mod history;
pub mod ids;
pub mod locate;
pub mod model_registry;
pub mod settings;
pub mod speech;

verus! {

/// The greeting the user interface shows once the backend is up.
pub fn greet(name: &str) -> (r: String)
    ensures
        r@ == "Hello, "@ + name@ + "! SWT2 backend is ready."@,
{
    let mut r = "Hello, ".to_owned();
    r.append(name);
    r.append("! SWT2 backend is ready.");
    r
}

} // verus!
