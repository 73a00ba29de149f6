//! Runtime options for the service: listening port, engine model path and
//! the number of engine execution contexts in the pool.
//!
//! The process environment is read outside the library; this module only
//! decides what each option means when it is absent.

use vstd::prelude::*;

verus! {

/// Options the service is started with.
pub struct EnvOptions {
    pub port: usize,
    pub model_path: String,
    pub nstates: usize,
}

/// The port used when none is configured.
pub const DEFAULT_PORT: usize = 5000;

/// The number of pooled execution contexts used when none is configured.
pub const DEFAULT_NSTATES: usize = 1;

/// Builds the effective options from the configured values, falling back to
/// the defaults: port 5000, model path "./models/ggml-large.bin", one
/// execution context.
pub fn get_opts(port: Option<usize>, model_path: Option<String>, nstates: Option<usize>) -> (r:
    EnvOptions)
    ensures
        r.port == (if port is Some {
            port->0 as int
        } else {
            DEFAULT_PORT as int
        }),
        r.model_path@ == (if model_path is Some {
            model_path->0@
        } else {
            "./models/ggml-large.bin"@
        }),
        r.nstates == (if nstates is Some {
            nstates->0 as int
        } else {
            DEFAULT_NSTATES as int
        }),
{
    let port_val: usize = match port {
        Some(p) => p,
        None => DEFAULT_PORT,
    };
    let model_path_val: String = match model_path {
        Some(m) => m,
        None => "./models/ggml-large.bin".to_owned(),
    };
    let nstates_val: usize = match nstates {
        Some(n) => n,
        None => DEFAULT_NSTATES,
    };
    EnvOptions { port: port_val, model_path: model_path_val, nstates: nstates_val }
}

} // verus!
