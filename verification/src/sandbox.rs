//! How the engine is set up for every plugin of a run.

use crate::engine::{
    config_component_model, config_memory_guard_size, config_memory_reservation,
    config_memory_reservation_for_growth, config_new, engine_new,
};
use crate::error::{Fault, HostError};
use vstd::prelude::*;

verus! {

/// Address space set aside for a plugin's memory when it is instantiated.
/// A larger memory is moved when it grows; the host never holds a pointer
/// into it, so a move is invisible here.
pub const MEMORY_RESERVATION: u64 = 10 * 1024 * 1024;

/// Address space added behind a memory that had to move, for the pages the
/// cursor asks for one at a time.
pub const GROWTH_RESERVATION: u64 = 1024 * 1024;

/// Inaccessible bytes behind a plugin's memory.
pub const GUARD_SIZE: u64 = 64 * 1024;

/// What the host makes of what the engine handed back: a value passes as
/// it is, and whatever the engine reports as an error is an engine fault.
pub fn engine_result<T>(returned: Result<T, wasmtime::Error>) -> (settled: Result<T, HostError>)
    ensures
        match returned {
            Ok(value) => settled == Ok::<T, HostError>(value),
            Err(_) => settled matches Err(e) && e@ == Fault::Engine,
        },
{
    match returned {
        Ok(value) => Ok(value),
        Err(_) => Err(HostError::Engine),
    }
}

/// An engine for modules and components alike, with reservations small
/// enough for hosts that run under an address-space limit. Whether the
/// engine accepts the configuration is its own decision.
pub(crate) fn start_engine() -> (started: Result<wasmtime::Engine, HostError>)
    ensures
        started matches Err(e) ==> e@ == Fault::Engine,
{
    let mut config = config_new();
    config_component_model(&mut config, true);
    config_memory_reservation(&mut config, MEMORY_RESERVATION);
    config_memory_reservation_for_growth(&mut config, GROWTH_RESERVATION);
    config_memory_guard_size(&mut config, GUARD_SIZE);
    engine_result(engine_new(&config))
}

} // verus!
