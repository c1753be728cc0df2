//! Client command router capability: receive a decoded command, dispatch
//! it to the right component, produce the response.

use vstd::prelude::*;

use crate::components::CfuComponentTraits;

verus! {

/// Behavior of a CFU client (receiver) processing incoming commands.
/// `T` carries any extra arguments an implementation needs, `C` is its
/// command type and `E` its error type.
pub trait CfuReceiveContent<T, C, E: Default> {
    /// Receives one command from a host, dispatches it to the target
    /// component and produces the matching response.
    fn process_command(&self, args: Option<T>, cmd: C) -> Result<(), E>;

    /// Runs `storage_prepare` on the primary component and all its
    /// sub-components before a transaction begins.
    fn prepare_components<P: CfuComponentTraits>(&self, args: Option<T>, primary_component: P) -> Result<
        (),
        E,
    >;
}

} // verus!
