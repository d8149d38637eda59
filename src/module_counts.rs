//! The entity counts of a module that the layout is computed from.
use vstd::prelude::*;

verus! {

/// How many entities of each kind a module declares.
#[derive(Clone, Copy, Debug, PartialEq, Eq, Structural)]
pub struct ModuleCounts {
    /// Number of signature declarations.
    pub signatures: u64,
    /// Number of imported functions.
    pub imported_funcs: u64,
    /// Number of imported tables.
    pub imported_tables: u64,
    /// Number of imported memories.
    pub imported_memories: u64,
    /// Number of imported globals.
    pub imported_globals: u64,
    /// Number of tables the module defines.
    pub defined_tables: u64,
    /// Number of memories the module defines.
    pub defined_memories: u64,
    /// Number of globals the module defines.
    pub defined_globals: u64,
}

} // verus!
