//! Offsets and sizes of the fields of the runtime context block that
//! generated machine code reads and writes directly.
pub mod context;
pub mod external;
pub mod index;
pub mod laws;
pub mod layout;
pub mod module_counts;
pub mod records;

pub use index::{
    DefinedGlobalIndex, DefinedMemoryIndex, DefinedTableIndex, FuncIndex, GlobalIndex, MemoryIndex,
    SignatureIndex, TableIndex,
};
pub use layout::{Field, LayoutError, Region, VMOffsets};
pub use module_counts::ModuleCounts;
