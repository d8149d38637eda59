//! Typed indices: an index of one kind of entity is never taken for
//! another.
use vstd::prelude::*;

verus! {

/// Index of a signature declaration.
#[derive(Clone, Copy, Debug, PartialEq, Eq, Structural, Hash)]
pub struct SignatureIndex(pub u32);

impl SignatureIndex {
    /// The index with the given value.
    pub fn from_u32(x: u32) -> (r: Self)
        ensures
            r.0 == x,
    {
        SignatureIndex(x)
    }

    /// The value of the index.
    pub fn as_u32(self) -> (r: u32)
        ensures
            r == self.0,
    {
        self.0
    }
}

/// Index of a function, imported functions first.
#[derive(Clone, Copy, Debug, PartialEq, Eq, Structural, Hash)]
pub struct FuncIndex(pub u32);

impl FuncIndex {
    /// The index with the given value.
    pub fn from_u32(x: u32) -> (r: Self)
        ensures
            r.0 == x,
    {
        FuncIndex(x)
    }

    /// The value of the index.
    pub fn as_u32(self) -> (r: u32)
        ensures
            r == self.0,
    {
        self.0
    }
}

/// Index of a table, imported tables first.
#[derive(Clone, Copy, Debug, PartialEq, Eq, Structural, Hash)]
pub struct TableIndex(pub u32);

impl TableIndex {
    /// The index with the given value.
    pub fn from_u32(x: u32) -> (r: Self)
        ensures
            r.0 == x,
    {
        TableIndex(x)
    }

    /// The value of the index.
    pub fn as_u32(self) -> (r: u32)
        ensures
            r == self.0,
    {
        self.0
    }
}

/// Index of a linear memory, imported memories first.
#[derive(Clone, Copy, Debug, PartialEq, Eq, Structural, Hash)]
pub struct MemoryIndex(pub u32);

impl MemoryIndex {
    /// The index with the given value.
    pub fn from_u32(x: u32) -> (r: Self)
        ensures
            r.0 == x,
    {
        MemoryIndex(x)
    }

    /// The value of the index.
    pub fn as_u32(self) -> (r: u32)
        ensures
            r == self.0,
    {
        self.0
    }
}

/// Index of a global, imported globals first.
#[derive(Clone, Copy, Debug, PartialEq, Eq, Structural, Hash)]
pub struct GlobalIndex(pub u32);

impl GlobalIndex {
    /// The index with the given value.
    pub fn from_u32(x: u32) -> (r: Self)
        ensures
            r.0 == x,
    {
        GlobalIndex(x)
    }

    /// The value of the index.
    pub fn as_u32(self) -> (r: u32)
        ensures
            r == self.0,
    {
        self.0
    }
}

/// Index of a table defined by the module.
#[derive(Clone, Copy, Debug, PartialEq, Eq, Structural, Hash)]
pub struct DefinedTableIndex(pub u32);

impl DefinedTableIndex {
    /// The index with the given value.
    pub fn from_u32(x: u32) -> (r: Self)
        ensures
            r.0 == x,
    {
        DefinedTableIndex(x)
    }

    /// The value of the index.
    pub fn as_u32(self) -> (r: u32)
        ensures
            r == self.0,
    {
        self.0
    }
}

/// Index of a linear memory defined by the module.
#[derive(Clone, Copy, Debug, PartialEq, Eq, Structural, Hash)]
pub struct DefinedMemoryIndex(pub u32);

impl DefinedMemoryIndex {
    /// The index with the given value.
    pub fn from_u32(x: u32) -> (r: Self)
        ensures
            r.0 == x,
    {
        DefinedMemoryIndex(x)
    }

    /// The value of the index.
    pub fn as_u32(self) -> (r: u32)
        ensures
            r == self.0,
    {
        self.0
    }
}

/// Index of a global defined by the module.
#[derive(Clone, Copy, Debug, PartialEq, Eq, Structural, Hash)]
pub struct DefinedGlobalIndex(pub u32);

impl DefinedGlobalIndex {
    /// The index with the given value.
    pub fn from_u32(x: u32) -> (r: Self)
        ensures
            r.0 == x,
    {
        DefinedGlobalIndex(x)
    }

    /// The value of the index.
    pub fn as_u32(self) -> (r: u32)
        ensures
            r == self.0,
    {
        self.0
    }
}

} // verus!
