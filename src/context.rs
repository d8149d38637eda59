//! Where each region of the context block starts, and where each record and
//! each of its fields lies within the context.
use vstd::prelude::*;

use crate::index::{
    DefinedGlobalIndex, DefinedMemoryIndex, DefinedTableIndex, FuncIndex, GlobalIndex, MemoryIndex,
    SignatureIndex, TableIndex,
};
use crate::layout::{field_offset, Field, LayoutError, Region, VMOffsets, NUM_REGIONS};

verus! {

/// Offsets for `VMContext`. Each region starts where the one before it in the
/// layout order ends; the offset asked for must fit in an `i64`.
impl VMOffsets {

    /// The offset of the `signature_ids` field.
    pub fn vmctx_signature_ids(&self) -> (r: i64)
        ensures
            r as int == self.region_start(Region::SignatureIds),
    {
        0
    }

    /// The offset of the `imported_functions` field.
    pub fn vmctx_imported_functions(&self) -> (r: i64)
        requires
            self.wf(),
            self.region_start(Region::ImportedFunctions) <= i64::MAX,
        ensures
            r as int == self.region_start(Region::ImportedFunctions),
    {
        proof {
            self.lemma_step(0);
        }
        self.vmctx_signature_ids() + self.num_signature_ids as i64 * self.size_of_vmshared_signature_index() as i64
    }

    /// The offset of the `imported_tables` field.
    pub fn vmctx_imported_tables(&self) -> (r: i64)
        requires
            self.wf(),
            self.region_start(Region::ImportedTables) <= i64::MAX,
        ensures
            r as int == self.region_start(Region::ImportedTables),
    {
        proof {
            self.lemma_step(1);
        }
        self.vmctx_imported_functions() + self.num_imported_functions as i64 * self.size_of_vmfunction_import() as i64
    }

    /// The offset of the `imported_memories` field.
    pub fn vmctx_imported_memories(&self) -> (r: i64)
        requires
            self.wf(),
            self.region_start(Region::ImportedMemories) <= i64::MAX,
        ensures
            r as int == self.region_start(Region::ImportedMemories),
    {
        proof {
            self.lemma_step(2);
        }
        self.vmctx_imported_tables() + self.num_imported_tables as i64 * self.size_of_vmtable_import() as i64
    }

    /// The offset of the `imported_globals` field.
    pub fn vmctx_imported_globals(&self) -> (r: i64)
        requires
            self.wf(),
            self.region_start(Region::ImportedGlobals) <= i64::MAX,
        ensures
            r as int == self.region_start(Region::ImportedGlobals),
    {
        proof {
            self.lemma_step(3);
        }
        self.vmctx_imported_memories() + self.num_imported_memories as i64 * self.size_of_vmmemory_import() as i64
    }

    /// The offset of the `tables` field.
    pub fn vmctx_tables(&self) -> (r: i64)
        requires
            self.wf(),
            self.region_start(Region::DefinedTables) <= i64::MAX,
        ensures
            r as int == self.region_start(Region::DefinedTables),
    {
        proof {
            self.lemma_step(4);
        }
        self.vmctx_imported_globals() + self.num_imported_globals as i64 * self.size_of_vmglobal_import() as i64
    }

    /// The offset of the `memories` field.
    pub fn vmctx_memories(&self) -> (r: i64)
        requires
            self.wf(),
            self.region_start(Region::DefinedMemories) <= i64::MAX,
        ensures
            r as int == self.region_start(Region::DefinedMemories),
    {
        proof {
            self.lemma_step(5);
        }
        self.vmctx_tables() + self.num_defined_tables as i64 * self.size_of_vmtable_definition() as i64
    }

    /// The offset of the `globals` field.
    pub fn vmctx_globals(&self) -> (r: i64)
        requires
            self.wf(),
            self.region_start(Region::DefinedGlobals) <= i64::MAX,
        ensures
            r as int == self.region_start(Region::DefinedGlobals),
    {
        proof {
            self.lemma_step(6);
        }
        self.vmctx_memories() + self.num_defined_memories as i64 * self.size_of_vmmemory_definition() as i64
    }

    /// Return the size of the `VMContext` allocation.
    pub fn size_of_vmctx(&self) -> (r: i64)
        requires
            self.wf(),
            self.fits(),
        ensures
            r as int == self.context_size(),
            r as int == self.region_start(Region::DefinedGlobals) + self.region_size(
                Region::DefinedGlobals,
            ),
    {
        proof {
            self.lemma_step(7);
        }
        self.vmctx_globals() + self.num_defined_globals as i64
            * self.size_of_vmglobal_definition() as i64
    }

    /// The size of the `VMContext` allocation, or `ArithmeticOverflow` where it
    /// does not fit in an `i64`.
    pub fn context_size_checked(&self) -> (r: Result<i64, LayoutError>)
        requires
            self.wf(),
        ensures
            match r {
                Ok(v) => v as int == self.context_size(),
                Err(e) => e == LayoutError::ArithmeticOverflow && !self.fits(),
            },
    {
        let start = match self.region_offset(Region::DefinedGlobals) {
            Ok(v) => v,
            Err(e) => {
                proof {
                    self.lemma_size_before_monotone(
                        Region::DefinedGlobals.position(),
                        NUM_REGIONS as nat,
                    );
                }
                return Err(e);
            },
        };
        proof {
            self.lemma_region_size_bounds(Region::DefinedGlobals);
            self.lemma_size_before_monotone(0, Region::DefinedGlobals.position());
            assert(self.context_size() == self.region_start(Region::DefinedGlobals)
                + self.region_size(Region::DefinedGlobals));
        }
        let bytes = match self.num_defined_globals.checked_mul(
            self.size_of_vmglobal_definition() as u64,
        ) {
            Some(b) => b,
            None => {
                return Err(LayoutError::ArithmeticOverflow);
            },
        };
        if bytes > i64::MAX as u64 {
            return Err(LayoutError::ArithmeticOverflow);
        }
        match start.checked_add(bytes as i64) {
            Some(total) => Ok(total),
            None => Err(LayoutError::ArithmeticOverflow),
        }
    }

    /// Return the offset from the start of the context to `VMSharedSignatureId` index
    /// `index`.
    pub fn index_vmshared_signature_id(&self, index: SignatureIndex) -> (r: i32)
        requires
            self.wf(),
            self.offset_of_result(Region::SignatureIds, index.0 as int) is Ok,
        ensures
            r as int == self.region_start(Region::SignatureIds) + self.element_offset_spec(
                Region::SignatureIds,
                index.0 as int,
            ),
    {
        self.offset_of(Region::SignatureIds, index.as_u32()).unwrap()
    }

    /// Return the offset from the start of the context to `VMFunctionImport` index
    /// `index`.
    pub fn index_vmfunction_import(&self, index: FuncIndex) -> (r: i32)
        requires
            self.wf(),
            self.offset_of_result(Region::ImportedFunctions, index.0 as int) is Ok,
        ensures
            r as int == self.region_start(Region::ImportedFunctions) + self.element_offset_spec(
                Region::ImportedFunctions,
                index.0 as int,
            ),
    {
        self.offset_of(Region::ImportedFunctions, index.as_u32()).unwrap()
    }

    /// Return the offset from the start of the context to `VMTableImport` index
    /// `index`.
    pub fn index_vmtable_import(&self, index: TableIndex) -> (r: i32)
        requires
            self.wf(),
            self.offset_of_result(Region::ImportedTables, index.0 as int) is Ok,
        ensures
            r as int == self.region_start(Region::ImportedTables) + self.element_offset_spec(
                Region::ImportedTables,
                index.0 as int,
            ),
    {
        self.offset_of(Region::ImportedTables, index.as_u32()).unwrap()
    }

    /// Return the offset from the start of the context to `VMMemoryImport` index
    /// `index`.
    pub fn index_vmmemory_import(&self, index: MemoryIndex) -> (r: i32)
        requires
            self.wf(),
            self.offset_of_result(Region::ImportedMemories, index.0 as int) is Ok,
        ensures
            r as int == self.region_start(Region::ImportedMemories) + self.element_offset_spec(
                Region::ImportedMemories,
                index.0 as int,
            ),
    {
        self.offset_of(Region::ImportedMemories, index.as_u32()).unwrap()
    }

    /// Return the offset from the start of the context to `VMGlobalImport` index
    /// `index`.
    pub fn index_vmglobal_import(&self, index: GlobalIndex) -> (r: i32)
        requires
            self.wf(),
            self.offset_of_result(Region::ImportedGlobals, index.0 as int) is Ok,
        ensures
            r as int == self.region_start(Region::ImportedGlobals) + self.element_offset_spec(
                Region::ImportedGlobals,
                index.0 as int,
            ),
    {
        self.offset_of(Region::ImportedGlobals, index.as_u32()).unwrap()
    }

    /// Return the offset from the start of the context to `VMTableDefinition` index
    /// `index`.
    pub fn index_vmtable_definition(&self, index: DefinedTableIndex) -> (r: i32)
        requires
            self.wf(),
            self.offset_of_result(Region::DefinedTables, index.0 as int) is Ok,
        ensures
            r as int == self.region_start(Region::DefinedTables) + self.element_offset_spec(
                Region::DefinedTables,
                index.0 as int,
            ),
    {
        self.offset_of(Region::DefinedTables, index.as_u32()).unwrap()
    }

    /// Return the offset from the start of the context to `VMMemoryDefinition` index
    /// `index`.
    pub fn index_vmmemory_definition(&self, index: DefinedMemoryIndex) -> (r: i32)
        requires
            self.wf(),
            self.offset_of_result(Region::DefinedMemories, index.0 as int) is Ok,
        ensures
            r as int == self.region_start(Region::DefinedMemories) + self.element_offset_spec(
                Region::DefinedMemories,
                index.0 as int,
            ),
    {
        self.offset_of(Region::DefinedMemories, index.as_u32()).unwrap()
    }

    /// Return the offset from the start of the context to `VMGlobalDefinition` index
    /// `index`.
    pub fn index_vmglobal_definition(&self, index: DefinedGlobalIndex) -> (r: i32)
        requires
            self.wf(),
            self.offset_of_result(Region::DefinedGlobals, index.0 as int) is Ok,
        ensures
            r as int == self.region_start(Region::DefinedGlobals) + self.element_offset_spec(
                Region::DefinedGlobals,
                index.0 as int,
            ),
    {
        self.offset_of(Region::DefinedGlobals, index.as_u32()).unwrap()
    }

    /// Return the offset from the start of the context to the `body` field
    /// in `VMFunctionImport` index `index`.
    pub fn index_vmfunction_import_body(&self, index: FuncIndex) -> (r: i32)
        requires
            self.wf(),
            self.offset_of_result(Region::ImportedFunctions, index.0 as int) is Ok,
            self.region_start(Region::ImportedFunctions) + self.element_offset_spec(Region::ImportedFunctions, index.0 as int)
                + field_offset(self.ptr(), Field::FunctionImportBody) <= i32::MAX,
        ensures
            r as int == self.region_start(Region::ImportedFunctions) + self.element_offset_spec(
                Region::ImportedFunctions,
                index.0 as int,
            ) + field_offset(self.ptr(), Field::FunctionImportBody),
    {
        self.index_vmfunction_import(index) + self.vmfunction_import_body() as i32
    }

    /// Return the offset from the start of the context to the `vmctx` field
    /// in `VMFunctionImport` index `index`.
    pub fn index_vmfunction_import_vmctx(&self, index: FuncIndex) -> (r: i32)
        requires
            self.wf(),
            self.offset_of_result(Region::ImportedFunctions, index.0 as int) is Ok,
            self.region_start(Region::ImportedFunctions) + self.element_offset_spec(Region::ImportedFunctions, index.0 as int)
                + field_offset(self.ptr(), Field::FunctionImportVmctx) <= i32::MAX,
        ensures
            r as int == self.region_start(Region::ImportedFunctions) + self.element_offset_spec(
                Region::ImportedFunctions,
                index.0 as int,
            ) + field_offset(self.ptr(), Field::FunctionImportVmctx),
    {
        self.index_vmfunction_import(index) + self.vmfunction_import_vmctx() as i32
    }

    /// Return the offset from the start of the context to the `from` field
    /// in `VMTableImport` index `index`.
    pub fn index_vmtable_import_from(&self, index: TableIndex) -> (r: i32)
        requires
            self.wf(),
            self.offset_of_result(Region::ImportedTables, index.0 as int) is Ok,
            self.region_start(Region::ImportedTables) + self.element_offset_spec(Region::ImportedTables, index.0 as int)
                + field_offset(self.ptr(), Field::TableImportFrom) <= i32::MAX,
        ensures
            r as int == self.region_start(Region::ImportedTables) + self.element_offset_spec(
                Region::ImportedTables,
                index.0 as int,
            ) + field_offset(self.ptr(), Field::TableImportFrom),
    {
        self.index_vmtable_import(index) + self.vmtable_import_from() as i32
    }

    /// Return the offset from the start of the context to the `base` field
    /// in `VMTableDefinition` index `index`.
    pub fn index_vmtable_definition_base(&self, index: DefinedTableIndex) -> (r: i32)
        requires
            self.wf(),
            self.offset_of_result(Region::DefinedTables, index.0 as int) is Ok,
            self.region_start(Region::DefinedTables) + self.element_offset_spec(Region::DefinedTables, index.0 as int)
                + field_offset(self.ptr(), Field::TableDefinitionBase) <= i32::MAX,
        ensures
            r as int == self.region_start(Region::DefinedTables) + self.element_offset_spec(
                Region::DefinedTables,
                index.0 as int,
            ) + field_offset(self.ptr(), Field::TableDefinitionBase),
    {
        self.index_vmtable_definition(index) + self.vmtable_definition_base() as i32
    }

    /// Return the offset from the start of the context to the `current_elements` field
    /// in `VMTableDefinition` index `index`.
    pub fn index_vmtable_definition_current_elements(&self, index: DefinedTableIndex) -> (r: i32)
        requires
            self.wf(),
            self.offset_of_result(Region::DefinedTables, index.0 as int) is Ok,
            self.region_start(Region::DefinedTables) + self.element_offset_spec(Region::DefinedTables, index.0 as int)
                + field_offset(self.ptr(), Field::TableDefinitionCurrentElements) <= i32::MAX,
        ensures
            r as int == self.region_start(Region::DefinedTables) + self.element_offset_spec(
                Region::DefinedTables,
                index.0 as int,
            ) + field_offset(self.ptr(), Field::TableDefinitionCurrentElements),
    {
        self.index_vmtable_definition(index) + self.vmtable_definition_current_elements() as i32
    }

    /// Return the offset from the start of the context to the `from` field
    /// in `VMMemoryImport` index `index`.
    pub fn index_vmmemory_import_from(&self, index: MemoryIndex) -> (r: i32)
        requires
            self.wf(),
            self.offset_of_result(Region::ImportedMemories, index.0 as int) is Ok,
            self.region_start(Region::ImportedMemories) + self.element_offset_spec(Region::ImportedMemories, index.0 as int)
                + field_offset(self.ptr(), Field::MemoryImportFrom) <= i32::MAX,
        ensures
            r as int == self.region_start(Region::ImportedMemories) + self.element_offset_spec(
                Region::ImportedMemories,
                index.0 as int,
            ) + field_offset(self.ptr(), Field::MemoryImportFrom),
    {
        self.index_vmmemory_import(index) + self.vmmemory_import_from() as i32
    }

    /// Return the offset from the start of the context to the `vmctx` field
    /// in `VMMemoryImport` index `index`.
    pub fn index_vmmemory_import_vmctx(&self, index: MemoryIndex) -> (r: i32)
        requires
            self.wf(),
            self.offset_of_result(Region::ImportedMemories, index.0 as int) is Ok,
            self.region_start(Region::ImportedMemories) + self.element_offset_spec(Region::ImportedMemories, index.0 as int)
                + field_offset(self.ptr(), Field::MemoryImportVmctx) <= i32::MAX,
        ensures
            r as int == self.region_start(Region::ImportedMemories) + self.element_offset_spec(
                Region::ImportedMemories,
                index.0 as int,
            ) + field_offset(self.ptr(), Field::MemoryImportVmctx),
    {
        self.index_vmmemory_import(index) + self.vmmemory_import_vmctx() as i32
    }

    /// Return the offset from the start of the context to the `base` field
    /// in `VMMemoryDefinition` index `index`.
    pub fn index_vmmemory_definition_base(&self, index: DefinedMemoryIndex) -> (r: i32)
        requires
            self.wf(),
            self.offset_of_result(Region::DefinedMemories, index.0 as int) is Ok,
            self.region_start(Region::DefinedMemories) + self.element_offset_spec(Region::DefinedMemories, index.0 as int)
                + field_offset(self.ptr(), Field::MemoryDefinitionBase) <= i32::MAX,
        ensures
            r as int == self.region_start(Region::DefinedMemories) + self.element_offset_spec(
                Region::DefinedMemories,
                index.0 as int,
            ) + field_offset(self.ptr(), Field::MemoryDefinitionBase),
    {
        self.index_vmmemory_definition(index) + self.vmmemory_definition_base() as i32
    }

    /// Return the offset from the start of the context to the `current_length` field
    /// in `VMMemoryDefinition` index `index`.
    pub fn index_vmmemory_definition_current_length(&self, index: DefinedMemoryIndex) -> (r: i32)
        requires
            self.wf(),
            self.offset_of_result(Region::DefinedMemories, index.0 as int) is Ok,
            self.region_start(Region::DefinedMemories) + self.element_offset_spec(Region::DefinedMemories, index.0 as int)
                + field_offset(self.ptr(), Field::MemoryDefinitionCurrentLength) <= i32::MAX,
        ensures
            r as int == self.region_start(Region::DefinedMemories) + self.element_offset_spec(
                Region::DefinedMemories,
                index.0 as int,
            ) + field_offset(self.ptr(), Field::MemoryDefinitionCurrentLength),
    {
        self.index_vmmemory_definition(index) + self.vmmemory_definition_current_length() as i32
    }

    /// Return the offset from the start of the context to the `from` field
    /// in `VMGlobalImport` index `index`.
    pub fn index_vmglobal_import_from(&self, index: GlobalIndex) -> (r: i32)
        requires
            self.wf(),
            self.offset_of_result(Region::ImportedGlobals, index.0 as int) is Ok,
            self.region_start(Region::ImportedGlobals) + self.element_offset_spec(Region::ImportedGlobals, index.0 as int)
                + field_offset(self.ptr(), Field::GlobalImportFrom) <= i32::MAX,
        ensures
            r as int == self.region_start(Region::ImportedGlobals) + self.element_offset_spec(
                Region::ImportedGlobals,
                index.0 as int,
            ) + field_offset(self.ptr(), Field::GlobalImportFrom),
    {
        self.index_vmglobal_import(index) + self.vmglobal_import_from() as i32
    }
}

} // verus!
