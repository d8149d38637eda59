//! Offsets of the fields within each kind of record, and the records' sizes.
use vstd::prelude::*;

use crate::layout::{anyfunc_size, current_length_size, field_offset, record_size, Field, Region, VMOffsets};
use crate::module_counts::ModuleCounts;
use crate::external::int_type_of_width;
use cranelift_codegen::ir::Type;

verus! {

impl VMOffsets {
    /// Return a new `VMOffsets` instance, for a given pointer size.
    pub fn new(pointer_size: u8, module: &ModuleCounts) -> (r: Self)
        requires
            pointer_size == 4 || pointer_size == 8,
        ensures
            r.wf(),
            r.pointer_size == pointer_size,
            r.num_signature_ids == module.signatures,
            r.num_imported_functions == module.imported_funcs,
            r.num_imported_tables == module.imported_tables,
            r.num_imported_memories == module.imported_memories,
            r.num_imported_globals == module.imported_globals,
            r.num_defined_tables == module.defined_tables,
            r.num_defined_memories == module.defined_memories,
            r.num_defined_globals == module.defined_globals,
    {
        VMOffsets {
            pointer_size,
            num_signature_ids: module.signatures,
            num_imported_functions: module.imported_funcs,
            num_imported_tables: module.imported_tables,
            num_imported_memories: module.imported_memories,
            num_imported_globals: module.imported_globals,
            num_defined_tables: module.defined_tables,
            num_defined_memories: module.defined_memories,
            num_defined_globals: module.defined_globals,
        }
    }

    /// The offset of the `body` field of `VMFunctionImport`.
    pub fn vmfunction_import_body(&self) -> (r: u8)
        requires
            self.wf(),
        ensures
            r as int == field_offset(self.ptr(), Field::FunctionImportBody),
    {
        0
    }

    /// The offset of the `vmctx` field of `VMFunctionImport`.
    pub fn vmfunction_import_vmctx(&self) -> (r: u8)
        requires
            self.wf(),
        ensures
            r as int == field_offset(self.ptr(), Field::FunctionImportVmctx),
    {
        self.pointer_size
    }

    /// Return the size of `VMFunctionImport`.
    pub fn size_of_vmfunction_import(&self) -> (r: u8)
        requires
            self.wf(),
        ensures
            r as int == record_size(self.ptr(), Region::ImportedFunctions),
    {
        self.record_size(Region::ImportedFunctions)
    }

    /// The size of a `*const VMFunctionBody`.
    pub fn size_of_vmfunction_body_ptr(&self) -> (r: u8)
        requires
            self.wf(),
        ensures
            r as int == self.ptr(),
    {
        self.pointer_size
    }

    /// The offset of the `from` field of `VMTableImport`.
    pub fn vmtable_import_from(&self) -> (r: u8)
        requires
            self.wf(),
        ensures
            r as int == field_offset(self.ptr(), Field::TableImportFrom),
    {
        0
    }

    /// The offset of the `vmctx` field of `VMTableImport`.
    pub fn vmtable_import_vmctx(&self) -> (r: u8)
        requires
            self.wf(),
        ensures
            r as int == field_offset(self.ptr(), Field::TableImportVmctx),
    {
        self.pointer_size
    }

    /// Return the size of `VMTableImport`.
    pub fn size_of_vmtable_import(&self) -> (r: u8)
        requires
            self.wf(),
        ensures
            r as int == record_size(self.ptr(), Region::ImportedTables),
    {
        self.record_size(Region::ImportedTables)
    }

    /// The offset of the `base` field of `VMTableDefinition`.
    pub fn vmtable_definition_base(&self) -> (r: u8)
        requires
            self.wf(),
        ensures
            r as int == field_offset(self.ptr(), Field::TableDefinitionBase),
    {
        0
    }

    /// The offset of the `current_elements` field of `VMTableDefinition`.
    pub fn vmtable_definition_current_elements(&self) -> (r: u8)
        requires
            self.wf(),
        ensures
            r as int == field_offset(self.ptr(), Field::TableDefinitionCurrentElements),
    {
        self.pointer_size
    }

    /// The size of the `current_elements` field of `VMTableDefinition`.
    pub fn size_of_vmtable_definition_current_elements(&self) -> (r: u8)
        requires
            self.wf(),
        ensures
            r as int == current_length_size(),
    {
        4
    }

    /// Return the size of `VMTableDefinition`.
    pub fn size_of_vmtable_definition(&self) -> (r: u8)
        requires
            self.wf(),
        ensures
            r as int == record_size(self.ptr(), Region::DefinedTables),
    {
        self.record_size(Region::DefinedTables)
    }

    /// The type of the `current_elements` field of `VMTableDefinition`: the
    /// integer type as wide as the field.
    pub fn type_of_vmtable_definition_current_elements(&self) -> (r: Type)
        requires
            self.wf(),
        ensures
            int_type_of_width(32) == Some(r),
    {
        Type::int(self.size_of_vmtable_definition_current_elements() as u16 * 8).unwrap()
    }

    /// The offset of the `from` field of `VMMemoryImport`.
    pub fn vmmemory_import_from(&self) -> (r: u8)
        requires
            self.wf(),
        ensures
            r as int == field_offset(self.ptr(), Field::MemoryImportFrom),
    {
        0
    }

    /// The offset of the `vmctx` field of `VMMemoryImport`.
    pub fn vmmemory_import_vmctx(&self) -> (r: u8)
        requires
            self.wf(),
        ensures
            r as int == field_offset(self.ptr(), Field::MemoryImportVmctx),
    {
        self.pointer_size
    }

    /// Return the size of `VMMemoryImport`.
    pub fn size_of_vmmemory_import(&self) -> (r: u8)
        requires
            self.wf(),
        ensures
            r as int == record_size(self.ptr(), Region::ImportedMemories),
    {
        self.record_size(Region::ImportedMemories)
    }

    /// The offset of the `base` field of `VMMemoryDefinition`.
    pub fn vmmemory_definition_base(&self) -> (r: u8)
        requires
            self.wf(),
        ensures
            r as int == field_offset(self.ptr(), Field::MemoryDefinitionBase),
    {
        0
    }

    /// The offset of the `current_length` field of `VMMemoryDefinition`.
    pub fn vmmemory_definition_current_length(&self) -> (r: u8)
        requires
            self.wf(),
        ensures
            r as int == field_offset(self.ptr(), Field::MemoryDefinitionCurrentLength),
    {
        self.pointer_size
    }

    /// The size of the `current_length` field of `VMMemoryDefinition`.
    pub fn size_of_vmmemory_definition_current_length(&self) -> (r: u8)
        requires
            self.wf(),
        ensures
            r as int == current_length_size(),
    {
        4
    }

    /// Return the size of `VMMemoryDefinition`.
    pub fn size_of_vmmemory_definition(&self) -> (r: u8)
        requires
            self.wf(),
        ensures
            r as int == record_size(self.ptr(), Region::DefinedMemories),
    {
        self.record_size(Region::DefinedMemories)
    }

    /// The type of the `current_length` field of `VMMemoryDefinition`: the
    /// integer type as wide as the field.
    pub fn type_of_vmmemory_definition_current_length(&self) -> (r: Type)
        requires
            self.wf(),
        ensures
            int_type_of_width(32) == Some(r),
    {
        Type::int(self.size_of_vmmemory_definition_current_length() as u16 * 8).unwrap()
    }

    /// The offset of the `from` field of `VMGlobalImport`.
    pub fn vmglobal_import_from(&self) -> (r: u8)
        requires
            self.wf(),
        ensures
            r as int == field_offset(self.ptr(), Field::GlobalImportFrom),
    {
        0
    }

    /// Return the size of `VMGlobalImport`.
    pub fn size_of_vmglobal_import(&self) -> (r: u8)
        requires
            self.wf(),
        ensures
            r as int == record_size(self.ptr(), Region::ImportedGlobals),
    {
        self.record_size(Region::ImportedGlobals)
    }

    /// Return the size of `VMGlobalDefinition`.
    pub fn size_of_vmglobal_definition(&self) -> (r: u8)
        requires
            self.wf(),
        ensures
            r as int == record_size(self.ptr(), Region::DefinedGlobals),
    {
        self.record_size(Region::DefinedGlobals)
    }

    /// Return the size of `VMSharedSignatureIndex`.
    pub fn size_of_vmshared_signature_index(&self) -> (r: u8)
        requires
            self.wf(),
        ensures
            r as int == record_size(self.ptr(), Region::SignatureIds),
    {
        self.record_size(Region::SignatureIds)
    }

    /// The offset of the `func_ptr` field of `VMCallerCheckedAnyfunc`.
    pub fn vmcaller_checked_anyfunc_func_ptr(&self) -> (r: u8)
        requires
            self.wf(),
        ensures
            r as int == field_offset(self.ptr(), Field::AnyfuncFuncPtr),
    {
        0
    }

    /// The offset of the `type_index` field of `VMCallerCheckedAnyfunc`.
    pub fn vmcaller_checked_anyfunc_type_index(&self) -> (r: u8)
        requires
            self.wf(),
        ensures
            r as int == field_offset(self.ptr(), Field::AnyfuncTypeIndex),
    {
        self.pointer_size
    }

    /// The offset of the `vmctx` field of `VMCallerCheckedAnyfunc`.
    pub fn vmcaller_checked_anyfunc_vmctx(&self) -> (r: u8)
        requires
            self.wf(),
        ensures
            r as int == field_offset(self.ptr(), Field::AnyfuncVmctx),
    {
        2 * self.pointer_size
    }

    /// Return the size of `VMCallerCheckedAnyfunc`.
    pub fn size_of_vmcaller_checked_anyfunc(&self) -> (r: u8)
        requires
            self.wf(),
        ensures
            r as int == anyfunc_size(self.ptr()),
    {
        3 * self.pointer_size
    }
}

} // verus!
