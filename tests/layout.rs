use cranelift_codegen::ir::types;
use vmoffsets::{
    DefinedGlobalIndex, DefinedMemoryIndex, DefinedTableIndex, FuncIndex, GlobalIndex, LayoutError,
    MemoryIndex, ModuleCounts, Region, SignatureIndex, TableIndex, VMOffsets,
};

fn small_module() -> ModuleCounts {
    ModuleCounts {
        signatures: 2,
        imported_funcs: 1,
        imported_tables: 0,
        imported_memories: 0,
        imported_globals: 0,
        defined_tables: 1,
        defined_memories: 1,
        defined_globals: 1,
    }
}

fn counts(n: u64) -> ModuleCounts {
    ModuleCounts {
        signatures: n,
        imported_funcs: n,
        imported_tables: n,
        imported_memories: n,
        imported_globals: n,
        defined_tables: n,
        defined_memories: n,
        defined_globals: n,
    }
}

#[test]
fn new_copies_counts() {
    let m = ModuleCounts {
        signatures: 1,
        imported_funcs: 2,
        imported_tables: 3,
        imported_memories: 4,
        imported_globals: 5,
        defined_tables: 6,
        defined_memories: 7,
        defined_globals: 8,
    };
    let o = VMOffsets::new(4, &m);
    assert_eq!(o.pointer_size, 4);
    assert_eq!(o.num_signature_ids, 1);
    assert_eq!(o.num_imported_functions, 2);
    assert_eq!(o.num_imported_tables, 3);
    assert_eq!(o.num_imported_memories, 4);
    assert_eq!(o.num_imported_globals, 5);
    assert_eq!(o.num_defined_tables, 6);
    assert_eq!(o.num_defined_memories, 7);
    assert_eq!(o.num_defined_globals, 8);
}

#[test]
fn scenario_region_starts() {
    let o = VMOffsets::new(8, &small_module());
    assert_eq!(o.vmctx_signature_ids(), 0);
    assert_eq!(o.vmctx_imported_functions(), 8);
    assert_eq!(o.vmctx_imported_tables(), 24);
    assert_eq!(o.vmctx_imported_memories(), 24);
    assert_eq!(o.vmctx_imported_globals(), 24);
    assert_eq!(o.vmctx_tables(), 24);
    assert_eq!(o.vmctx_memories(), 40);
    assert_eq!(o.vmctx_globals(), 56);
    assert_eq!(o.size_of_vmctx(), 64);
}

#[test]
fn scenario_region_offsets_checked() {
    let o = VMOffsets::new(8, &small_module());
    let expected = [
        (Region::SignatureIds, 0, 8),
        (Region::ImportedFunctions, 8, 16),
        (Region::ImportedTables, 24, 0),
        (Region::ImportedMemories, 24, 0),
        (Region::ImportedGlobals, 24, 0),
        (Region::DefinedTables, 24, 16),
        (Region::DefinedMemories, 40, 16),
        (Region::DefinedGlobals, 56, 8),
    ];
    for (region, start, size) in expected {
        assert_eq!(o.region_offset(region), Ok(start));
        let bytes = o.region_count(region) * u64::from(o.record_size(region));
        assert_eq!(bytes, size);
    }
}

#[test]
fn scenario_offset_of_defined_memory() {
    let o = VMOffsets::new(8, &small_module());
    assert_eq!(o.offset_of(Region::DefinedMemories, 0), Ok(40));
    assert_eq!(
        o.offset_of(Region::DefinedMemories, 1),
        Err(LayoutError::OutOfRange)
    );
    assert_eq!(o.index_vmmemory_definition(DefinedMemoryIndex::from_u32(0)), 40);
    assert_eq!(
        o.index_vmmemory_definition_current_length(DefinedMemoryIndex::from_u32(0)),
        48
    );
}

#[test]
fn index_accessors_add_region_start() {
    let mut m = counts(0);
    m.signatures = 1;
    m.imported_funcs = 1;
    let o = VMOffsets::new(8, &m);
    assert_eq!(o.index_vmshared_signature_id(SignatureIndex::from_u32(0)), 0);
    assert_eq!(o.index_vmfunction_import(FuncIndex::from_u32(0)), 4);
    assert_eq!(o.index_vmfunction_import_vmctx(FuncIndex::from_u32(0)), 12);
}

#[test]
fn checked_context_size() {
    let o = VMOffsets::new(8, &small_module());
    assert_eq!(o.context_size_checked(), Ok(64));
    let mut m = small_module();
    m.defined_globals = u64::MAX / 8;
    let o = VMOffsets::new(8, &m);
    assert_eq!(o.context_size_checked(), Err(LayoutError::ArithmeticOverflow));
    m.defined_globals = 1;
    m.imported_funcs = 1 << 60;
    let o = VMOffsets::new(8, &m);
    assert_eq!(o.context_size_checked(), Err(LayoutError::ArithmeticOverflow));
    assert_eq!(
        o.offset_of(Region::DefinedTables, 0),
        Err(LayoutError::ArithmeticOverflow)
    );
}

#[test]
fn region_start_of_early_region_with_huge_later_counts() {
    let mut m = small_module();
    m.defined_globals = u64::MAX;
    let o = VMOffsets::new(8, &m);
    assert_eq!(o.vmctx_signature_ids(), 0);
    assert_eq!(o.vmctx_globals(), 56);
    assert_eq!(o.context_size_checked(), Err(LayoutError::ArithmeticOverflow));
}

#[test]
fn scenario_product_overflow() {
    let mut m = small_module();
    m.defined_globals = 1 << 40;
    let o = VMOffsets::new(8, &m);
    assert_eq!(
        o.offset_of(Region::DefinedGlobals, 1 << 29),
        Err(LayoutError::ArithmeticOverflow)
    );
    assert_eq!(
        o.element_offset(Region::DefinedGlobals, 1 << 29),
        Err(LayoutError::ArithmeticOverflow)
    );
}

#[test]
fn region_start_overflow() {
    let mut m = small_module();
    m.signatures = u64::MAX;
    let o = VMOffsets::new(8, &m);
    assert_eq!(o.region_offset(Region::SignatureIds), Ok(0));
    assert_eq!(
        o.region_offset(Region::ImportedFunctions),
        Err(LayoutError::ArithmeticOverflow)
    );
    assert_eq!(
        o.offset_of(Region::ImportedFunctions, 0),
        Err(LayoutError::ArithmeticOverflow)
    );
    m.signatures = (i64::MAX as u64) / 4 + 1;
    let o = VMOffsets::new(8, &m);
    assert_eq!(
        o.region_offset(Region::ImportedFunctions),
        Err(LayoutError::ArithmeticOverflow)
    );
}

#[test]
fn narrowing_overflow_within_region() {
    let mut m = small_module();
    m.defined_globals = 1 << 40;
    let o = VMOffsets::new(8, &m);
    assert_eq!(
        o.element_offset(Region::DefinedGlobals, 1 << 28),
        Err(LayoutError::NarrowingOverflow)
    );
    assert_eq!(
        o.element_offset(Region::DefinedGlobals, (1 << 28) - 1),
        Ok(i32::MAX - 7)
    );
}

#[test]
fn narrowing_overflow_from_region_start() {
    let mut m = small_module();
    m.signatures = 1 << 30;
    let o = VMOffsets::new(8, &m);
    assert_eq!(o.region_offset(Region::ImportedFunctions), Ok(1 << 32));
    assert_eq!(
        o.offset_of(Region::ImportedFunctions, 0),
        Err(LayoutError::NarrowingOverflow)
    );
    assert_eq!(o.element_offset(Region::ImportedFunctions, 0), Ok(0));
}

#[test]
fn offset_of_is_start_plus_index_times_size() {
    let o = VMOffsets::new(4, &counts(10));
    let mut last = -1;
    for i in 0..10u32 {
        let at = o.offset_of(Region::ImportedTables, i).unwrap();
        assert_eq!(at, 4 * 10 + 8 * 10 + 8 * i as i32);
        assert!(at > last);
        last = at;
    }
    assert_eq!(
        o.offset_of(Region::ImportedTables, 10),
        Err(LayoutError::OutOfRange)
    );
    assert_eq!(
        o.offset_of(Region::ImportedTables, u32::MAX),
        Err(LayoutError::OutOfRange)
    );
}

#[test]
fn region_starts_sum_preceding_sizes() {
    let m = ModuleCounts {
        signatures: 3,
        imported_funcs: 5,
        imported_tables: 7,
        imported_memories: 11,
        imported_globals: 13,
        defined_tables: 17,
        defined_memories: 19,
        defined_globals: 23,
    };
    let o = VMOffsets::new(4, &m);
    assert_eq!(o.vmctx_imported_functions(), 3 * 4);
    assert_eq!(o.vmctx_imported_tables(), 12 + 5 * 8);
    assert_eq!(o.vmctx_imported_memories(), 52 + 7 * 8);
    assert_eq!(o.vmctx_imported_globals(), 108 + 11 * 8);
    assert_eq!(o.vmctx_tables(), 196 + 13 * 4);
    assert_eq!(o.vmctx_memories(), 248 + 17 * 8);
    assert_eq!(o.vmctx_globals(), 384 + 19 * 8);
    assert_eq!(o.size_of_vmctx(), 536 + 23 * 8);
}

#[test]
fn empty_module_has_empty_context() {
    let o = VMOffsets::new(8, &counts(0));
    assert_eq!(o.size_of_vmctx(), 0);
    assert_eq!(o.vmctx_globals(), 0);
    assert_eq!(
        o.offset_of(Region::SignatureIds, 0),
        Err(LayoutError::OutOfRange)
    );
}

#[test]
fn record_sizes_and_field_offsets_by_pointer_width() {
    for &(p, double) in &[(4u8, 1u8), (8u8, 2u8)] {
        let o = VMOffsets::new(p, &counts(1));
        assert_eq!(o.vmfunction_import_body(), 0);
        assert_eq!(o.vmfunction_import_vmctx(), 4 * double);
        assert_eq!(o.size_of_vmfunction_import(), 8 * double);
        assert_eq!(o.size_of_vmfunction_body_ptr(), 4 * double);
        assert_eq!(o.vmtable_import_from(), 0);
        assert_eq!(o.vmtable_import_vmctx(), 4 * double);
        assert_eq!(o.size_of_vmtable_import(), 8 * double);
        assert_eq!(o.vmtable_definition_base(), 0);
        assert_eq!(o.vmtable_definition_current_elements(), 4 * double);
        assert_eq!(o.size_of_vmtable_definition_current_elements(), 4);
        assert_eq!(o.size_of_vmtable_definition(), 8 * double);
        assert_eq!(o.vmmemory_import_from(), 0);
        assert_eq!(o.vmmemory_import_vmctx(), 4 * double);
        assert_eq!(o.size_of_vmmemory_import(), 8 * double);
        assert_eq!(o.vmmemory_definition_base(), 0);
        assert_eq!(o.vmmemory_definition_current_length(), 4 * double);
        assert_eq!(o.size_of_vmmemory_definition_current_length(), 4);
        assert_eq!(o.size_of_vmmemory_definition(), 8 * double);
        assert_eq!(o.vmglobal_import_from(), 0);
        assert_eq!(o.size_of_vmglobal_import(), 4 * double);
        assert_eq!(o.size_of_vmglobal_definition(), 8);
        assert_eq!(o.size_of_vmshared_signature_index(), 4);
        assert_eq!(o.vmcaller_checked_anyfunc_func_ptr(), 0);
        assert_eq!(o.vmcaller_checked_anyfunc_type_index(), 4 * double);
        assert_eq!(o.vmcaller_checked_anyfunc_vmctx(), 8 * double);
        assert_eq!(o.size_of_vmcaller_checked_anyfunc(), 12 * double);
    }
}

#[test]
fn current_length_types_are_32_bit_integers() {
    let o = VMOffsets::new(8, &counts(1));
    assert_eq!(o.type_of_vmtable_definition_current_elements(), types::I32);
    assert_eq!(o.type_of_vmmemory_definition_current_length(), types::I32);
}

#[test]
fn index_offsets_within_regions() {
    let o = VMOffsets::new(8, &counts(4));
    assert_eq!(o.index_vmshared_signature_id(SignatureIndex::from_u32(3)), 12);
    assert_eq!(o.index_vmfunction_import(FuncIndex::from_u32(3)), 16 + 48);
    assert_eq!(o.index_vmtable_import(TableIndex::from_u32(2)), 80 + 32);
    assert_eq!(o.index_vmmemory_import(MemoryIndex::from_u32(1)), 144 + 16);
    assert_eq!(o.index_vmglobal_import(GlobalIndex::from_u32(3)), 208 + 24);
    assert_eq!(o.index_vmtable_definition(DefinedTableIndex::from_u32(2)), 240 + 32);
    assert_eq!(o.index_vmmemory_definition(DefinedMemoryIndex::from_u32(3)), 304 + 48);
    assert_eq!(o.index_vmglobal_definition(DefinedGlobalIndex::from_u32(3)), 368 + 24);
}

#[test]
fn index_field_offsets() {
    let o = VMOffsets::new(4, &counts(4));
    assert_eq!(o.index_vmfunction_import_body(FuncIndex::from_u32(2)), 16 + 16);
    assert_eq!(o.index_vmfunction_import_vmctx(FuncIndex::from_u32(2)), 16 + 20);
    assert_eq!(o.index_vmtable_import_from(TableIndex::from_u32(1)), 48 + 8);
    assert_eq!(o.index_vmtable_definition_base(DefinedTableIndex::from_u32(3)), 128 + 24);
    assert_eq!(
        o.index_vmtable_definition_current_elements(DefinedTableIndex::from_u32(3)),
        128 + 28
    );
    assert_eq!(o.index_vmmemory_import_from(MemoryIndex::from_u32(1)), 80 + 8);
    assert_eq!(o.index_vmmemory_import_vmctx(MemoryIndex::from_u32(1)), 80 + 12);
    assert_eq!(o.index_vmmemory_definition_base(DefinedMemoryIndex::from_u32(0)), 160);
    assert_eq!(
        o.index_vmmemory_definition_current_length(DefinedMemoryIndex::from_u32(2)),
        160 + 20
    );
    assert_eq!(o.index_vmglobal_import_from(GlobalIndex::from_u32(3)), 112 + 12);
}

#[test]
fn typed_indices_round_trip() {
    assert_eq!(FuncIndex::from_u32(7).as_u32(), 7);
    assert_eq!(DefinedGlobalIndex::from_u32(u32::MAX).as_u32(), u32::MAX);
}

#[test]
fn region_order_positions() {
    let order = [
        Region::SignatureIds,
        Region::ImportedFunctions,
        Region::ImportedTables,
        Region::ImportedMemories,
        Region::ImportedGlobals,
        Region::DefinedTables,
        Region::DefinedMemories,
        Region::DefinedGlobals,
    ];
    for (k, region) in order.iter().enumerate() {
        assert_eq!(region.ordinal() as usize, k);
        assert_eq!(Region::from_ordinal(k as u8), *region);
    }
}
