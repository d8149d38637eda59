//! The layout of the context block: record sizes, region starts and
//! per-index addressing.
use vstd::prelude::*;

use crate::external::narrow_to_i32;

verus! {

/// The regions of the context block, in the order in which they are laid out.
#[derive(Clone, Copy, Debug, PartialEq, Eq, Structural)]
pub enum Region {
    SignatureIds,
    ImportedFunctions,
    ImportedTables,
    ImportedMemories,
    ImportedGlobals,
    DefinedTables,
    DefinedMemories,
    DefinedGlobals,
}

/// The fields of the records whose offsets generated code needs.
#[derive(Clone, Copy, Debug, PartialEq, Eq, Structural)]
pub enum Field {
    FunctionImportBody,
    FunctionImportVmctx,
    TableImportFrom,
    TableImportVmctx,
    TableDefinitionBase,
    TableDefinitionCurrentElements,
    MemoryImportFrom,
    MemoryImportVmctx,
    MemoryDefinitionBase,
    MemoryDefinitionCurrentLength,
    GlobalImportFrom,
    AnyfuncFuncPtr,
    AnyfuncTypeIndex,
    AnyfuncVmctx,
}

/// Number of regions in the context block.
pub const NUM_REGIONS: u8 = 8;

impl Region {
    /// Position of the region in the layout order.
    pub open spec fn position(self) -> nat {
        match self {
            Region::SignatureIds => 0,
            Region::ImportedFunctions => 1,
            Region::ImportedTables => 2,
            Region::ImportedMemories => 3,
            Region::ImportedGlobals => 4,
            Region::DefinedTables => 5,
            Region::DefinedMemories => 6,
            Region::DefinedGlobals => 7,
        }
    }

    /// The region at position `k` of the layout order.
    pub open spec fn at(k: nat) -> Region {
        if k == 0 {
            Region::SignatureIds
        } else if k == 1 {
            Region::ImportedFunctions
        } else if k == 2 {
            Region::ImportedTables
        } else if k == 3 {
            Region::ImportedMemories
        } else if k == 4 {
            Region::ImportedGlobals
        } else if k == 5 {
            Region::DefinedTables
        } else if k == 6 {
            Region::DefinedMemories
        } else {
            Region::DefinedGlobals
        }
    }

    /// Whether the records of this region are made of pointers only, so that
    /// their size scales with the pointer width.
    pub open spec fn is_pointer_sized(self) -> bool {
        !(self is SignatureIds || self is DefinedGlobals)
    }

    /// Executable form of `position`.
    pub fn ordinal(&self) -> (r: u8)
        ensures
            r as nat == self.position(),
    {
        match self {
            Region::SignatureIds => 0,
            Region::ImportedFunctions => 1,
            Region::ImportedTables => 2,
            Region::ImportedMemories => 3,
            Region::ImportedGlobals => 4,
            Region::DefinedTables => 5,
            Region::DefinedMemories => 6,
            Region::DefinedGlobals => 7,
        }
    }

    /// Executable form of `at`.
    pub fn from_ordinal(k: u8) -> (r: Region)
        requires
            k < NUM_REGIONS,
        ensures
            r == Region::at(k as nat),
    {
        if k == 0 {
            Region::SignatureIds
        } else if k == 1 {
            Region::ImportedFunctions
        } else if k == 2 {
            Region::ImportedTables
        } else if k == 3 {
            Region::ImportedMemories
        } else if k == 4 {
            Region::ImportedGlobals
        } else if k == 5 {
            Region::DefinedTables
        } else if k == 6 {
            Region::DefinedMemories
        } else {
            Region::DefinedGlobals
        }
    }
}

/// Size in bytes of one record of `region`, for pointers of `ptr` bytes.
pub open spec fn record_size(ptr: int, region: Region) -> int {
    match region {
        Region::SignatureIds => 4,
        Region::ImportedFunctions => 2 * ptr,
        Region::ImportedTables => 2 * ptr,
        Region::ImportedMemories => 2 * ptr,
        Region::ImportedGlobals => ptr,
        Region::DefinedTables => 2 * ptr,
        Region::DefinedMemories => 2 * ptr,
        Region::DefinedGlobals => 8,
    }
}

/// Size in bytes of a `VMCallerCheckedAnyfunc` record.
pub open spec fn anyfunc_size(ptr: int) -> int {
    3 * ptr
}

/// Offset of `field` within its record, for pointers of `ptr` bytes.
pub open spec fn field_offset(ptr: int, field: Field) -> int {
    match field {
        Field::FunctionImportBody => 0,
        Field::FunctionImportVmctx => ptr,
        Field::TableImportFrom => 0,
        Field::TableImportVmctx => ptr,
        Field::TableDefinitionBase => 0,
        Field::TableDefinitionCurrentElements => ptr,
        Field::MemoryImportFrom => 0,
        Field::MemoryImportVmctx => ptr,
        Field::MemoryDefinitionBase => 0,
        Field::MemoryDefinitionCurrentLength => ptr,
        Field::GlobalImportFrom => 0,
        Field::AnyfuncFuncPtr => 0,
        Field::AnyfuncTypeIndex => ptr,
        Field::AnyfuncVmctx => 2 * ptr,
    }
}

/// Size in bytes of the fixed-width count and length fields of table and
/// memory definitions.
pub open spec fn current_length_size() -> int {
    4
}

/// This class computes offsets to fields within `VMContext` and other
/// related structs that JIT code accesses directly.
pub struct VMOffsets {
    /// The size in bytes of a pointer on the target.
    pub pointer_size: u8,
    /// The number of signature declarations in the module.
    pub num_signature_ids: u64,
    /// The number of imported functions in the module.
    pub num_imported_functions: u64,
    /// The number of imported tables in the module.
    pub num_imported_tables: u64,
    /// The number of imported memories in the module.
    pub num_imported_memories: u64,
    /// The number of imported globals in the module.
    pub num_imported_globals: u64,
    /// The number of defined tables in the module.
    pub num_defined_tables: u64,
    /// The number of defined memories in the module.
    pub num_defined_memories: u64,
    /// The number of defined globals in the module.
    pub num_defined_globals: u64,
}

impl VMOffsets {
    /// The pointer width is one that the layout supports.
    pub open spec fn wf(self) -> bool {
        self.pointer_size == 4 || self.pointer_size == 8
    }

    /// The pointer width as an integer.
    pub open spec fn ptr(self) -> int {
        self.pointer_size as int
    }

    /// Number of records in `region`.
    pub open spec fn count(self, region: Region) -> int {
        match region {
            Region::SignatureIds => self.num_signature_ids as int,
            Region::ImportedFunctions => self.num_imported_functions as int,
            Region::ImportedTables => self.num_imported_tables as int,
            Region::ImportedMemories => self.num_imported_memories as int,
            Region::ImportedGlobals => self.num_imported_globals as int,
            Region::DefinedTables => self.num_defined_tables as int,
            Region::DefinedMemories => self.num_defined_memories as int,
            Region::DefinedGlobals => self.num_defined_globals as int,
        }
    }

    /// Total size in bytes of `region`.
    pub open spec fn region_size(self, region: Region) -> int {
        self.count(region) * record_size(self.ptr(), region)
    }

    /// Total size of the first `k` regions of the layout order.
    pub open spec fn size_before(self, k: nat) -> int
        decreases k,
    {
        if k == 0 {
            0
        } else {
            self.size_before((k - 1) as nat) + self.region_size(Region::at((k - 1) as nat))
        }
    }

    /// Offset of the first record of `region` from the start of the context.
    pub open spec fn region_start(self, region: Region) -> int {
        self.size_before(region.position())
    }

    /// Size in bytes of the whole context.
    pub open spec fn context_size(self) -> int {
        self.size_before(NUM_REGIONS as nat)
    }

    /// Every region offset, and the context size, fit in an `i64`.
    pub open spec fn fits(self) -> bool {
        self.context_size() <= i64::MAX
    }

    /// Size in bytes of one record of `region`.
    pub fn record_size(&self, region: Region) -> (r: u8)
        requires
            self.wf(),
        ensures
            r as int == record_size(self.ptr(), region),
    {
        match region {
            Region::SignatureIds => 4,
            Region::ImportedFunctions => 2 * self.pointer_size,
            Region::ImportedTables => 2 * self.pointer_size,
            Region::ImportedMemories => 2 * self.pointer_size,
            Region::ImportedGlobals => self.pointer_size,
            Region::DefinedTables => 2 * self.pointer_size,
            Region::DefinedMemories => 2 * self.pointer_size,
            Region::DefinedGlobals => 8,
        }
    }

    /// Size of `region` is not negative, and not below its number of records.
    pub proof fn lemma_region_size_bounds(self, region: Region)
        requires
            self.wf(),
        ensures
            0 <= self.count(region) <= self.region_size(region),
    {
        let c = self.count(region);
        let s = record_size(self.ptr(), region);
        assert(0 <= c <= c * s) by (nonlinear_arith)
            requires
                c >= 0,
                s >= 1,
        ;
    }

    /// Regions further down the layout order start no earlier.
    pub proof fn lemma_size_before_monotone(self, j: nat, k: nat)
        requires
            self.wf(),
            j <= k,
        ensures
            0 <= self.size_before(j) <= self.size_before(k),
        decreases k,
    {
        if k > 0 {
            let k1 = (k - 1) as nat;
            if j <= k1 {
                self.lemma_size_before_monotone(j, k1);
            } else {
                self.lemma_size_before_monotone(k1, k1);
            }
            self.lemma_region_size_bounds(Region::at(k1));
        }
    }

    /// One step of the layout, up to a region end that fits in an `i64`.
    pub(crate) proof fn lemma_step(self, k: nat)
        requires
            self.wf(),
            k < NUM_REGIONS,
            self.size_before(k + 1) <= i64::MAX,
        ensures
            self.size_before(k + 1) == self.size_before(k) + self.region_size(Region::at(k)),
            0 <= self.size_before(k),
            self.size_before(k + 1) <= i64::MAX,
            0 <= self.count(Region::at(k)) <= self.region_size(Region::at(k)),
    {
        self.lemma_size_before_monotone(0, k);
        self.lemma_region_size_bounds(Region::at(k));
    }

    /// Number of records in `region`.
    pub fn region_count(&self, region: Region) -> (r: u64)
        ensures
            r as int == self.count(region),
    {
        match region {
            Region::SignatureIds => self.num_signature_ids,
            Region::ImportedFunctions => self.num_imported_functions,
            Region::ImportedTables => self.num_imported_tables,
            Region::ImportedMemories => self.num_imported_memories,
            Region::ImportedGlobals => self.num_imported_globals,
            Region::DefinedTables => self.num_defined_tables,
            Region::DefinedMemories => self.num_defined_memories,
            Region::DefinedGlobals => self.num_defined_globals,
        }
    }

    /// Offset of the first record of `region` from the start of the context,
    /// or `ArithmeticOverflow` where it does not fit in an `i64`.
    pub fn region_offset(&self, region: Region) -> (r: Result<i64, LayoutError>)
        requires
            self.wf(),
        ensures
            match r {
                Ok(v) => v as int == self.region_start(region),
                Err(e) => e == LayoutError::ArithmeticOverflow && self.region_start(region)
                    > i64::MAX,
            },
    {
        let end = region.ordinal();
        let mut acc: u64 = 0;
        let mut k: u8 = 0;
        while k < end
            invariant
                self.wf(),
                end as nat == region.position(),
                k <= end,
                acc as int == self.size_before(k as nat),
            decreases end - k,
        {
            let cur = Region::from_ordinal(k);
            let n = self.region_count(cur);
            let size = self.record_size(cur);
            proof {
                self.lemma_size_before_monotone((k + 1) as nat, end as nat);
                self.lemma_region_size_bounds(cur);
            }
            match n.checked_mul(size as u64) {
                Some(bytes) => match acc.checked_add(bytes) {
                    Some(next) => {
                        acc = next;
                    },
                    None => {
                        return Err(LayoutError::ArithmeticOverflow);
                    },
                },
                None => {
                    proof {
                        self.lemma_size_before_monotone(0, k as nat);
                    }
                    return Err(LayoutError::ArithmeticOverflow);
                },
            }
            k = k + 1;
        }
        if acc > i64::MAX as u64 {
            Err(LayoutError::ArithmeticOverflow)
        } else {
            Ok(acc as i64)
        }
    }

    /// Offset of record `index` of `region` from the start of that region,
    /// before any check.
    pub open spec fn element_offset_spec(self, region: Region, index: int) -> int {
        index * record_size(self.ptr(), region)
    }

    /// What `element_offset` returns: the record's offset within its region,
    /// or the reason why it cannot be addressed.
    pub open spec fn element_offset_result(self, region: Region, index: int) -> Result<
        int,
        LayoutError,
    > {
        let off = self.element_offset_spec(region, index);
        if index >= self.count(region) {
            Err(LayoutError::OutOfRange)
        } else if off > u32::MAX {
            Err(LayoutError::ArithmeticOverflow)
        } else if off > i32::MAX {
            Err(LayoutError::NarrowingOverflow)
        } else {
            Ok(off)
        }
    }

    /// What `offset_of` returns: the record's offset from the start of the
    /// context, or the reason why it cannot be addressed.
    pub open spec fn offset_of_result(self, region: Region, index: int) -> Result<
        int,
        LayoutError,
    > {
        match self.element_offset_result(region, index) {
            Err(e) => Err(e),
            Ok(off) => {
                let at = self.region_start(region) + off;
                if at > i64::MAX {
                    Err(LayoutError::ArithmeticOverflow)
                } else if at > i32::MAX {
                    Err(LayoutError::NarrowingOverflow)
                } else {
                    Ok(at)
                }
            },
        }
    }

    /// Offset of record `index` of `region` from the start of that region.
    /// The index must be below the region's count, and the offset must be
    /// computed in 32 bits and fit in an `i32`.
    pub fn element_offset(&self, region: Region, index: u32) -> (r: Result<i32, LayoutError>)
        requires
            self.wf(),
        ensures
            widen(r) == self.element_offset_result(region, index as int),
    {
        if index as u64 >= self.region_count(region) {
            return Err(LayoutError::OutOfRange);
        }
        match index.checked_mul(self.record_size(region) as u32) {
            None => Err(LayoutError::ArithmeticOverflow),
            Some(off) => match narrow_to_i32(off as i64) {
                Ok(v) => Ok(v),
                Err(_) => Err(LayoutError::NarrowingOverflow),
            },
        }
    }

    /// Offset of record `index` of `region` from the start of the context.
    /// Fails with `OutOfRange` where the index is not below the region's
    /// count, with `ArithmeticOverflow` where a product or a sum does not fit
    /// the width it is computed in, and with `NarrowingOverflow` where the
    /// offset does not fit in an `i32`.
    pub fn offset_of(&self, region: Region, index: u32) -> (r: Result<i32, LayoutError>)
        requires
            self.wf(),
        ensures
            widen(r) == self.offset_of_result(region, index as int),
    {
        let off = match self.element_offset(region, index) {
            Ok(v) => v,
            Err(e) => {
                return Err(e);
            },
        };
        let start = match self.region_offset(region) {
            Ok(v) => v,
            Err(e) => {
                return Err(e);
            },
        };
        proof {
            self.lemma_size_before_monotone(0, region.position());
        }
        match start.checked_add(off as i64) {
            None => Err(LayoutError::ArithmeticOverflow),
            Some(at) => match narrow_to_i32(at) {
                Ok(v) => Ok(v),
                Err(_) => Err(LayoutError::NarrowingOverflow),
            },
        }
    }
}

/// Why a record cannot be addressed.
#[derive(Clone, Copy, Debug, PartialEq, Eq, Structural)]
pub enum LayoutError {
    /// The index is not below the number of records of its region.
    OutOfRange,
    /// A product or a sum does not fit the width it is computed in.
    ArithmeticOverflow,
    /// The offset does not fit in the 32 bits that generated code addresses with.
    NarrowingOverflow,
}

/// An offset result, with its value as a mathematical integer.
pub open spec fn widen(r: Result<i32, LayoutError>) -> Result<int, LayoutError> {
    match r {
        Ok(v) => Ok(v as int),
        Err(e) => Err(e),
    }
}

} // verus!
