//! The allocation policy of the engine for tables.

use crate::types::{TableStyle, TableType};
use crate::vm::{VMTable, VMTableView};
use vstd::prelude::*;

verus! {

/// The policy by which storage is chosen and allocated for the tables that
/// the host creates.
#[derive(Clone, Copy, Debug)]
pub struct BaseTunables {}

impl BaseTunables {
    /// The policy.
    pub fn new() -> (r: BaseTunables)
        ensures
            r == (BaseTunables {  }),
    {
        BaseTunables {  }
    }

    /// Returns the storage strategy for a table of the given type.
    pub fn table_style(&self, table: &TableType) -> (r: TableStyle)
        ensures
            r == TableStyle::CallerChecksSignature,
    {
        TableStyle::CallerChecksSignature
    }

    /// Allocates the storage of a table that the host owns: see
    /// [`VMTable::new`].
    pub fn create_host_table(&self, ty: &TableType, style: &TableStyle) -> (r: Result<
        VMTable,
        String,
    >)
        ensures
            match r {
                Ok(t) => ty.allocatable() && t@ == VMTableView::fresh(*ty, *style) && t@.wf(),
                Err(msg) => !ty.allocatable() && msg@ == VMTable::spec_new_error(*ty),
            },
    {
        VMTable::new(ty, style)
    }
}

} // verus!
