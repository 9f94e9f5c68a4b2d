use vstd::prelude::*;

use crate::utils::{decimal, decimal_text, prefixed_decimal};

verus! {

/// The id of a group of equivalent expressions in the memo.
#[derive(Clone, Copy, PartialEq, Eq, Structural, PartialOrd, Ord, Debug, Default, Hash)]
pub struct GroupId(pub u64);

/// The id of an expression in the memo.
#[derive(Clone, Copy, PartialEq, Eq, Structural, PartialOrd, Ord, Debug, Default, Hash)]
pub struct ExprId(pub u64);

/// The id of a base table.
#[derive(Clone, Copy, PartialEq, Eq, Structural, PartialOrd, Ord, Debug, Default, Hash)]
pub struct TableId(pub u64);

/// The id of an attribute.
#[derive(Clone, Copy, PartialEq, Eq, Structural, PartialOrd, Ord, Debug, Default, Hash)]
pub struct AttrId(pub u64);

/// The id of an epoch of statistics.
#[derive(Clone, Copy, PartialEq, Eq, Structural, PartialOrd, Ord, Debug, Default, Hash)]
pub struct EpochId(pub u64);

impl From<GroupId> for i32 {
    /// The id's low 32 bits, read as a signed integer.
    fn from(id: GroupId) -> (res: i32) {
        id.0 as i32
    }
}

impl vstd::std_specs::convert::FromSpecImpl<GroupId> for i32 {
    open spec fn obeys_from_spec() -> bool {
        true
    }

    open spec fn from_spec(id: GroupId) -> i32 {
        id.0 as i32
    }
}

impl From<ExprId> for i32 {
    /// The id's low 32 bits, read as a signed integer.
    fn from(id: ExprId) -> (res: i32) {
        id.0 as i32
    }
}

impl vstd::std_specs::convert::FromSpecImpl<ExprId> for i32 {
    open spec fn obeys_from_spec() -> bool {
        true
    }

    open spec fn from_spec(id: ExprId) -> i32 {
        id.0 as i32
    }
}

impl From<TableId> for i32 {
    /// The id's low 32 bits, read as a signed integer.
    fn from(id: TableId) -> (res: i32) {
        id.0 as i32
    }
}

impl vstd::std_specs::convert::FromSpecImpl<TableId> for i32 {
    open spec fn obeys_from_spec() -> bool {
        true
    }

    open spec fn from_spec(id: TableId) -> i32 {
        id.0 as i32
    }
}

impl From<AttrId> for i32 {
    /// The id's low 32 bits, read as a signed integer.
    fn from(id: AttrId) -> (res: i32) {
        id.0 as i32
    }
}

impl vstd::std_specs::convert::FromSpecImpl<AttrId> for i32 {
    open spec fn obeys_from_spec() -> bool {
        true
    }

    open spec fn from_spec(id: AttrId) -> i32 {
        id.0 as i32
    }
}

impl From<EpochId> for i32 {
    /// The id's low 32 bits, read as a signed integer.
    fn from(id: EpochId) -> (res: i32) {
        id.0 as i32
    }
}

impl vstd::std_specs::convert::FromSpecImpl<EpochId> for i32 {
    open spec fn obeys_from_spec() -> bool {
        true
    }

    open spec fn from_spec(id: EpochId) -> i32 {
        id.0 as i32
    }
}

impl GroupId {
    /// The id as `!` followed by the number.
    pub fn to_string(&self) -> (res: String)
        ensures
            res@ == "!"@ + decimal_text(self.0 as nat),
    {
        prefixed_decimal("!", self.0)
    }
}

impl ExprId {
    /// The id as its number.
    pub fn to_string(&self) -> (res: String)
        ensures
            res@ == decimal_text(self.0 as nat),
    {
        decimal(self.0 as u128)
    }
}

impl TableId {
    /// The id as `Table#` followed by the number.
    pub fn to_string(&self) -> (res: String)
        ensures
            res@ == "Table#"@ + decimal_text(self.0 as nat),
    {
        prefixed_decimal("Table#", self.0)
    }
}

impl AttrId {
    /// The id as `Attr#` followed by the number.
    pub fn to_string(&self) -> (res: String)
        ensures
            res@ == "Attr#"@ + decimal_text(self.0 as nat),
    {
        prefixed_decimal("Attr#", self.0)
    }
}

impl EpochId {
    /// The id as `Epoch#` followed by the number.
    pub fn to_string(&self) -> (res: String)
        ensures
            res@ == "Epoch#"@ + decimal_text(self.0 as nat),
    {
        prefixed_decimal("Epoch#", self.0)
    }
}

} // verus!
