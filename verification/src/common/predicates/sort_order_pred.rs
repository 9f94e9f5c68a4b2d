use vstd::prelude::*;
use vstd::string::StringExecFns;

verus! {

/// The direction of a sort.
#[derive(Copy, Clone, PartialEq, Eq, Structural, Hash, Debug)]
pub enum SortOrderType {
    Asc,
    Desc,
}

/// The name of the variant, as `{:?}` writes it.
pub open spec fn sort_order_name(v: SortOrderType) -> Seq<char> {
    match v {
        SortOrderType::Asc => "Asc"@,
        SortOrderType::Desc => "Desc"@,
    }
}

impl SortOrderType {
    /// The name of the variant.
    pub fn to_string(&self) -> (res: String)
        ensures
            res@ == sort_order_name(*self),
    {
        String::from_str(
            match self {
                SortOrderType::Asc => "Asc",
                SortOrderType::Desc => "Desc",
            },
        )
    }
}

} // verus!
