use vstd::prelude::*;
use vstd::string::StringExecFns;

verus! {

/// The logical connectives.
#[derive(Copy, Clone, PartialEq, Eq, Structural, Hash, Debug)]
pub enum LogOpType {
    And,
    Or,
}

/// The name of the variant, as `{:?}` writes it.
pub open spec fn log_op_name(v: LogOpType) -> Seq<char> {
    match v {
        LogOpType::And => "And"@,
        LogOpType::Or => "Or"@,
    }
}

impl LogOpType {
    /// The name of the variant.
    pub fn to_string(&self) -> (res: String)
        ensures
            res@ == log_op_name(*self),
    {
        String::from_str(
            match self {
                LogOpType::And => "And",
                LogOpType::Or => "Or",
            },
        )
    }
}

} // verus!
