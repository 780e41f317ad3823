use vstd::prelude::*;
use crate::text::str_eq;

verus! {

/// The operations the calculator tool understands. The tool's arithmetic
/// itself runs on floating point in the host around the library; the library
/// owns the operation names and their decoding.
#[derive(Debug, PartialEq, Eq, Structural, Clone, Copy)]
pub enum Operation {
    Add,
    Subtract,
    Multiply,
    Divide,
}

/// Which operation a lower-case name denotes, if any.
pub open spec fn operation_of(name: Seq<char>) -> Option<Operation> {
    if name == "add"@ {
        Some(Operation::Add)
    } else if name == "subtract"@ {
        Some(Operation::Subtract)
    } else if name == "multiply"@ {
        Some(Operation::Multiply)
    } else if name == "divide"@ {
        Some(Operation::Divide)
    } else {
        None
    }
}

/// Parses an operation name, exactly where `operation_of` names one.
pub fn parse_operation(name: &str) -> (r: Option<Operation>)
    ensures
        r == operation_of(name@),
{
    if str_eq(name, "add") {
        Some(Operation::Add)
    } else if str_eq(name, "subtract") {
        Some(Operation::Subtract)
    } else if str_eq(name, "multiply") {
        Some(Operation::Multiply)
    } else if str_eq(name, "divide") {
        Some(Operation::Divide)
    } else {
        None
    }
}

} // verus!
