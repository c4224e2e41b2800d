use vstd::prelude::*;

verus! {

/// The dispatcher's failure type. The only error this module ever raises is
/// the generic custom category wrapping a duplicate-key message.
#[derive(Clone, Debug, PartialEq, Eq)]
pub enum ContractError {
    CustomError { val: String },
}

} // verus!
