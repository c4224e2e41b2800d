use vstd::prelude::*;

use crate::state::{Age, Humans};

verus! {

/// The initialization request. It carries nothing.
#[derive(Clone, Debug, PartialEq, Eq)]
pub struct InstantiateMsg {}

/// The write requests: fill the singleton slot, or map a name to an age.
#[derive(Clone, Debug, PartialEq, Eq)]
pub enum ExecuteMsg {
    FillData { name: String, age: u64 },
    MapData { name: String, age: u64 },
}

/// The read requests: the singleton record, or the entry under one name.
#[derive(Clone, Debug, PartialEq, Eq)]
pub enum QueryMsg {
    GetHumanData {},
    GetMappedData { name: String },
}

/// The reply to GetHumanData: the current record, or absence if the slot was
/// never written. Absence is a success, not an error.
#[derive(Clone, Debug, PartialEq, Eq)]
pub struct GetHumanDataResponse {
    pub human_data: Option<Humans>,
}

/// The reply to GetMappedData: the entry under the requested name, or absence
/// if that name was never written. Absence is a success, not an error.
#[derive(Clone, Debug, PartialEq, Eq)]
pub struct GetMappedDataResponse {
    pub mapped_data: Option<Age>,
}

/// A typed query reply, one variant per read request.
#[derive(Clone, Debug, PartialEq, Eq)]
pub enum QueryResponse {
    HumanData(GetHumanDataResponse),
    MappedData(GetMappedDataResponse),
}

} // verus!
