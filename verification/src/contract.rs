use vstd::prelude::*;

use crate::error::ContractError;
use crate::msg::{ExecuteMsg, GetHumanDataResponse, GetMappedDataResponse, InstantiateMsg,
    QueryMsg, QueryResponse};
use crate::response::Response;
use crate::state::{keyed_read_model, keyed_write_model, singleton_write_model};
use crate::storage::Backend;

verus! {

/// Initialization: performs no store mutation, always succeeds, and returns
/// the module's static identity as response attributes.
pub fn instantiate(backend: &mut Backend, _msg: InstantiateMsg) -> (r: Result<
    Response,
    ContractError,
>)
    ensures
        final(backend).slot() == old(backend).slot(),
        final(backend).entries() == old(backend).entries(),
        r is Ok,
        r matches Ok(resp) ==> {
            &&& resp.attributes@.len() == 3
            &&& resp.attributes@[0].key@ == "action"@
            &&& resp.attributes@[0].value@ == "contract instantiated"@
            &&& resp.attributes@[1].key@ == "contract_name"@
            &&& resp.attributes@[1].value@ == "crates.io:archway-simple-storage"@
            &&& resp.attributes@[2].key@ == "contract_version"@
            &&& resp.attributes@[2].value@ == "0.1.0"@
        },
{
    Ok(
        Response::new().add_attribute("action", "contract instantiated").add_attribute(
            "contract_name",
            "crates.io:archway-simple-storage",
        ).add_attribute("contract_version", "0.1.0"),
    )
}

/// Routes a write request to the store it targets and wraps the outcome.
pub fn execute(backend: &mut Backend, msg: ExecuteMsg) -> (r: Result<Response, ContractError>)
    ensures
        msg matches ExecuteMsg::FillData { name, age } ==> {
            &&& r is Ok
            &&& final(backend).slot() == singleton_write_model(old(backend).slot(), name@, age)
            &&& final(backend).entries() == old(backend).entries()
            &&& (r matches Ok(resp) ==> resp.attributes@.len() == 1 && resp.attributes@[0].key@
                == "action"@ && resp.attributes@[0].value@ == "fill_data"@)
        },
        msg matches ExecuteMsg::MapData { name, age } ==> {
            &&& (r is Ok <==> !old(backend).entries().contains_key(name@))
            &&& final(backend).entries() == keyed_write_model(old(backend).entries(), name@, age)
            &&& final(backend).slot() == old(backend).slot()
            &&& (r matches Ok(resp) ==> resp.attributes@.len() == 1 && resp.attributes@[0].key@
                == "action"@ && resp.attributes@[0].value@ == "mapped_data"@)
            &&& (r matches Err(ContractError::CustomError { val }) ==> val@
                == "Name already exists"@)
        },
{
    match msg {
        ExecuteMsg::FillData { name, age } => execute_fill_data(backend, name, age),
        ExecuteMsg::MapData { name, age } => execute_map_data(backend, name, age),
    }
}

/// The singleton write path: replace the slot, succeed with the "fill_data"
/// action tag.
fn execute_fill_data(backend: &mut Backend, name: String, age: u64) -> (r: Result<
    Response,
    ContractError,
>)
    ensures
        r is Ok,
        final(backend).slot() == singleton_write_model(old(backend).slot(), name@, age),
        final(backend).entries() == old(backend).entries(),
        r matches Ok(resp) ==> resp.attributes@.len() == 1 && resp.attributes@[0].key@
            == "action"@ && resp.attributes@[0].value@ == "fill_data"@,
{
    backend.singleton_write(name, age);
    Ok(Response::new().add_attribute("action", "fill_data"))
}

/// The keyed write path: insert a fresh name and succeed with the
/// "mapped_data" action tag, or fail on a present name, wrapping the
/// duplicate-key error into the custom category and mutating nothing.
fn execute_map_data(backend: &mut Backend, name: String, age: u64) -> (r: Result<
    Response,
    ContractError,
>)
    ensures
        (r is Ok <==> !old(backend).entries().contains_key(name@)),
        final(backend).entries() == keyed_write_model(old(backend).entries(), name@, age),
        final(backend).slot() == old(backend).slot(),
        r matches Ok(resp) ==> resp.attributes@.len() == 1 && resp.attributes@[0].key@
            == "action"@ && resp.attributes@[0].value@ == "mapped_data"@,
        r matches Err(ContractError::CustomError { val }) ==> val@ == "Name already exists"@,
{
    match backend.keyed_write(name, age) {
        Ok(_) => Ok(Response::new().add_attribute("action", "mapped_data")),
        Err(_) => Err(ContractError::CustomError { val: "Name already exists".to_owned() }),
    }
}

/// Routes a read request to the store it targets and encodes the optional
/// result — absence is a success, never an error.
pub fn query(backend: &Backend, msg: QueryMsg) -> (r: Result<QueryResponse, ContractError>)
    ensures
        r is Ok,
        msg matches QueryMsg::GetHumanData {  } ==> (r matches Ok(QueryResponse::HumanData(resp))
            && (resp.human_data matches Some(h) ==> backend.slot() == Some((h.name@, h.age))) && (
        resp.human_data is None <==> backend.slot() is None)),
        msg matches QueryMsg::GetMappedData { name } ==> (r matches Ok(
            QueryResponse::MappedData(resp),
        ) && (resp.mapped_data matches Some(a) ==> keyed_read_model(backend.entries(), name@)
            == Some(a.age)) && (resp.mapped_data is None <==> keyed_read_model(
            backend.entries(),
            name@,
        ) is None)),
{
    match msg {
        QueryMsg::GetHumanData {} => query_get_human_data(backend),
        QueryMsg::GetMappedData { name } => query_get_mapped_data(backend, name),
    }
}

/// The singleton read path: the current record, or absence if never written.
fn query_get_human_data(backend: &Backend) -> (r: Result<QueryResponse, ContractError>)
    ensures
        r matches Ok(QueryResponse::HumanData(resp)) && (resp.human_data matches Some(h)
            ==> backend.slot() == Some((h.name@, h.age))) && (resp.human_data is None
            <==> backend.slot() is None),
{
    let human_data = backend.singleton_read();
    Ok(QueryResponse::HumanData(GetHumanDataResponse { human_data }))
}

/// The keyed read path: the entry under the name, or absence if never written.
fn query_get_mapped_data(backend: &Backend, name: String) -> (r: Result<
    QueryResponse,
    ContractError,
>)
    ensures
        r matches Ok(QueryResponse::MappedData(resp)) && (resp.mapped_data matches Some(a)
            ==> keyed_read_model(backend.entries(), name@) == Some(a.age)) && (
        resp.mapped_data is None <==> keyed_read_model(backend.entries(), name@) is None),
{
    let mapped_data = backend.keyed_read(&name);
    Ok(QueryResponse::MappedData(GetMappedDataResponse { mapped_data }))
}

} // verus!
