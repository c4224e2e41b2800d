use archway_simple_storage::contract::{execute, instantiate, query};
use archway_simple_storage::error::ContractError;
use archway_simple_storage::msg::{
    ExecuteMsg, GetHumanDataResponse, GetMappedDataResponse, InstantiateMsg, QueryMsg,
    QueryResponse,
};
use archway_simple_storage::response::Attribute;
use archway_simple_storage::state::{Age, Humans, KeyExists};
use archway_simple_storage::storage::Backend;

#[test]
fn test_instantiate() {
    let mut backend = Backend::new();
    let msg = InstantiateMsg {};

    let expected_contract_name = "crates.io:archway-simple-storage";
    let expected_contract_version = "0.1.0";

    let result = instantiate(&mut backend, msg);

    assert!(result.is_ok());
    let response = result.unwrap();
    assert_eq!(response.attributes.len(), 3);
    assert_eq!(response.attributes[0].key, "action");
    assert_eq!(response.attributes[0].value, "contract instantiated");
    assert_eq!(response.attributes[1].key, "contract_name");
    assert_eq!(response.attributes[1].value, expected_contract_name);
    assert_eq!(response.attributes[2].key, "contract_version");
    assert_eq!(response.attributes[2].value, expected_contract_version);
}

#[test]
fn test_fill_data() {
    let mut backend = Backend::new();

    let _resp = instantiate(&mut backend, InstantiateMsg {});

    let msg = ExecuteMsg::FillData {
        name: "John Newton".to_string(),
        age: 25,
    };
    let resp = execute(&mut backend, msg).unwrap();
    assert_eq!(
        resp.attributes,
        vec![Attribute {
            key: "action".to_string(),
            value: "fill_data".to_string(),
        }]
    );
}

#[test]
fn test_map_data() {
    let mut backend = Backend::new();

    let _resp = instantiate(&mut backend, InstantiateMsg {});

    let msg = ExecuteMsg::MapData {
        name: "John".to_string(),
        age: 25,
    };
    let resp = execute(&mut backend, msg).unwrap();
    assert_eq!(
        resp.attributes,
        vec![Attribute {
            key: "action".to_string(),
            value: "mapped_data".to_string(),
        }]
    );

    let msg = ExecuteMsg::MapData {
        name: "John".to_string(),
        age: 25,
    };
    let _resp = execute(&mut backend, msg).unwrap_err();
}

#[test]
fn query_get_human_data() {
    let mut backend = Backend::new();

    let _resp = instantiate(&mut backend, InstantiateMsg {});

    let msg = ExecuteMsg::FillData {
        name: "John Newton".to_string(),
        age: 25,
    };
    let _resp = execute(&mut backend, msg).unwrap();

    let query_msg = QueryMsg::GetHumanData {};
    let query_resp = query(&backend, query_msg).unwrap();

    match query_resp {
        QueryResponse::HumanData(human_data) => assert_eq!(
            human_data,
            GetHumanDataResponse {
                human_data: Some(Humans {
                    name: "John Newton".to_string(),
                    age: 25,
                })
            }
        ),
        other => panic!("unexpected query reply: {:?}", other),
    }
}

#[test]
fn query_get_mapped_data() {
    let mut backend = Backend::new();

    let _resp = instantiate(&mut backend, InstantiateMsg {});

    let msg = ExecuteMsg::MapData {
        name: "John".to_string(),
        age: 25,
    };
    let _resp = execute(&mut backend, msg).unwrap();

    let query_msg = QueryMsg::GetMappedData {
        name: "John".to_string(),
    };
    let query_resp = query(&backend, query_msg).unwrap();

    match query_resp {
        QueryResponse::MappedData(mapped_data) => assert_eq!(
            mapped_data,
            GetMappedDataResponse {
                mapped_data: Some(Age { age: 25 })
            }
        ),
        other => panic!("unexpected query reply: {:?}", other),
    }
}

#[test]
fn singleton_read_returns_exactly_the_written_record() {
    let mut backend = Backend::new();
    assert_eq!(backend.singleton_read(), None);

    backend.singleton_write("a".to_string(), 1);
    assert_eq!(
        backend.singleton_read(),
        Some(Humans {
            name: "a".to_string(),
            age: 1,
        })
    );
}

#[test]
fn singleton_overwrite_keeps_only_the_last_write() {
    let mut backend = Backend::new();
    backend.singleton_write("a".to_string(), 1);
    backend.singleton_write("b".to_string(), 2);
    backend.singleton_write("c".to_string(), 3);
    assert_eq!(
        backend.singleton_read(),
        Some(Humans {
            name: "c".to_string(),
            age: 3,
        })
    );
}

#[test]
fn keyed_first_write_wins_and_error_carries_the_key() {
    let mut backend = Backend::new();
    assert!(backend.keyed_write("n".to_string(), 7).is_ok());

    let err = backend.keyed_write("n".to_string(), 9).unwrap_err();
    assert_eq!(
        err,
        KeyExists {
            key: "n".to_string(),
        }
    );
    assert_eq!(backend.keyed_read(&"n".to_string()), Some(Age { age: 7 }));
}

#[test]
fn keyed_read_of_unwritten_key_is_absence_not_error() {
    let mut backend = Backend::new();
    assert_eq!(backend.keyed_read(&"never".to_string()), None);

    assert!(backend.keyed_write("written".to_string(), 5).is_ok());
    assert_eq!(backend.keyed_read(&"never".to_string()), None);
}

#[test]
fn empty_string_key_is_valid_and_distinct_from_absence() {
    let mut backend = Backend::new();
    assert_eq!(backend.keyed_read(&String::new()), None);

    assert!(backend.keyed_write(String::new(), 3).is_ok());
    assert_eq!(backend.keyed_read(&String::new()), Some(Age { age: 3 }));
    assert_eq!(backend.keyed_read(&"x".to_string()), None);

    assert!(backend.keyed_write(String::new(), 4).is_err());
    assert_eq!(backend.keyed_read(&String::new()), Some(Age { age: 3 }));
}

#[test]
fn duplicate_keyed_write_reports_the_fixed_message() {
    let mut backend = Backend::new();
    let msg = ExecuteMsg::MapData {
        name: "John".to_string(),
        age: 25,
    };
    let _resp = execute(&mut backend, msg).unwrap();

    let msg = ExecuteMsg::MapData {
        name: "John".to_string(),
        age: 30,
    };
    let err = execute(&mut backend, msg).unwrap_err();
    assert_eq!(
        err,
        ContractError::CustomError {
            val: "Name already exists".to_string(),
        }
    );
}

#[test]
fn the_two_regions_are_independent() {
    let mut backend = Backend::new();
    backend.singleton_write("solo".to_string(), 11);
    assert!(backend.keyed_write("solo".to_string(), 22).is_ok());

    assert_eq!(
        backend.singleton_read(),
        Some(Humans {
            name: "solo".to_string(),
            age: 11,
        })
    );
    assert_eq!(backend.keyed_read(&"solo".to_string()), Some(Age { age: 22 }));

    backend.singleton_write("other".to_string(), 33);
    assert_eq!(backend.keyed_read(&"solo".to_string()), Some(Age { age: 22 }));
}

#[test]
fn scenario_fill_then_get_singleton() {
    let mut backend = Backend::new();
    let _resp = instantiate(&mut backend, InstantiateMsg {});

    let msg = ExecuteMsg::FillData {
        name: "John Newton".to_string(),
        age: 25,
    };
    let _resp = execute(&mut backend, msg).unwrap();

    match query(&backend, QueryMsg::GetHumanData {}).unwrap() {
        QueryResponse::HumanData(reply) => assert_eq!(
            reply.human_data,
            Some(Humans {
                name: "John Newton".to_string(),
                age: 25,
            })
        ),
        other => panic!("unexpected query reply: {:?}", other),
    }
}

#[test]
fn scenario_keyed_write_conflict_then_get() {
    let mut backend = Backend::new();
    let _resp = instantiate(&mut backend, InstantiateMsg {});

    let msg = ExecuteMsg::MapData {
        name: "John".to_string(),
        age: 25,
    };
    let resp = execute(&mut backend, msg).unwrap();
    assert_eq!(resp.attributes[0].value, "mapped_data");

    let msg = ExecuteMsg::MapData {
        name: "John".to_string(),
        age: 25,
    };
    let err = execute(&mut backend, msg).unwrap_err();
    assert_eq!(
        err,
        ContractError::CustomError {
            val: "Name already exists".to_string(),
        }
    );

    match query(
        &backend,
        QueryMsg::GetMappedData {
            name: "John".to_string(),
        },
    )
    .unwrap()
    {
        QueryResponse::MappedData(reply) => {
            assert_eq!(reply.mapped_data, Some(Age { age: 25 }))
        }
        other => panic!("unexpected query reply: {:?}", other),
    }
}

#[test]
fn scenario_fresh_store_reads_absence_everywhere() {
    let mut backend = Backend::new();
    let _resp = instantiate(&mut backend, InstantiateMsg {});

    match query(&backend, QueryMsg::GetHumanData {}).unwrap() {
        QueryResponse::HumanData(reply) => assert_eq!(reply.human_data, None),
        other => panic!("unexpected query reply: {:?}", other),
    }

    match query(
        &backend,
        QueryMsg::GetMappedData {
            name: "anything".to_string(),
        },
    )
    .unwrap()
    {
        QueryResponse::MappedData(reply) => assert_eq!(reply.mapped_data, None),
        other => panic!("unexpected query reply: {:?}", other),
    }
}
