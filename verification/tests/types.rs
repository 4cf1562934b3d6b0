use envio_hyperindex_blueprint::types::{EventParam, SolidityType};

#[test]
fn test_basic_graphql_type_conversion() {
    let test_cases = vec![
        (SolidityType::Address, "String!"),
        (SolidityType::Bool, "Boolean!"),
        (SolidityType::String, "String!"),
        (SolidityType::Bytes(None), "String!"),
        (SolidityType::Bytes(Some(32)), "String!"),
        (SolidityType::Uint(256), "BigInt!"),
        (SolidityType::Int(256), "BigInt!"),
    ];

    for (sol_type, expected) in test_cases {
        assert_eq!(sol_type.to_graphql_type().unwrap(), expected);
    }
}

#[test]
fn test_array_graphql_type_conversion() {
    let test_cases = vec![
        // Dynamic arrays
        (
            SolidityType::Array(Box::new(SolidityType::Address), None),
            "[String]!",
        ),
        (
            SolidityType::Array(Box::new(SolidityType::Uint(256)), None),
            "[BigInt]!",
        ),
        // Fixed size arrays
        (
            SolidityType::Array(Box::new(SolidityType::Bool), Some(5)),
            "[Boolean]!",
        ),
        // Nested arrays
        (
            SolidityType::Array(
                Box::new(SolidityType::Array(Box::new(SolidityType::Address), None)),
                None,
            ),
            "[[String]]!",
        ),
    ];

    for (sol_type, expected) in test_cases {
        assert_eq!(sol_type.to_graphql_type().unwrap(), expected);
    }
}

#[test]
fn test_tuple_graphql_type_conversion() {
    let tuple = SolidityType::Tuple(vec![SolidityType::Address, SolidityType::Uint(256)]);
    assert_eq!(tuple.to_graphql_type().unwrap(), "TupleString!_BigInt!!");

    let nested_tuple = SolidityType::Tuple(vec![
        SolidityType::Address,
        SolidityType::Tuple(vec![SolidityType::Bool, SolidityType::Uint(256)]),
    ]);
    assert_eq!(
        nested_tuple.to_graphql_type().unwrap(),
        "TupleString!_TupleBoolean!_BigInt!!"
    );
}

#[test]
fn test_basic_solidity_type_conversion() {
    let test_cases = vec![
        ("address", SolidityType::Address),
        ("bool", SolidityType::Bool),
        ("string", SolidityType::String),
        ("bytes", SolidityType::Bytes(None)),
        ("bytes32", SolidityType::Bytes(Some(32))),
        ("uint256", SolidityType::Uint(256)),
        ("uint8", SolidityType::Uint(8)),
        ("int256", SolidityType::Int(256)),
        ("int128", SolidityType::Int(128)),
    ];

    for (type_str, expected) in test_cases {
        assert_eq!(SolidityType::from_type_string(type_str), expected);
    }
}

#[test]
fn test_array_solidity_type_conversion() {
    let test_cases = vec![
        (
            "address[]",
            SolidityType::Array(Box::new(SolidityType::Address), None),
        ),
        (
            "uint256[5]",
            SolidityType::Array(Box::new(SolidityType::Uint(256)), Some(5)),
        ),
        (
            "bool[][]",
            SolidityType::Array(
                Box::new(SolidityType::Array(Box::new(SolidityType::Bool), None)),
                None,
            ),
        ),
    ];

    for (type_str, expected) in test_cases {
        assert_eq!(SolidityType::from_type_string(type_str), expected);
    }
}

#[test]
fn test_custom_type_conversion() {
    let custom_type = SolidityType::from_type_string("TokenData");
    assert_eq!(custom_type, SolidityType::Custom("TokenData".to_string()));
    assert_eq!(custom_type.to_graphql_type().unwrap(), "TokenData!");
}

#[test]
fn test_event_param_creation() {
    let param = EventParam {
        name: "amount".to_string(),
        param_type: SolidityType::Uint(256),
        indexed: true,
    };

    assert_eq!(param.name, "amount");
    assert_eq!(param.param_type, SolidityType::Uint(256));
    assert!(param.indexed);
}

#[test]
fn test_invalid_size_handling() {
    // Test invalid uint size defaults to 256
    assert_eq!(
        SolidityType::from_type_string("uint999"),
        SolidityType::Uint(256)
    );

    // Test invalid int size defaults to 256
    assert_eq!(
        SolidityType::from_type_string("int999"),
        SolidityType::Int(256)
    );

    // Test invalid bytes size defaults to 0
    assert_eq!(
        SolidityType::from_type_string("bytes999"),
        SolidityType::Bytes(Some(0))
    );
}

#[test]
fn widths_outside_the_valid_ones_take_the_default() {
    assert_eq!(SolidityType::from_type_string("uint"), SolidityType::Uint(256));
    assert_eq!(SolidityType::from_type_string("uint7"), SolidityType::Uint(256));
    assert_eq!(SolidityType::from_type_string("uint0"), SolidityType::Uint(256));
    assert_eq!(SolidityType::from_type_string("uint264"), SolidityType::Uint(256));
    assert_eq!(SolidityType::from_type_string("uint99999"), SolidityType::Uint(256));
    assert_eq!(SolidityType::from_type_string("int16"), SolidityType::Int(16));
    assert_eq!(SolidityType::from_type_string("int+8"), SolidityType::Int(8));
    assert_eq!(SolidityType::from_type_string("bytes1"), SolidityType::Bytes(Some(1)));
    assert_eq!(SolidityType::from_type_string("bytes33"), SolidityType::Bytes(Some(0)));
    assert_eq!(SolidityType::from_type_string("bytes0"), SolidityType::Bytes(Some(0)));
    assert_eq!(SolidityType::from_type_string("bytesx"), SolidityType::Bytes(Some(0)));
}

#[test]
fn array_forms_come_before_sized_types() {
    assert_eq!(
        SolidityType::from_type_string("bytes32[]"),
        SolidityType::Array(Box::new(SolidityType::Bytes(Some(32))), None)
    );
    assert_eq!(
        SolidityType::from_type_string("tuple[]"),
        SolidityType::Array(Box::new(SolidityType::Tuple(vec![])), None)
    );
    assert_eq!(
        SolidityType::from_type_string("Thing[x]"),
        SolidityType::Array(Box::new(SolidityType::Custom("Thing".to_string())), None)
    );
    assert_eq!(
        SolidityType::from_type_string("uint8[3][4]"),
        SolidityType::Array(Box::new(SolidityType::Uint(8)), Some(3))
    );
    assert_eq!(
        SolidityType::from_type_string("uint8[3]]"),
        SolidityType::Array(Box::new(SolidityType::Uint(8)), Some(3))
    );
    assert_eq!(SolidityType::from_type_string("tuple"), SolidityType::Tuple(vec![]));
    assert_eq!(SolidityType::from_type_string(""), SolidityType::Custom(String::new()));
    assert_eq!(SolidityType::from_type_string("]"), SolidityType::Custom("]".to_string()));
}

#[test]
fn array_marks_of_obligation_are_all_removed() {
    let odd = SolidityType::Array(Box::new(SolidityType::Custom("Odd!!".to_string())), None);
    assert_eq!(odd.to_graphql_type().unwrap(), "[Odd]!");
    let empty = SolidityType::Tuple(vec![]);
    assert_eq!(empty.to_graphql_type().unwrap(), "Tuple!");
    let single = SolidityType::Tuple(vec![SolidityType::Bool]);
    assert_eq!(single.to_graphql_type().unwrap(), "TupleBoolean!!");
}

#[test]
fn from_sol_name_always_succeeds() {
    assert_eq!(SolidityType::from_sol_name("address"), Ok(SolidityType::Address));
    assert_eq!(
        SolidityType::from_sol_name("uint256[]"),
        Ok(SolidityType::Array(Box::new(SolidityType::Uint(256)), None))
    );
}

#[test]
fn clone_keeps_the_type() {
    let t = SolidityType::Tuple(vec![
        SolidityType::Array(Box::new(SolidityType::Custom("A".to_string())), Some(2)),
        SolidityType::Bytes(None),
    ]);
    assert_eq!(t.clone(), t);
}
