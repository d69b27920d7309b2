use contract_interface::contract::ContractInterface;
use contract_interface::contract::ContractInterfaceFunction;
use contract_interface::contract::ContractInterfaceFunctionArg;
use contract_interface::contract::ContractInterfaceFunctionOutput;
use contract_interface::contract::ContractInterfaceMap;
use contract_interface::contract::ContractInterfaceVariable;
use contract_interface::contract::ContractInterfaceVariableAccess;
use contract_interface::interface::ContractInterfaceAtomType;
use contract_interface::interface::ContractInterfaceFunctionAccess;
use contract_interface::name_map::NameMap;
use contract_interface::types::AtomTypeIdentifier;
use contract_interface::types::ContractAnalysis;
use contract_interface::types::FunctionArg;
use contract_interface::types::FunctionType;
use contract_interface::types::ListTypeData;
use contract_interface::types::TupleTypeSignature;
use contract_interface::types::TypeSignature;

fn int_sig() -> TypeSignature {
    TypeSignature::Atom(AtomTypeIdentifier::IntType)
}

fn bool_sig() -> TypeSignature {
    TypeSignature::Atom(AtomTypeIdentifier::BoolType)
}

fn any_sig() -> TypeSignature {
    TypeSignature::Atom(AtomTypeIdentifier::AnyType)
}

fn buffer(length: u32) -> TypeSignature {
    TypeSignature::Atom(AtomTypeIdentifier::BufferType(length))
}

fn tuple(fields: Vec<(&str, TypeSignature)>) -> TypeSignature {
    let mut type_map = NameMap::new();
    for (name, sig) in fields {
        type_map.insert(name.to_string(), sig);
    }
    TypeSignature::Atom(AtomTypeIdentifier::TupleType(TupleTypeSignature { type_map }))
}

fn arg(name: &str, signature: TypeSignature) -> FunctionArg {
    FunctionArg { signature, name: name.to_string() }
}

fn shown_arg(name: &str, data_type: ContractInterfaceAtomType) -> ContractInterfaceFunctionArg {
    ContractInterfaceFunctionArg { name: name.to_string(), data_type }
}

fn functions(entries: Vec<(&str, FunctionType)>) -> NameMap<FunctionType> {
    let mut map = NameMap::new();
    for (name, function) in entries {
        map.insert(name.to_string(), function);
    }
    map
}

fn signatures(entries: Vec<(&str, TypeSignature)>) -> NameMap<TypeSignature> {
    let mut map = NameMap::new();
    for (name, sig) in entries {
        map.insert(name.to_string(), sig);
    }
    map
}

fn maps(
    entries: Vec<(&str, TypeSignature, TypeSignature)>,
) -> NameMap<(TypeSignature, TypeSignature)> {
    let mut map = NameMap::new();
    for (name, key, value) in entries {
        map.insert(name.to_string(), (key, value));
    }
    map
}

fn empty_analysis() -> ContractAnalysis {
    ContractAnalysis {
        private_function_types: NameMap::new(),
        public_function_types: NameMap::new(),
        read_only_function_types: NameMap::new(),
        variable_types: NameMap::new(),
        persisted_variable_types: NameMap::new(),
        map_types: NameMap::new(),
    }
}

fn sample_analysis() -> ContractAnalysis {
    ContractAnalysis {
        private_function_types: functions(vec![("f", FunctionType::Fixed(vec![], int_sig()))]),
        public_function_types: functions(vec![(
            "f",
            FunctionType::Fixed(vec![arg("to", buffer(20))], bool_sig()),
        )]),
        read_only_function_types: functions(vec![("f", FunctionType::Fixed(vec![], buffer(3)))]),
        variable_types: signatures(vec![("limit", int_sig())]),
        persisted_variable_types: signatures(vec![("count", int_sig()), ("active", bool_sig())]),
        map_types: maps(vec![(
            "balances",
            tuple(vec![("id", int_sig())]),
            tuple(vec![("amount", int_sig()), ("note", buffer(10))]),
        )]),
    }
}

#[test]
fn arguments_keep_their_order() {
    let args = vec![arg("z", int_sig()), arg("a", bool_sig()), arg("m", buffer(8))];
    assert!(ContractInterfaceFunctionArg::can_project(&args));
    assert_eq!(
        ContractInterfaceFunctionArg::from_function_args(&args),
        vec![
            shown_arg("z", ContractInterfaceAtomType::int128),
            shown_arg("a", ContractInterfaceAtomType::bool),
            shown_arg("m", ContractInterfaceAtomType::buffer { length: 8 }),
        ]
    );
}

#[test]
fn no_arguments_give_no_arguments() {
    let args: Vec<FunctionArg> = vec![];
    assert!(ContractInterfaceFunctionArg::can_project(&args));
    assert_eq!(ContractInterfaceFunctionArg::from_function_args(&args), vec![]);
}

#[test]
fn arguments_with_an_open_type_cannot_be_projected() {
    assert!(!ContractInterfaceFunctionArg::can_project(&vec![arg("a", int_sig()), arg("b", any_sig())]));
}

#[test]
fn functions_come_in_the_order_of_their_names() {
    let map = functions(vec![
        ("transfer", FunctionType::Fixed(vec![arg("amount", int_sig())], bool_sig())),
        ("balance", FunctionType::Fixed(vec![], int_sig())),
    ]);
    assert!(ContractInterfaceFunction::can_project(&map));
    assert_eq!(
        ContractInterfaceFunction::from_map(&map, ContractInterfaceFunctionAccess::public),
        vec![
            ContractInterfaceFunction {
                name: "balance".to_string(),
                access: ContractInterfaceFunctionAccess::public,
                args: vec![],
                outputs: ContractInterfaceFunctionOutput {
                    data_type: ContractInterfaceAtomType::int128,
                },
            },
            ContractInterfaceFunction {
                name: "transfer".to_string(),
                access: ContractInterfaceFunctionAccess::public,
                args: vec![shown_arg("amount", ContractInterfaceAtomType::int128)],
                outputs: ContractInterfaceFunctionOutput {
                    data_type: ContractInterfaceAtomType::bool,
                },
            },
        ]
    );
}

#[test]
fn every_function_carries_the_given_access() {
    let map = functions(vec![
        ("a", FunctionType::Fixed(vec![], int_sig())),
        ("b", FunctionType::Fixed(vec![], int_sig())),
    ]);
    for access in [
        ContractInterfaceFunctionAccess::private,
        ContractInterfaceFunctionAccess::public,
        ContractInterfaceFunctionAccess::read_only,
    ] {
        let shown = ContractInterfaceFunction::from_map(&map, access);
        assert_eq!(shown.len(), 2);
        assert!(shown.iter().all(|f| f.access == access));
    }
}

#[test]
fn variadic_functions_cannot_be_projected() {
    let variadic = FunctionType::Variadic(int_sig(), bool_sig());
    assert!(!variadic.is_fixed());
    assert!(!ContractInterfaceFunction::can_project(&functions(vec![
        ("ok", FunctionType::Fixed(vec![], int_sig())),
        ("plus", variadic),
    ])));
}

#[test]
fn union_functions_cannot_be_projected() {
    let union = FunctionType::UnionArgs(vec![int_sig(), bool_sig()], bool_sig());
    assert!(!union.is_fixed());
    assert!(!ContractInterfaceFunction::can_project(&functions(vec![("hash", union)])));
}

#[test]
fn fixed_functions_are_fixed() {
    assert!(FunctionType::Fixed(vec![], int_sig()).is_fixed());
}

#[test]
fn functions_with_an_open_type_cannot_be_projected() {
    assert!(!ContractInterfaceFunction::can_project(&functions(vec![(
        "f",
        FunctionType::Fixed(vec![], any_sig())
    )])));
    assert!(!ContractInterfaceFunction::can_project(&functions(vec![(
        "f",
        FunctionType::Fixed(vec![arg("x", any_sig())], int_sig())
    )])));
}

#[test]
fn variables_carry_their_access() {
    let map = signatures(vec![("total", int_sig()), ("owner", buffer(20))]);
    assert!(ContractInterfaceVariable::can_project(&map));
    assert_eq!(
        ContractInterfaceVariable::from_map(&map, ContractInterfaceVariableAccess::constant),
        vec![
            ContractInterfaceVariable {
                name: "owner".to_string(),
                data_type: ContractInterfaceAtomType::buffer { length: 20 },
                access: ContractInterfaceVariableAccess::constant,
            },
            ContractInterfaceVariable {
                name: "total".to_string(),
                data_type: ContractInterfaceAtomType::int128,
                access: ContractInterfaceVariableAccess::constant,
            },
        ]
    );
    let changing =
        ContractInterfaceVariable::from_map(&map, ContractInterfaceVariableAccess::variable);
    assert!(changing.iter().all(|v| v.access == ContractInterfaceVariableAccess::variable));
}

#[test]
fn variables_with_an_open_type_cannot_be_projected() {
    assert!(!ContractInterfaceVariable::can_project(&signatures(vec![
        ("a", int_sig()),
        ("b", TypeSignature::List(AtomTypeIdentifier::AnyType, ListTypeData { max_len: 1, dimension: 1 })),
    ])));
}

#[test]
fn a_map_shows_the_first_field_of_key_and_value() {
    let map = maps(vec![(
        "balances",
        tuple(vec![("id", int_sig())]),
        tuple(vec![("amount", int_sig()), ("note", buffer(10))]),
    )]);
    assert!(ContractInterfaceMap::can_project(&map));
    assert_eq!(
        ContractInterfaceMap::from_map(&map),
        vec![ContractInterfaceMap {
            name: "balances".to_string(),
            key_name: "id".to_string(),
            key_type: ContractInterfaceAtomType::int128,
            value_name: "amount".to_string(),
            value_type: ContractInterfaceAtomType::int128,
        }]
    );
}

#[test]
fn the_first_field_is_the_one_whose_name_comes_first() {
    let map = maps(vec![(
        "m",
        tuple(vec![("z", int_sig()), ("k", bool_sig())]),
        tuple(vec![("v", buffer(1)), ("b", buffer(2))]),
    )]);
    let shown = ContractInterfaceMap::from_map(&map);
    assert_eq!(shown[0].key_name, "k");
    assert_eq!(shown[0].key_type, ContractInterfaceAtomType::bool);
    assert_eq!(shown[0].value_name, "b");
    assert_eq!(shown[0].value_type, ContractInterfaceAtomType::buffer { length: 2 });
}

#[test]
fn an_open_type_behind_the_first_field_is_left_out() {
    let map = maps(vec![(
        "m",
        tuple(vec![("a", int_sig()), ("b", any_sig())]),
        tuple(vec![("c", bool_sig()), ("d", any_sig())]),
    )]);
    assert!(ContractInterfaceMap::can_project(&map));
    assert_eq!(
        ContractInterfaceMap::from_map(&map),
        vec![ContractInterfaceMap {
            name: "m".to_string(),
            key_name: "a".to_string(),
            key_type: ContractInterfaceAtomType::int128,
            value_name: "c".to_string(),
            value_type: ContractInterfaceAtomType::bool,
        }]
    );
}

#[test]
fn a_map_without_tuples_cannot_be_projected() {
    assert!(!ContractInterfaceMap::can_project(&maps(vec![(
        "m",
        int_sig(),
        tuple(vec![("v", int_sig())])
    )])));
    assert!(!ContractInterfaceMap::can_project(&maps(vec![(
        "m",
        tuple(vec![("k", int_sig())]),
        TypeSignature::List(AtomTypeIdentifier::IntType, ListTypeData { max_len: 1, dimension: 1 })
    )])));
}

#[test]
fn a_map_with_an_empty_tuple_cannot_be_projected() {
    assert!(!ContractInterfaceMap::can_project(&maps(vec![(
        "m",
        tuple(vec![]),
        tuple(vec![("v", int_sig())])
    )])));
    assert!(!ContractInterfaceMap::can_project(&maps(vec![(
        "m",
        tuple(vec![("k", int_sig())]),
        tuple(vec![])
    )])));
}

#[test]
fn a_map_with_an_open_first_field_cannot_be_projected() {
    assert!(!ContractInterfaceMap::can_project(&maps(vec![(
        "m",
        tuple(vec![("k", any_sig())]),
        tuple(vec![("v", int_sig())])
    )])));
}

#[test]
fn an_empty_analysis_gives_an_empty_interface() {
    let analysis = empty_analysis();
    assert!(analysis.can_project());
    assert_eq!(
        ContractInterface::from_analysis(&analysis),
        ContractInterface { functions: vec![], variables: vec![], maps: vec![] }
    );
}

#[test]
fn one_function_of_each_access_gives_three_entries() {
    let analysis = sample_analysis();
    assert!(analysis.can_project());
    let interface = ContractInterface::from_analysis(&analysis);
    assert_eq!(interface.functions.len(), 3);
    assert_eq!(interface.functions[0].name, "f");
    assert_eq!(interface.functions[0].access, ContractInterfaceFunctionAccess::private);
    assert_eq!(interface.functions[0].outputs.data_type, ContractInterfaceAtomType::int128);
    assert_eq!(interface.functions[1].name, "f");
    assert_eq!(interface.functions[1].access, ContractInterfaceFunctionAccess::public);
    assert_eq!(
        interface.functions[1].args,
        vec![shown_arg("to", ContractInterfaceAtomType::buffer { length: 20 })]
    );
    assert_eq!(interface.functions[2].name, "f");
    assert_eq!(interface.functions[2].access, ContractInterfaceFunctionAccess::read_only);
    assert_eq!(
        interface.functions[2].outputs.data_type,
        ContractInterfaceAtomType::buffer { length: 3 }
    );
}

#[test]
fn constants_come_before_changing_variables() {
    let interface = ContractInterface::from_analysis(&sample_analysis());
    assert_eq!(
        interface.variables,
        vec![
            ContractInterfaceVariable {
                name: "limit".to_string(),
                data_type: ContractInterfaceAtomType::int128,
                access: ContractInterfaceVariableAccess::constant,
            },
            ContractInterfaceVariable {
                name: "active".to_string(),
                data_type: ContractInterfaceAtomType::bool,
                access: ContractInterfaceVariableAccess::variable,
            },
            ContractInterfaceVariable {
                name: "count".to_string(),
                data_type: ContractInterfaceAtomType::int128,
                access: ContractInterfaceVariableAccess::variable,
            },
        ]
    );
    assert_eq!(interface.maps.len(), 1);
    assert_eq!(interface.maps[0].value_name, "amount");
}

#[test]
fn two_generations_give_the_same_interface() {
    let first = ContractInterface::from_analysis(&sample_analysis());
    let second = ContractInterface::from_analysis(&sample_analysis());
    assert_eq!(first, second);
    let analysis = sample_analysis();
    assert_eq!(
        ContractInterface::from_analysis(&analysis),
        ContractInterface::from_analysis(&analysis)
    );
}

#[test]
fn an_analysis_with_a_fault_cannot_be_projected() {
    let mut analysis = sample_analysis();
    analysis.read_only_function_types = functions(vec![("v", FunctionType::Variadic(int_sig(), int_sig()))]);
    assert!(!analysis.can_project());
    let mut analysis = sample_analysis();
    analysis.persisted_variable_types = signatures(vec![("x", any_sig())]);
    assert!(!analysis.can_project());
    let mut analysis = sample_analysis();
    analysis.map_types = maps(vec![("m", int_sig(), int_sig())]);
    assert!(!analysis.can_project());
}
