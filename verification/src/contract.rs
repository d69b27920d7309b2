//! The functions, variables and maps of a contract as its interface shows
//! them, and the interface as a whole.

use crate::interface::project_signature;
use crate::interface::ContractInterfaceAtomType;
use crate::interface::ContractInterfaceAtomTypeView;
use crate::interface::ContractInterfaceFunctionAccess;
use crate::name_map::NameMap;
use crate::names::name_precedes;
use crate::types::fields_resolved;
use crate::types::AtomTypeIdentifier;
use crate::types::AtomTypeView;
use crate::types::ContractAnalysis;
use crate::types::ContractAnalysisView;
use crate::types::FunctionArg;
use crate::types::FunctionArgView;
use crate::types::FunctionType;
use crate::types::FunctionTypeView;
use crate::types::TypeSignature;
use crate::types::TypeSignatureView;
use vstd::prelude::*;

verus! {

/// A named argument of a function.
#[derive(Debug, PartialEq, Eq)]
pub struct ContractInterfaceFunctionArg {
    pub name: String,
    pub data_type: ContractInterfaceAtomType,
}

/// What a function gives back.
#[derive(Debug, PartialEq, Eq)]
pub struct ContractInterfaceFunctionOutput {
    pub data_type: ContractInterfaceAtomType,
}

/// A function of a contract.
#[derive(Debug, PartialEq, Eq)]
pub struct ContractInterfaceFunction {
    pub name: String,
    pub access: ContractInterfaceFunctionAccess,
    pub args: Vec<ContractInterfaceFunctionArg>,
    pub outputs: ContractInterfaceFunctionOutput,
}

/// Whether a variable of a contract may change.
#[allow(non_camel_case_types)]
#[derive(Debug, Clone, Copy, PartialEq, Eq)]
pub enum ContractInterfaceVariableAccess {
    constant,
    variable,
}

/// A variable of a contract.
#[derive(Debug, PartialEq, Eq)]
pub struct ContractInterfaceVariable {
    pub name: String,
    pub data_type: ContractInterfaceAtomType,
    pub access: ContractInterfaceVariableAccess,
}

/// A map of a contract, with the name and type of the first field of its key
/// and of its value.
#[derive(Debug, PartialEq, Eq)]
pub struct ContractInterfaceMap {
    pub name: String,
    pub key_name: String,
    pub key_type: ContractInterfaceAtomType,
    pub value_name: String,
    pub value_type: ContractInterfaceAtomType,
}

/// The interface of a contract.
#[derive(Debug, PartialEq, Eq)]
pub struct ContractInterface {
    pub functions: Vec<ContractInterfaceFunction>,
    pub variables: Vec<ContractInterfaceVariable>,
    pub maps: Vec<ContractInterfaceMap>,
}

/// What a [`ContractInterfaceFunctionArg`] stands for.
pub ghost struct ContractInterfaceFunctionArgView {
    pub name: Seq<char>,
    pub data_type: ContractInterfaceAtomTypeView,
}

/// What a [`ContractInterfaceFunctionOutput`] stands for.
pub ghost struct ContractInterfaceFunctionOutputView {
    pub data_type: ContractInterfaceAtomTypeView,
}

/// What a [`ContractInterfaceFunction`] stands for.
pub ghost struct ContractInterfaceFunctionView {
    pub name: Seq<char>,
    pub access: ContractInterfaceFunctionAccess,
    pub args: Seq<ContractInterfaceFunctionArgView>,
    pub outputs: ContractInterfaceFunctionOutputView,
}

/// What a [`ContractInterfaceVariable`] stands for.
pub ghost struct ContractInterfaceVariableView {
    pub name: Seq<char>,
    pub data_type: ContractInterfaceAtomTypeView,
    pub access: ContractInterfaceVariableAccess,
}

/// What a [`ContractInterfaceMap`] stands for.
pub ghost struct ContractInterfaceMapView {
    pub name: Seq<char>,
    pub key_name: Seq<char>,
    pub key_type: ContractInterfaceAtomTypeView,
    pub value_name: Seq<char>,
    pub value_type: ContractInterfaceAtomTypeView,
}

/// What a [`ContractInterface`] stands for.
pub ghost struct ContractInterfaceView {
    pub functions: Seq<ContractInterfaceFunctionView>,
    pub variables: Seq<ContractInterfaceVariableView>,
    pub maps: Seq<ContractInterfaceMapView>,
}

impl View for ContractInterfaceFunctionArg {
    type V = ContractInterfaceFunctionArgView;

    open spec fn view(&self) -> ContractInterfaceFunctionArgView {
        ContractInterfaceFunctionArgView { name: self.name@, data_type: self.data_type@ }
    }
}

impl DeepView for ContractInterfaceFunctionArg {
    type V = ContractInterfaceFunctionArgView;

    open spec fn deep_view(&self) -> ContractInterfaceFunctionArgView {
        self@
    }
}

impl View for ContractInterfaceFunctionOutput {
    type V = ContractInterfaceFunctionOutputView;

    open spec fn view(&self) -> ContractInterfaceFunctionOutputView {
        ContractInterfaceFunctionOutputView { data_type: self.data_type@ }
    }
}

impl View for ContractInterfaceFunction {
    type V = ContractInterfaceFunctionView;

    open spec fn view(&self) -> ContractInterfaceFunctionView {
        ContractInterfaceFunctionView {
            name: self.name@,
            access: self.access,
            args: self.args.deep_view(),
            outputs: self.outputs@,
        }
    }
}

impl DeepView for ContractInterfaceFunction {
    type V = ContractInterfaceFunctionView;

    open spec fn deep_view(&self) -> ContractInterfaceFunctionView {
        self@
    }
}

impl View for ContractInterfaceVariable {
    type V = ContractInterfaceVariableView;

    open spec fn view(&self) -> ContractInterfaceVariableView {
        ContractInterfaceVariableView {
            name: self.name@,
            data_type: self.data_type@,
            access: self.access,
        }
    }
}

impl DeepView for ContractInterfaceVariable {
    type V = ContractInterfaceVariableView;

    open spec fn deep_view(&self) -> ContractInterfaceVariableView {
        self@
    }
}

impl View for ContractInterfaceMap {
    type V = ContractInterfaceMapView;

    open spec fn view(&self) -> ContractInterfaceMapView {
        ContractInterfaceMapView {
            name: self.name@,
            key_name: self.key_name@,
            key_type: self.key_type@,
            value_name: self.value_name@,
            value_type: self.value_type@,
        }
    }
}

impl DeepView for ContractInterfaceMap {
    type V = ContractInterfaceMapView;

    open spec fn deep_view(&self) -> ContractInterfaceMapView {
        self@
    }
}

impl View for ContractInterface {
    type V = ContractInterfaceView;

    open spec fn view(&self) -> ContractInterfaceView {
        ContractInterfaceView {
            functions: self.functions.deep_view(),
            variables: self.variables.deep_view(),
            maps: self.maps.deep_view(),
        }
    }
}

/// Checking has left no type open in any of the arguments.
pub open spec fn args_resolved(args: Seq<FunctionArgView>) -> bool {
    forall|i: int| 0 <= i < args.len() ==> (#[trigger] args[i]).signature.is_resolved()
}

/// The arguments in their order, each under its name with the interface type
/// of its type.
pub open spec fn project_args(args: Seq<FunctionArgView>) -> Seq<ContractInterfaceFunctionArgView> {
    Seq::new(
        args.len(),
        |i: int|
            ContractInterfaceFunctionArgView {
                name: args[i].name,
                data_type: project_signature(args[i].signature),
            },
    )
}

/// A function can be shown in an interface: it takes named arguments, and
/// checking has left no type open in them or in what it gives back.
pub open spec fn function_projectable(function: FunctionTypeView) -> bool {
    function matches FunctionTypeView::Fixed(args, output) && args_resolved(args)
        && output.is_resolved()
}

/// The function of that name and type, to be called as `access` says.
pub open spec fn project_function(
    name: Seq<char>,
    function: FunctionTypeView,
    access: ContractInterfaceFunctionAccess,
) -> ContractInterfaceFunctionView
    recommends
        function_projectable(function),
{
    ContractInterfaceFunctionView {
        name,
        access,
        args: project_args(function->Fixed_0),
        outputs: ContractInterfaceFunctionOutputView {
            data_type: project_signature(function->Fixed_1),
        },
    }
}

/// Every function of the collection can be shown in an interface.
pub open spec fn functions_projectable(functions: Seq<(Seq<char>, FunctionTypeView)>) -> bool {
    forall|i: int| 0 <= i < functions.len() ==> function_projectable((#[trigger] functions[i]).1)
}

/// The functions of the collection in its order, each to be called as
/// `access` says.
pub open spec fn project_functions(
    functions: Seq<(Seq<char>, FunctionTypeView)>,
    access: ContractInterfaceFunctionAccess,
) -> Seq<ContractInterfaceFunctionView>
    recommends
        functions_projectable(functions),
{
    Seq::new(functions.len(), |i: int| project_function(functions[i].0, functions[i].1, access))
}

/// The variables of the collection in its order, each with the interface type
/// of its type, to be changed as `access` says.
pub open spec fn project_variables(
    variables: Seq<(Seq<char>, TypeSignatureView)>,
    access: ContractInterfaceVariableAccess,
) -> Seq<ContractInterfaceVariableView>
    recommends
        fields_resolved(variables),
{
    Seq::new(
        variables.len(),
        |i: int|
            ContractInterfaceVariableView {
                name: variables[i].0,
                data_type: project_signature(variables[i].1),
                access,
            },
    )
}

/// The type is a tuple with at least one field.
pub open spec fn has_tuple_head(signature: TypeSignatureView) -> bool {
    signature matches TypeSignatureView::Atom(AtomTypeView::TupleType(fields)) && fields.len() > 0
}

/// The first field of a tuple type: its name and its type.
pub open spec fn tuple_head(signature: TypeSignatureView) -> (Seq<char>, TypeSignatureView)
    recommends
        has_tuple_head(signature),
{
    signature->Atom_0->TupleType_0[0]
}

/// The key or the value of a map can be shown in an interface: its type is a
/// tuple with at least one field, and checking has left no type open in the
/// first field.
pub open spec fn tuple_head_projectable(signature: TypeSignatureView) -> bool {
    has_tuple_head(signature) && tuple_head(signature).1.is_resolved()
}

/// A map can be shown in an interface: its key and its value can.
pub open spec fn map_projectable(key: TypeSignatureView, value: TypeSignatureView) -> bool {
    tuple_head_projectable(key) && tuple_head_projectable(value)
}

/// The map of that name: its key and its value each stand with the name and
/// the interface type of their first field, and their other fields are left
/// out.
pub open spec fn project_map(
    name: Seq<char>,
    key: TypeSignatureView,
    value: TypeSignatureView,
) -> ContractInterfaceMapView
    recommends
        map_projectable(key, value),
{
    ContractInterfaceMapView {
        name,
        key_name: tuple_head(key).0,
        key_type: project_signature(tuple_head(key).1),
        value_name: tuple_head(value).0,
        value_type: project_signature(tuple_head(value).1),
    }
}

/// Every map of the collection can be shown in an interface.
pub open spec fn maps_projectable(
    maps: Seq<(Seq<char>, (TypeSignatureView, TypeSignatureView))>,
) -> bool {
    forall|i: int| 0 <= i < maps.len() ==> map_projectable((#[trigger] maps[i]).1.0, maps[i].1.1)
}

/// The maps of the collection in its order.
pub open spec fn project_maps(
    maps: Seq<(Seq<char>, (TypeSignatureView, TypeSignatureView))>,
) -> Seq<ContractInterfaceMapView>
    recommends
        maps_projectable(maps),
{
    Seq::new(maps.len(), |i: int| project_map(maps[i].0, maps[i].1.0, maps[i].1.1))
}

/// An interface can be made of what checking has found of a contract.
pub open spec fn contract_projectable(analysis: ContractAnalysisView) -> bool {
    &&& functions_projectable(analysis.private_function_types)
    &&& functions_projectable(analysis.public_function_types)
    &&& functions_projectable(analysis.read_only_function_types)
    &&& fields_resolved(analysis.variable_types)
    &&& fields_resolved(analysis.persisted_variable_types)
    &&& maps_projectable(analysis.map_types)
}

/// The interface of a contract: its private functions, then its public ones,
/// then those that only read; its constants, then its variables that may
/// change; and its maps.
pub open spec fn project_contract(analysis: ContractAnalysisView) -> ContractInterfaceView
    recommends
        contract_projectable(analysis),
{
    ContractInterfaceView {
        functions: project_functions(
            analysis.private_function_types,
            ContractInterfaceFunctionAccess::private,
        ) + project_functions(
            analysis.public_function_types,
            ContractInterfaceFunctionAccess::public,
        ) + project_functions(
            analysis.read_only_function_types,
            ContractInterfaceFunctionAccess::read_only,
        ),
        variables: project_variables(
            analysis.variable_types,
            ContractInterfaceVariableAccess::constant,
        ) + project_variables(
            analysis.persisted_variable_types,
            ContractInterfaceVariableAccess::variable,
        ),
        maps: project_maps(analysis.map_types),
    }
}

impl ContractInterfaceFunctionArg {
    /// Whether checking has left no type open in any of the arguments.
    pub fn can_project(fn_args: &Vec<FunctionArg>) -> (b: bool)
        ensures
            b == args_resolved(fn_args.deep_view()),
    {
        let mut i: usize = 0;
        while i < fn_args.len()
            invariant
                i <= fn_args.len(),
                forall|j: int|
                    0 <= j < i ==> (#[trigger] fn_args.deep_view()[j]).signature.is_resolved(),
            decreases fn_args.len() - i,
        {
            if !fn_args[i].signature.is_resolved() {
                assert(!fn_args.deep_view()[i as int].signature.is_resolved());
                return false;
            }
            i += 1;
        }
        true
    }

    /// The arguments of a function as an interface shows them, in their
    /// order.
    pub fn from_function_args(fn_args: &Vec<FunctionArg>) -> (args: Vec<
        ContractInterfaceFunctionArg,
    >)
        requires
            args_resolved(fn_args.deep_view()),
        ensures
            args.deep_view() == project_args(fn_args.deep_view()),
    {
        let mut args: Vec<ContractInterfaceFunctionArg> = Vec::new();
        let mut i: usize = 0;
        while i < fn_args.len()
            invariant
                i <= fn_args.len(),
                args_resolved(fn_args.deep_view()),
                args@.len() == i,
                forall|j: int|
                    0 <= j < i ==> (#[trigger] args@[j])@ == project_args(fn_args.deep_view())[j],
            decreases fn_args.len() - i,
        {
            let fn_arg = &fn_args[i];
            assert(fn_args.deep_view()[i as int].signature.is_resolved());
            args.push(
                ContractInterfaceFunctionArg {
                    name: fn_arg.name.clone(),
                    data_type: ContractInterfaceAtomType::from_type_signature(&fn_arg.signature),
                },
            );
            i += 1;
        }
        assert(args.deep_view() =~= project_args(fn_args.deep_view()));
        args
    }
}

impl ContractInterfaceFunction {
    /// Whether every function of `map` can be shown in an interface.
    pub fn can_project(map: &NameMap<FunctionType>) -> (b: bool)
        ensures
            b == functions_projectable(map.deep_view()),
    {
        let n = map.len();
        let mut i: usize = 0;
        while i < n
            invariant
                n == map@.len(),
                i <= n,
                forall|j: int|
                    0 <= j < i ==> function_projectable((#[trigger] map.deep_view()[j]).1),
            decreases n - i,
        {
            let entry = map.entry(i);
            let fine = match entry.1 {
                FunctionType::Fixed(fn_args, fn_type) => ContractInterfaceFunctionArg::can_project(
                    fn_args,
                ) && fn_type.is_resolved(),
                _ => false,
            };
            if !fine {
                assert(!function_projectable(map.deep_view()[i as int].1));
                return false;
            }
            i += 1;
        }
        true
    }

    /// The functions of `map` as an interface shows them, in the order of
    /// their names, each to be called as `access` says.
    pub fn from_map(map: &NameMap<FunctionType>, access: ContractInterfaceFunctionAccess) -> (r:
        Vec<ContractInterfaceFunction>)
        requires
            functions_projectable(map.deep_view()),
        ensures
            r.deep_view() == project_functions(map.deep_view(), access),
            forall|i: int, j: int|
                0 <= i < j < r@.len() ==> name_precedes(
                    (#[trigger] r@[i]).name@,
                    (#[trigger] r@[j]).name@,
                ),
    {
        let n = map.len();
        let mut r: Vec<ContractInterfaceFunction> = Vec::new();
        let mut i: usize = 0;
        while i < n
            invariant
                n == map@.len(),
                i <= n,
                functions_projectable(map.deep_view()),
                r@.len() == i,
                forall|j: int|
                    0 <= j < i ==> (#[trigger] r@[j])@ == project_functions(
                        map.deep_view(),
                        access,
                    )[j],
            decreases n - i,
        {
            let entry = map.entry(i);
            assert(function_projectable(map.deep_view()[i as int].1));
            match entry.1 {
                FunctionType::Fixed(fn_args, fn_type) => {
                    r.push(
                        ContractInterfaceFunction {
                            name: entry.0.clone(),
                            access,
                            outputs: ContractInterfaceFunctionOutput {
                                data_type: ContractInterfaceAtomType::from_type_signature(fn_type),
                            },
                            args: ContractInterfaceFunctionArg::from_function_args(fn_args),
                        },
                    );
                },
                _ => {
                    assert(false);
                },
            }
            i += 1;
        }
        assert(r.deep_view() =~= project_functions(map.deep_view(), access));
        assert forall|i: int, j: int| 0 <= i < j < r@.len() implies name_precedes(
            (#[trigger] r@[i]).name@,
            (#[trigger] r@[j]).name@,
        ) by {
            assert(r@[i]@ == project_functions(map.deep_view(), access)[i]);
            assert(r@[j]@ == project_functions(map.deep_view(), access)[j]);
            assert(name_precedes(map@[i].0@, map@[j].0@));
        }
        r
    }
}

impl ContractInterfaceVariable {
    /// Whether checking has left no type open in any variable of `map`.
    pub fn can_project(map: &NameMap<TypeSignature>) -> (b: bool)
        ensures
            b == fields_resolved(map.deep_view()),
    {
        let n = map.len();
        let mut i: usize = 0;
        while i < n
            invariant
                n == map@.len(),
                i <= n,
                forall|j: int| 0 <= j < i ==> (#[trigger] map.deep_view()[j]).1.is_resolved(),
            decreases n - i,
        {
            let entry = map.entry(i);
            if !entry.1.is_resolved() {
                assert(!map.deep_view()[i as int].1.is_resolved());
                return false;
            }
            i += 1;
        }
        true
    }

    /// The variables of `map` as an interface shows them, in the order of
    /// their names, each to be changed as `access` says.
    pub fn from_map(map: &NameMap<TypeSignature>, access: ContractInterfaceVariableAccess) -> (r:
        Vec<ContractInterfaceVariable>)
        requires
            fields_resolved(map.deep_view()),
        ensures
            r.deep_view() == project_variables(map.deep_view(), access),
            forall|i: int, j: int|
                0 <= i < j < r@.len() ==> name_precedes(
                    (#[trigger] r@[i]).name@,
                    (#[trigger] r@[j]).name@,
                ),
    {
        let n = map.len();
        let mut r: Vec<ContractInterfaceVariable> = Vec::new();
        let mut i: usize = 0;
        while i < n
            invariant
                n == map@.len(),
                i <= n,
                fields_resolved(map.deep_view()),
                r@.len() == i,
                forall|j: int|
                    0 <= j < i ==> (#[trigger] r@[j])@ == project_variables(
                        map.deep_view(),
                        access,
                    )[j],
            decreases n - i,
        {
            let entry = map.entry(i);
            assert(map.deep_view()[i as int].1.is_resolved());
            r.push(
                ContractInterfaceVariable {
                    name: entry.0.clone(),
                    access,
                    data_type: ContractInterfaceAtomType::from_type_signature(entry.1),
                },
            );
            i += 1;
        }
        assert(r.deep_view() =~= project_variables(map.deep_view(), access));
        assert forall|i: int, j: int| 0 <= i < j < r@.len() implies name_precedes(
            (#[trigger] r@[i]).name@,
            (#[trigger] r@[j]).name@,
        ) by {
            assert(r@[i]@ == project_variables(map.deep_view(), access)[i]);
            assert(r@[j]@ == project_variables(map.deep_view(), access)[j]);
            assert(name_precedes(map@[i].0@, map@[j].0@));
        }
        r
    }
}

/// The first field of a tuple type, if the type is a tuple and has a field.
fn first_field(signature: &TypeSignature) -> (r: Option<(&String, &TypeSignature)>)
    ensures
        r is Some <==> has_tuple_head(signature@),
        r matches Some(field) ==> (field.0@, field.1@) == tuple_head(signature@),
{
    match signature {
        TypeSignature::Atom(AtomTypeIdentifier::TupleType(tuple_sig)) => {
            assert(tuple_sig@.len() == tuple_sig.type_map@.len());
            let r = tuple_sig.type_map.first();
            assert(r matches Some(field) ==> (field.0@, field.1@) == tuple_sig@[0]);
            r
        },
        _ => None,
    }
}

/// Whether the key or the value of a map can be shown in an interface.
fn head_projectable(signature: &TypeSignature) -> (b: bool)
    ensures
        b == tuple_head_projectable(signature@),
{
    match first_field(signature) {
        Some(field) => field.1.is_resolved(),
        None => false,
    }
}

impl ContractInterfaceMap {
    /// Whether every map of `map` can be shown in an interface.
    pub fn can_project(map: &NameMap<(TypeSignature, TypeSignature)>) -> (b: bool)
        ensures
            b == maps_projectable(map.deep_view()),
    {
        let n = map.len();
        let mut i: usize = 0;
        while i < n
            invariant
                n == map@.len(),
                i <= n,
                forall|j: int|
                    0 <= j < i ==> map_projectable(
                        (#[trigger] map.deep_view()[j]).1.0,
                        map.deep_view()[j].1.1,
                    ),
            decreases n - i,
        {
            let entry = map.entry(i);
            if !(head_projectable(&entry.1.0) && head_projectable(&entry.1.1)) {
                assert(!map_projectable(map.deep_view()[i as int].1.0, map.deep_view()[i as int].1.1));
                return false;
            }
            i += 1;
        }
        true
    }

    /// The maps of `map` as an interface shows them, in the order of their
    /// names. Of the key and of the value of a map only the first field is
    /// shown.
    pub fn from_map(map: &NameMap<(TypeSignature, TypeSignature)>) -> (r: Vec<ContractInterfaceMap>)
        requires
            maps_projectable(map.deep_view()),
        ensures
            r.deep_view() == project_maps(map.deep_view()),
            forall|i: int, j: int|
                0 <= i < j < r@.len() ==> name_precedes(
                    (#[trigger] r@[i]).name@,
                    (#[trigger] r@[j]).name@,
                ),
    {
        let n = map.len();
        let mut r: Vec<ContractInterfaceMap> = Vec::new();
        let mut i: usize = 0;
        while i < n
            invariant
                n == map@.len(),
                i <= n,
                maps_projectable(map.deep_view()),
                r@.len() == i,
                forall|j: int| 0 <= j < i ==> (#[trigger] r@[j])@ == project_maps(map.deep_view())[j],
            decreases n - i,
        {
            let entry = map.entry(i);
            assert(map_projectable(map.deep_view()[i as int].1.0, map.deep_view()[i as int].1.1));
            let key = first_field(&entry.1.0);
            let val = first_field(&entry.1.1);
            match (key, val) {
                (Some((key_name, key_type)), Some((val_name, val_type))) => {
                    r.push(
                        ContractInterfaceMap {
                            name: entry.0.clone(),
                            key_name: key_name.clone(),
                            key_type: ContractInterfaceAtomType::from_type_signature(key_type),
                            value_name: val_name.clone(),
                            value_type: ContractInterfaceAtomType::from_type_signature(val_type),
                        },
                    );
                },
                _ => {
                    assert(false);
                },
            }
            i += 1;
        }
        assert(r.deep_view() =~= project_maps(map.deep_view()));
        assert forall|i: int, j: int| 0 <= i < j < r@.len() implies name_precedes(
            (#[trigger] r@[i]).name@,
            (#[trigger] r@[j]).name@,
        ) by {
            assert(r@[i]@ == project_maps(map.deep_view())[i]);
            assert(r@[j]@ == project_maps(map.deep_view())[j]);
            assert(name_precedes(map@[i].0@, map@[j].0@));
        }
        r
    }
}

impl ContractAnalysis {
    /// Whether an interface can be made of this analysis: every function
    /// takes named arguments, every map has a tuple with a field as its key
    /// and as its value, and checking has left no type open in what the
    /// interface shows.
    pub fn can_project(&self) -> (b: bool)
        ensures
            b == contract_projectable(self@),
    {
        ContractInterfaceFunction::can_project(&self.private_function_types)
            && ContractInterfaceFunction::can_project(&self.public_function_types)
            && ContractInterfaceFunction::can_project(&self.read_only_function_types)
            && ContractInterfaceVariable::can_project(&self.variable_types)
            && ContractInterfaceVariable::can_project(&self.persisted_variable_types)
            && ContractInterfaceMap::can_project(&self.map_types)
    }
}

impl ContractInterface {
    /// The interface of the contract of which `analysis` holds the types.
    pub fn from_analysis(analysis: &ContractAnalysis) -> (r: ContractInterface)
        requires
            contract_projectable(analysis@),
        ensures
            r@ == project_contract(analysis@),
    {
        let mut functions = ContractInterfaceFunction::from_map(
            &analysis.private_function_types,
            ContractInterfaceFunctionAccess::private,
        );
        let mut public = ContractInterfaceFunction::from_map(
            &analysis.public_function_types,
            ContractInterfaceFunctionAccess::public,
        );
        let mut read_only = ContractInterfaceFunction::from_map(
            &analysis.read_only_function_types,
            ContractInterfaceFunctionAccess::read_only,
        );
        let mut variables = ContractInterfaceVariable::from_map(
            &analysis.variable_types,
            ContractInterfaceVariableAccess::constant,
        );
        let mut persisted = ContractInterfaceVariable::from_map(
            &analysis.persisted_variable_types,
            ContractInterfaceVariableAccess::variable,
        );
        let maps = ContractInterfaceMap::from_map(&analysis.map_types);
        let ghost private_view = functions.deep_view();
        let ghost public_view = public.deep_view();
        let ghost read_only_view = read_only.deep_view();
        let ghost constants_view = variables.deep_view();
        let ghost persisted_view = persisted.deep_view();
        functions.append(&mut public);
        functions.append(&mut read_only);
        variables.append(&mut persisted);
        assert(functions.deep_view() =~= private_view + public_view + read_only_view);
        assert(variables.deep_view() =~= constants_view + persisted_view);
        ContractInterface { functions, variables, maps }
    }
}

} // verus!
