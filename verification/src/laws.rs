//! What holds of every projection, stated over the models of the types.

use crate::contract::project_args;
use crate::contract::project_contract;
use crate::contract::project_functions;
use crate::contract::project_map;
use crate::contract::project_variables;
use crate::contract::tuple_head;
use crate::contract::ContractInterface;
use crate::contract::ContractInterfaceVariableAccess;
use crate::interface::project_atom;
use crate::interface::project_signature;
use crate::interface::project_tuple;
use crate::interface::ContractInterfaceAtomTypeView;
use crate::interface::ContractInterfaceFunctionAccess;
use crate::types::fields_resolved;
use crate::types::AtomTypeView;
use crate::types::ContractAnalysis;
use crate::types::ContractAnalysisView;
use crate::types::FunctionArgView;
use crate::types::FunctionTypeView;
use crate::types::ListTypeData;
use crate::types::TypeSignatureView;
use vstd::prelude::*;

verus! {

/// `part` occurs in `whole`: it is `whole` itself, or it occurs in one of the
/// types that `whole` is made of.
pub open spec fn atom_holds(whole: AtomTypeView, part: AtomTypeView) -> bool
    decreases whole,
{
    whole == part || match whole {
        AtomTypeView::TupleType(fields) => exists|i: int|
            0 <= i < fields.len() && signature_holds((#[trigger] fields[i]).1, part),
        AtomTypeView::OptionalType(inner) => signature_holds(*inner, part),
        AtomTypeView::ResponseType(ok, error) => signature_holds(*ok, part) || signature_holds(
            *error,
            part,
        ),
        _ => false,
    }
}

/// `part` occurs in `whole`: in its atom, or in the atom of which it is a
/// list.
pub open spec fn signature_holds(whole: TypeSignatureView, part: AtomTypeView) -> bool
    decreases whole,
{
    match whole {
        TypeSignatureView::Atom(atom) => atom_holds(atom, part),
        TypeSignatureView::List(atom, _) => atom_holds(atom, part),
    }
}

/// An atom can be projected exactly when the open type occurs nowhere in it.
pub proof fn lemma_atom_resolved_iff_any_nowhere(atom: AtomTypeView)
    ensures
        atom.is_resolved() <==> !atom_holds(atom, AtomTypeView::AnyType),
    decreases atom,
{
    match atom {
        AtomTypeView::TupleType(fields) => {
            assert forall|i: int| 0 <= i < fields.len() implies ((#[trigger] fields[i]).1.is_resolved()
                <==> !signature_holds(fields[i].1, AtomTypeView::AnyType)) by {
                lemma_signature_resolved_iff_any_nowhere(fields[i].1);
            }
        },
        AtomTypeView::OptionalType(inner) => {
            lemma_signature_resolved_iff_any_nowhere(*inner);
        },
        AtomTypeView::ResponseType(ok, error) => {
            lemma_signature_resolved_iff_any_nowhere(*ok);
            lemma_signature_resolved_iff_any_nowhere(*error);
        },
        _ => {},
    }
}

/// A type can be projected exactly when the open type occurs nowhere in it.
pub proof fn lemma_signature_resolved_iff_any_nowhere(signature: TypeSignatureView)
    ensures
        signature.is_resolved() <==> !signature_holds(signature, AtomTypeView::AnyType),
    decreases signature,
{
    match signature {
        TypeSignatureView::Atom(atom) => lemma_atom_resolved_iff_any_nowhere(atom),
        TypeSignatureView::List(atom, _) => lemma_atom_resolved_iff_any_nowhere(atom),
    }
}

/// Every atom that can be projected has an interface type of the variant
/// that answers to its own.
pub proof fn lemma_atom_variant(atom: AtomTypeView)
    requires
        atom.is_resolved(),
    ensures
        atom is NoType ==> project_atom(atom) is none,
        atom is IntType ==> project_atom(atom) is int128,
        atom is BoolType ==> project_atom(atom) is bool,
        atom is PrincipalType ==> project_atom(atom) is principal,
        atom matches AtomTypeView::BufferType(length) ==> project_atom(atom)
            == (ContractInterfaceAtomTypeView::buffer { length }),
        atom is TupleType ==> project_atom(atom) is tuple,
        atom is OptionalType ==> project_atom(atom) is optional,
        atom is ResponseType ==> project_atom(atom) is response,
{
}

/// A list has the interface type of a list: that of its atom, with the
/// bounds of the list as they are.
pub proof fn lemma_list_bounds(atom: AtomTypeView, bounds: ListTypeData)
    ensures
        project_signature(TypeSignatureView::List(atom, bounds))
            == (ContractInterfaceAtomTypeView::list {
            data_type: Box::new(project_atom(atom)),
            max_len: bounds.max_len,
            dimension: bounds.dimension,
        }),
{
}

/// The fields of a tuple keep their number, their order and their names.
pub proof fn lemma_tuple_order(fields: Seq<(Seq<char>, TypeSignatureView)>)
    ensures
        project_tuple(fields) is tuple,
        project_tuple(fields)->data_types.len() == fields.len(),
        forall|i: int|
            0 <= i < fields.len() ==> {
                &&& (#[trigger] project_tuple(fields)->data_types[i]).name == fields[i].0
                &&& project_tuple(fields)->data_types[i].data_type == project_signature(
                    fields[i].1,
                )
            },
{
}

/// The arguments of a function keep their number, their order and their
/// names.
pub proof fn lemma_args_order(args: Seq<FunctionArgView>)
    ensures
        project_args(args).len() == args.len(),
        forall|i: int|
            0 <= i < args.len() ==> {
                &&& (#[trigger] project_args(args)[i]).name == args[i].name
                &&& project_args(args)[i].data_type == project_signature(args[i].signature)
            },
{
}

/// Of the key and of the value of a map nothing but the first field reaches
/// the interface: two maps of one name whose keys begin with the same field,
/// and whose values do, are shown alike.
pub proof fn lemma_map_shows_first_fields(
    name: Seq<char>,
    key: TypeSignatureView,
    value: TypeSignatureView,
    other_key: TypeSignatureView,
    other_value: TypeSignatureView,
)
    requires
        tuple_head(key) == tuple_head(other_key),
        tuple_head(value) == tuple_head(other_value),
    ensures
        project_map(name, key, value) == project_map(name, other_key, other_value),
{
}

/// Every function of a collection is shown once, under its name, with the
/// access that the collection is projected with.
pub proof fn lemma_functions_access(
    functions: Seq<(Seq<char>, FunctionTypeView)>,
    access: ContractInterfaceFunctionAccess,
)
    ensures
        project_functions(functions, access).len() == functions.len(),
        forall|i: int|
            0 <= i < functions.len() ==> {
                &&& (#[trigger] project_functions(functions, access)[i]).name == functions[i].0
                &&& project_functions(functions, access)[i].access == access
            },
{
}

/// Every variable of a collection is shown once, under its name, with the
/// access that the collection is projected with.
pub proof fn lemma_variables_access(
    variables: Seq<(Seq<char>, TypeSignatureView)>,
    access: ContractInterfaceVariableAccess,
)
    ensures
        project_variables(variables, access).len() == variables.len(),
        forall|i: int|
            0 <= i < variables.len() ==> {
                &&& (#[trigger] project_variables(variables, access)[i]).name == variables[i].0
                &&& project_variables(variables, access)[i].access == access
            },
{
}

/// The functions of an interface are those of the three collections, each
/// with the access of its collection: the private ones first, then the public
/// ones, then those that only read.
pub proof fn lemma_contract_functions(analysis: ContractAnalysisView)
    ensures
        ({
            let functions = project_contract(analysis).functions;
            let private = analysis.private_function_types.len();
            let public = analysis.public_function_types.len();
            let read_only = analysis.read_only_function_types.len();
            &&& functions.len() == private + public + read_only
            &&& forall|i: int|
                0 <= i < private ==> (#[trigger] functions[i]).access
                    == ContractInterfaceFunctionAccess::private && functions[i].name
                    == analysis.private_function_types[i].0
            &&& forall|i: int|
                private <= i < private + public ==> (#[trigger] functions[i]).access
                    == ContractInterfaceFunctionAccess::public && functions[i].name
                    == analysis.public_function_types[i - private].0
            &&& forall|i: int|
                private + public <= i < functions.len() ==> (#[trigger] functions[i]).access
                    == ContractInterfaceFunctionAccess::read_only && functions[i].name
                    == analysis.read_only_function_types[i - private - public].0
        }),
{
}

/// Two analyses that stand for the same give interfaces that stand for the
/// same.
pub proof fn lemma_generation_deterministic(
    first: ContractAnalysis,
    second: ContractAnalysis,
    first_interface: ContractInterface,
    second_interface: ContractInterface,
)
    requires
        first@ == second@,
        first_interface@ == project_contract(first@),
        second_interface@ == project_contract(second@),
    ensures
        first_interface@ == second_interface@,
{
}

} // verus!
