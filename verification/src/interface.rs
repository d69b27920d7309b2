//! The interface of a contract: the functions, variables and maps that it
//! offers, each with its types, as they are projected from the types of the
//! checked contract.

use crate::types::AtomTypeIdentifier;
use crate::types::AtomTypeView;
use crate::types::TupleTypeSignature;
use crate::types::TypeSignature;
use crate::types::TypeSignatureView;
use crate::types::fields_resolved;
use vstd::prelude::*;

verus! {

/// Who may call a function, and whether it may change the contract's state.
#[allow(non_camel_case_types)]
#[derive(Debug, Clone, Copy, PartialEq, Eq)]
pub enum ContractInterfaceFunctionAccess {
    private,
    public,
    read_only,
}

/// A field of a tuple type.
#[derive(Debug, PartialEq, Eq)]
pub struct ContractInterfaceTupleType {
    pub name: String,
    pub data_type: ContractInterfaceAtomType,
}

/// A type as an interface shows it.
#[allow(non_camel_case_types)]
#[derive(Debug, PartialEq, Eq)]
pub enum ContractInterfaceAtomType {
    none,
    int128,
    bool,
    buffer { length: u32 },
    principal,
    tuple { data_types: Vec<ContractInterfaceTupleType> },
    optional { data_type: Box<ContractInterfaceAtomType> },
    response { ok: Box<ContractInterfaceAtomType>, error: Box<ContractInterfaceAtomType> },
    list { data_type: Box<ContractInterfaceAtomType>, max_len: u32, dimension: u8 },
}

/// What a [`ContractInterfaceTupleType`] stands for.
pub ghost struct ContractInterfaceTupleTypeView {
    pub name: Seq<char>,
    pub data_type: ContractInterfaceAtomTypeView,
}

/// What a [`ContractInterfaceAtomType`] stands for.
#[allow(non_camel_case_types)]
pub ghost enum ContractInterfaceAtomTypeView {
    none,
    int128,
    bool,
    buffer { length: u32 },
    principal,
    tuple { data_types: Seq<ContractInterfaceTupleTypeView> },
    optional { data_type: Box<ContractInterfaceAtomTypeView> },
    response { ok: Box<ContractInterfaceAtomTypeView>, error: Box<ContractInterfaceAtomTypeView> },
    list { data_type: Box<ContractInterfaceAtomTypeView>, max_len: u32, dimension: u8 },
}

/// What `data_type` stands for.
pub open spec fn interface_type_view(
    data_type: ContractInterfaceAtomType,
) -> ContractInterfaceAtomTypeView
    decreases data_type,
{
    match data_type {
        ContractInterfaceAtomType::none => ContractInterfaceAtomTypeView::none,
        ContractInterfaceAtomType::int128 => ContractInterfaceAtomTypeView::int128,
        ContractInterfaceAtomType::bool => ContractInterfaceAtomTypeView::bool,
        ContractInterfaceAtomType::buffer { length } => ContractInterfaceAtomTypeView::buffer {
            length,
        },
        ContractInterfaceAtomType::principal => ContractInterfaceAtomTypeView::principal,
        ContractInterfaceAtomType::tuple { data_types } => ContractInterfaceAtomTypeView::tuple {
            data_types: Seq::new(
                data_types@.len(),
                |i: int|
                    if 0 <= i < data_types@.len() {
                        ContractInterfaceTupleTypeView {
                            name: data_types@[i].name@,
                            data_type: interface_type_view(data_types@[i].data_type),
                        }
                    } else {
                        arbitrary()
                    },
            ),
        },
        ContractInterfaceAtomType::optional { data_type } => ContractInterfaceAtomTypeView::optional {
            data_type: Box::new(interface_type_view(*data_type)),
        },
        ContractInterfaceAtomType::response { ok, error } => ContractInterfaceAtomTypeView::response {
            ok: Box::new(interface_type_view(*ok)),
            error: Box::new(interface_type_view(*error)),
        },
        ContractInterfaceAtomType::list {
            data_type,
            max_len,
            dimension,
        } => ContractInterfaceAtomTypeView::list {
            data_type: Box::new(interface_type_view(*data_type)),
            max_len,
            dimension,
        },
    }
}

impl View for ContractInterfaceAtomType {
    type V = ContractInterfaceAtomTypeView;

    open spec fn view(&self) -> ContractInterfaceAtomTypeView {
        interface_type_view(*self)
    }
}

impl DeepView for ContractInterfaceAtomType {
    type V = ContractInterfaceAtomTypeView;

    open spec fn deep_view(&self) -> ContractInterfaceAtomTypeView {
        interface_type_view(*self)
    }
}

impl View for ContractInterfaceTupleType {
    type V = ContractInterfaceTupleTypeView;

    open spec fn view(&self) -> ContractInterfaceTupleTypeView {
        ContractInterfaceTupleTypeView { name: self.name@, data_type: self.data_type@ }
    }
}

impl DeepView for ContractInterfaceTupleType {
    type V = ContractInterfaceTupleTypeView;

    open spec fn deep_view(&self) -> ContractInterfaceTupleTypeView {
        self@
    }
}

/// The interface type of an atom in which checking has left no type open.
pub open spec fn project_atom(atom: AtomTypeView) -> ContractInterfaceAtomTypeView
    recommends
        atom.is_resolved(),
    decreases atom,
{
    match atom {
        AtomTypeView::AnyType => arbitrary(),
        AtomTypeView::NoType => ContractInterfaceAtomTypeView::none,
        AtomTypeView::IntType => ContractInterfaceAtomTypeView::int128,
        AtomTypeView::BoolType => ContractInterfaceAtomTypeView::bool,
        AtomTypeView::BufferType(length) => ContractInterfaceAtomTypeView::buffer { length },
        AtomTypeView::PrincipalType => ContractInterfaceAtomTypeView::principal,
        AtomTypeView::TupleType(fields) => project_tuple(fields),
        AtomTypeView::OptionalType(inner) => ContractInterfaceAtomTypeView::optional {
            data_type: Box::new(project_signature(*inner)),
        },
        AtomTypeView::ResponseType(ok, error) => ContractInterfaceAtomTypeView::response {
            ok: Box::new(project_signature(*ok)),
            error: Box::new(project_signature(*error)),
        },
    }
}

/// The interface type of a tuple: its fields in their order, each under its
/// name with the interface type of its type.
pub open spec fn project_tuple(
    fields: Seq<(Seq<char>, TypeSignatureView)>,
) -> ContractInterfaceAtomTypeView
    recommends
        fields_resolved(fields),
    decreases fields,
{
    ContractInterfaceAtomTypeView::tuple {
        data_types: Seq::new(
            fields.len(),
            |i: int|
                if 0 <= i < fields.len() {
                    ContractInterfaceTupleTypeView {
                        name: fields[i].0,
                        data_type: project_signature(fields[i].1),
                    }
                } else {
                    arbitrary()
                },
        ),
    }
}

/// The interface type of a type in which checking has left no type open: that
/// of the atom, or a list of it with the bounds of the list.
pub open spec fn project_signature(signature: TypeSignatureView) -> ContractInterfaceAtomTypeView
    recommends
        signature.is_resolved(),
    decreases signature,
{
    match signature {
        TypeSignatureView::Atom(atom) => project_atom(atom),
        TypeSignatureView::List(atom, bounds) => ContractInterfaceAtomTypeView::list {
            data_type: Box::new(project_atom(atom)),
            max_len: bounds.max_len,
            dimension: bounds.dimension,
        },
    }
}

impl ContractInterfaceAtomType {
    /// The interface type of a tuple type.
    pub fn from_tuple_type(tuple_type: &TupleTypeSignature) -> (r: ContractInterfaceAtomType)
        requires
            fields_resolved(tuple_type@),
        ensures
            r@ == project_tuple(tuple_type@),
        decreases tuple_type,
    {
        let n = tuple_type.type_map.len();
        let mut data_types: Vec<ContractInterfaceTupleType> = Vec::new();
        let mut i: usize = 0;
        while i < n
            invariant
                n == tuple_type@.len(),
                n == tuple_type.type_map@.len(),
                i <= n,
                fields_resolved(tuple_type@),
                data_types@.len() == i,
                forall|j: int|
                    0 <= j < i ==> (#[trigger] data_types@[j])@ == (ContractInterfaceTupleTypeView {
                        name: tuple_type@[j].0,
                        data_type: project_signature(tuple_type@[j].1),
                    }),
            decreases n - i,
        {
            let field = tuple_type.type_map.entry(i);
            assert(tuple_type@[i as int].1.is_resolved());
            let data_type = Self::from_type_signature(field.1);
            data_types.push(ContractInterfaceTupleType { name: field.0.clone(), data_type });
            i += 1;
        }
        let r = ContractInterfaceAtomType::tuple { data_types };
        assert(r@->data_types =~= project_tuple(tuple_type@)->data_types);
        r
    }

    /// The interface type of an atom.
    pub fn from_atom_type(atom_type: &AtomTypeIdentifier) -> (r: ContractInterfaceAtomType)
        requires
            atom_type@.is_resolved(),
        ensures
            r@ == project_atom(atom_type@),
        decreases atom_type,
    {
        match atom_type {
            AtomTypeIdentifier::AnyType => vstd::pervasive::unreached(),
            AtomTypeIdentifier::NoType => ContractInterfaceAtomType::none,
            AtomTypeIdentifier::IntType => ContractInterfaceAtomType::int128,
            AtomTypeIdentifier::BoolType => ContractInterfaceAtomType::bool,
            AtomTypeIdentifier::BufferType(len) => ContractInterfaceAtomType::buffer { length: *len },
            AtomTypeIdentifier::PrincipalType => ContractInterfaceAtomType::principal,
            AtomTypeIdentifier::TupleType(sig) => Self::from_tuple_type(sig),
            AtomTypeIdentifier::OptionalType(sig) => ContractInterfaceAtomType::optional {
                data_type: Box::new(Self::from_type_signature(sig)),
            },
            AtomTypeIdentifier::ResponseType(boxed_sig) => {
                ContractInterfaceAtomType::response {
                    ok: Box::new(Self::from_type_signature(&boxed_sig.0)),
                    error: Box::new(Self::from_type_signature(&boxed_sig.1)),
                }
            },
        }
    }

    /// The interface type of a type.
    pub fn from_type_signature(sig: &TypeSignature) -> (r: ContractInterfaceAtomType)
        requires
            sig@.is_resolved(),
        ensures
            r@ == project_signature(sig@),
        decreases sig,
    {
        match sig {
            TypeSignature::Atom(atom_type) => Self::from_atom_type(atom_type),
            TypeSignature::List(atom_type, list_data) => {
                ContractInterfaceAtomType::list {
                    data_type: Box::new(Self::from_atom_type(atom_type)),
                    max_len: list_data.max_len,
                    dimension: list_data.dimension,
                }
            },
        }
    }
}

} // verus!
