//! The type algebra of checked contracts: what a contract's functions take
//! and return, and what its variables and maps hold.

use crate::name_map::NameMap;
use vstd::prelude::*;

verus! {

/// The bounds of a list type: how many items a list may hold, and how deeply
/// lists are nested in it.
#[derive(Debug, Clone, Copy, PartialEq, Eq)]
pub struct ListTypeData {
    pub max_len: u32,
    pub dimension: u8,
}

/// A type that is no list.
#[derive(Debug, PartialEq, Eq)]
pub enum AtomTypeIdentifier {
    /// A type that checking has left open.
    AnyType,
    NoType,
    IntType,
    BoolType,
    /// A buffer of at most so many bytes.
    BufferType(u32),
    PrincipalType,
    TupleType(TupleTypeSignature),
    OptionalType(Box<TypeSignature>),
    /// The type of the value on success, and that of the value on failure.
    ResponseType(Box<(TypeSignature, TypeSignature)>),
}

/// The type of a value: an atom, or a bounded list of atoms of one type.
#[derive(Debug, PartialEq, Eq)]
pub enum TypeSignature {
    Atom(AtomTypeIdentifier),
    List(AtomTypeIdentifier, ListTypeData),
}

/// The type of a tuple: its fields by name, each with its type.
#[derive(Debug, PartialEq, Eq)]
pub struct TupleTypeSignature {
    pub type_map: NameMap<TypeSignature>,
}

/// A named argument of a function.
#[derive(Debug, PartialEq, Eq)]
pub struct FunctionArg {
    pub signature: TypeSignature,
    pub name: String,
}

/// The type of a function.
#[derive(Debug, PartialEq, Eq)]
pub enum FunctionType {
    /// Named arguments, taken by position, and the type returned.
    Fixed(Vec<FunctionArg>, TypeSignature),
    /// Any number of arguments of one type, and the type returned.
    Variadic(TypeSignature, TypeSignature),
    /// One argument of any of several types, and the type returned.
    UnionArgs(Vec<TypeSignature>, TypeSignature),
}

/// What an [`AtomTypeIdentifier`] stands for.
pub ghost enum AtomTypeView {
    AnyType,
    NoType,
    IntType,
    BoolType,
    BufferType(u32),
    PrincipalType,
    /// The fields in the order of their names, each with its type.
    TupleType(Seq<(Seq<char>, TypeSignatureView)>),
    OptionalType(Box<TypeSignatureView>),
    ResponseType(Box<TypeSignatureView>, Box<TypeSignatureView>),
}

/// What a [`TypeSignature`] stands for.
pub ghost enum TypeSignatureView {
    Atom(AtomTypeView),
    List(AtomTypeView, ListTypeData),
}

/// What a [`FunctionArg`] stands for.
pub ghost struct FunctionArgView {
    pub name: Seq<char>,
    pub signature: TypeSignatureView,
}

/// What a [`FunctionType`] stands for.
pub ghost enum FunctionTypeView {
    Fixed(Seq<FunctionArgView>, TypeSignatureView),
    Variadic(TypeSignatureView, TypeSignatureView),
    UnionArgs(Seq<TypeSignatureView>, TypeSignatureView),
}

impl AtomTypeView {
    /// Checking has left no type open anywhere in this type.
    pub open spec fn is_resolved(self) -> bool
        decreases self,
    {
        match self {
            AtomTypeView::AnyType => false,
            AtomTypeView::TupleType(fields) => fields_resolved(fields),
            AtomTypeView::OptionalType(inner) => inner.is_resolved(),
            AtomTypeView::ResponseType(ok, error) => ok.is_resolved() && error.is_resolved(),
            _ => true,
        }
    }
}

impl TypeSignatureView {
    /// Checking has left no type open anywhere in this type.
    pub open spec fn is_resolved(self) -> bool
        decreases self,
    {
        match self {
            TypeSignatureView::Atom(atom) => atom.is_resolved(),
            TypeSignatureView::List(atom, _) => atom.is_resolved(),
        }
    }
}

/// Checking has left no type open in any of the fields.
pub open spec fn fields_resolved(fields: Seq<(Seq<char>, TypeSignatureView)>) -> bool
    decreases fields,
{
    forall|i: int| 0 <= i < fields.len() ==> (#[trigger] fields[i]).1.is_resolved()
}

/// What `atom` stands for.
pub open spec fn atom_view(atom: AtomTypeIdentifier) -> AtomTypeView
    decreases atom,
{
    match atom {
        AtomTypeIdentifier::AnyType => AtomTypeView::AnyType,
        AtomTypeIdentifier::NoType => AtomTypeView::NoType,
        AtomTypeIdentifier::IntType => AtomTypeView::IntType,
        AtomTypeIdentifier::BoolType => AtomTypeView::BoolType,
        AtomTypeIdentifier::BufferType(length) => AtomTypeView::BufferType(length),
        AtomTypeIdentifier::PrincipalType => AtomTypeView::PrincipalType,
        AtomTypeIdentifier::TupleType(tuple) => AtomTypeView::TupleType(tuple_view(tuple)),
        AtomTypeIdentifier::OptionalType(inner) => AtomTypeView::OptionalType(
            Box::new(signature_view(*inner)),
        ),
        AtomTypeIdentifier::ResponseType(pair) => AtomTypeView::ResponseType(
            Box::new(signature_view(pair.0)),
            Box::new(signature_view(pair.1)),
        ),
    }
}

/// What `signature` stands for.
pub open spec fn signature_view(signature: TypeSignature) -> TypeSignatureView
    decreases signature,
{
    match signature {
        TypeSignature::Atom(atom) => TypeSignatureView::Atom(atom_view(atom)),
        TypeSignature::List(atom, bounds) => TypeSignatureView::List(atom_view(atom), bounds),
    }
}

/// The fields of `tuple` in the order of their names, each with what its type
/// stands for.
pub open spec fn tuple_view(tuple: TupleTypeSignature) -> Seq<(Seq<char>, TypeSignatureView)>
    decreases tuple,
{
    Seq::new(
        tuple.type_map@.len(),
        |i: int|
            if 0 <= i < tuple.type_map@.len() {
                (tuple.type_map@[i].0@, signature_view(tuple.type_map@[i].1))
            } else {
                arbitrary()
            },
    )
}

impl View for AtomTypeIdentifier {
    type V = AtomTypeView;

    open spec fn view(&self) -> AtomTypeView {
        atom_view(*self)
    }
}

impl DeepView for AtomTypeIdentifier {
    type V = AtomTypeView;

    open spec fn deep_view(&self) -> AtomTypeView {
        atom_view(*self)
    }
}

impl View for TypeSignature {
    type V = TypeSignatureView;

    open spec fn view(&self) -> TypeSignatureView {
        signature_view(*self)
    }
}

impl DeepView for TypeSignature {
    type V = TypeSignatureView;

    open spec fn deep_view(&self) -> TypeSignatureView {
        signature_view(*self)
    }
}

impl View for TupleTypeSignature {
    type V = Seq<(Seq<char>, TypeSignatureView)>;

    open spec fn view(&self) -> Seq<(Seq<char>, TypeSignatureView)> {
        tuple_view(*self)
    }
}

impl DeepView for TupleTypeSignature {
    type V = Seq<(Seq<char>, TypeSignatureView)>;

    open spec fn deep_view(&self) -> Seq<(Seq<char>, TypeSignatureView)> {
        tuple_view(*self)
    }
}

impl View for FunctionArg {
    type V = FunctionArgView;

    open spec fn view(&self) -> FunctionArgView {
        FunctionArgView { name: self.name@, signature: self.signature@ }
    }
}

impl DeepView for FunctionArg {
    type V = FunctionArgView;

    open spec fn deep_view(&self) -> FunctionArgView {
        self@
    }
}

impl View for FunctionType {
    type V = FunctionTypeView;

    open spec fn view(&self) -> FunctionTypeView {
        match self {
            FunctionType::Fixed(args, output) => FunctionTypeView::Fixed(
                args.deep_view(),
                output@,
            ),
            FunctionType::Variadic(each, output) => FunctionTypeView::Variadic(each@, output@),
            FunctionType::UnionArgs(any_of, output) => FunctionTypeView::UnionArgs(
                any_of.deep_view(),
                output@,
            ),
        }
    }
}

impl DeepView for FunctionType {
    type V = FunctionTypeView;

    open spec fn deep_view(&self) -> FunctionTypeView {
        self@
    }
}

impl AtomTypeIdentifier {
    /// Whether checking has left no type open anywhere in this type.
    pub fn is_resolved(&self) -> (b: bool)
        ensures
            b == self@.is_resolved(),
        decreases self,
    {
        match self {
            AtomTypeIdentifier::AnyType => false,
            AtomTypeIdentifier::TupleType(tuple) => tuple.is_resolved(),
            AtomTypeIdentifier::OptionalType(inner) => inner.is_resolved(),
            AtomTypeIdentifier::ResponseType(pair) => pair.0.is_resolved() && pair.1.is_resolved(),
            _ => true,
        }
    }
}

impl TypeSignature {
    /// Whether checking has left no type open anywhere in this type.
    pub fn is_resolved(&self) -> (b: bool)
        ensures
            b == self@.is_resolved(),
        decreases self,
    {
        match self {
            TypeSignature::Atom(atom) => atom.is_resolved(),
            TypeSignature::List(atom, _) => atom.is_resolved(),
        }
    }
}

impl TupleTypeSignature {
    /// Whether checking has left no type open in any of the fields.
    pub fn is_resolved(&self) -> (b: bool)
        ensures
            b == fields_resolved(self@),
        decreases self,
    {
        let n = self.type_map.len();
        let mut i: usize = 0;
        while i < n
            invariant
                n == self@.len(),
                n == self.type_map@.len(),
                i <= n,
                forall|j: int| 0 <= j < i ==> (#[trigger] self@[j]).1.is_resolved(),
            decreases n - i,
        {
            let field = self.type_map.entry(i);
            if !field.1.is_resolved() {
                assert(!self@[i as int].1.is_resolved());
                return false;
            }
            i += 1;
        }
        true
    }
}

impl FunctionType {
    /// Whether this is the type of a function with named arguments.
    pub fn is_fixed(&self) -> (b: bool)
        ensures
            b == (self@ is Fixed),
    {
        match self {
            FunctionType::Fixed(_, _) => true,
            _ => false,
        }
    }
}

/// What checking has found of one contract: the types of its functions by
/// who may call them, of its variables by whether they may change, and of its
/// maps.
#[derive(Debug, PartialEq, Eq)]
pub struct ContractAnalysis {
    pub private_function_types: NameMap<FunctionType>,
    pub public_function_types: NameMap<FunctionType>,
    pub read_only_function_types: NameMap<FunctionType>,
    /// The types of the constants.
    pub variable_types: NameMap<TypeSignature>,
    /// The types of the variables that may change.
    pub persisted_variable_types: NameMap<TypeSignature>,
    /// The type of the key and that of the value of each map.
    pub map_types: NameMap<(TypeSignature, TypeSignature)>,
}

/// What a [`ContractAnalysis`] stands for: each collection in the order of
/// its names.
pub ghost struct ContractAnalysisView {
    pub private_function_types: Seq<(Seq<char>, FunctionTypeView)>,
    pub public_function_types: Seq<(Seq<char>, FunctionTypeView)>,
    pub read_only_function_types: Seq<(Seq<char>, FunctionTypeView)>,
    pub variable_types: Seq<(Seq<char>, TypeSignatureView)>,
    pub persisted_variable_types: Seq<(Seq<char>, TypeSignatureView)>,
    pub map_types: Seq<(Seq<char>, (TypeSignatureView, TypeSignatureView))>,
}

impl View for ContractAnalysis {
    type V = ContractAnalysisView;

    open spec fn view(&self) -> ContractAnalysisView {
        ContractAnalysisView {
            private_function_types: self.private_function_types.deep_view(),
            public_function_types: self.public_function_types.deep_view(),
            read_only_function_types: self.read_only_function_types.deep_view(),
            variable_types: self.variable_types.deep_view(),
            persisted_variable_types: self.persisted_variable_types.deep_view(),
            map_types: self.map_types.deep_view(),
        }
    }
}

} // verus!
