//! The data model of the binding compiler: semantic types, function
//! signatures, interface descriptors and the generation-time configuration.
//!
//! Everything here is plain build-time data: it is constructed once per
//! generation run from a fixed input graph and never mutated afterward.

use vstd::prelude::*;

verus! {

/// A semantic type as it appears in an interface description: scalar types,
/// the compound shapes the wire type system offers (a pair is the tuple shape
/// map re-encoding concerns), a native associative container (the target of
/// map re-encoding), and references to declared types by simple name.
#[derive(Debug, PartialEq, Eq)]
pub enum WitType {
    Bool,
    U8,
    U16,
    U32,
    U64,
    S8,
    S16,
    S32,
    S64,
    CharTy,
    StringTy,
    ListOf(Box<WitType>),
    OptionOf(Box<WitType>),
    PairOf(Box<WitType>, Box<WitType>),
    ResultOf(Option<Box<WitType>>, Option<Box<WitType>>),
    MapOf(Box<WitType>, Box<WitType>),
    Named(String),
}

impl Clone for WitType {
    /// A deep copy that is equal, member for member, to the source.
    fn clone(&self) -> (res: Self)
        ensures
            res == *self,
        decreases *self,
    {
        match self {
            WitType::Bool => WitType::Bool,
            WitType::U8 => WitType::U8,
            WitType::U16 => WitType::U16,
            WitType::U32 => WitType::U32,
            WitType::U64 => WitType::U64,
            WitType::S8 => WitType::S8,
            WitType::S16 => WitType::S16,
            WitType::S32 => WitType::S32,
            WitType::S64 => WitType::S64,
            WitType::CharTy => WitType::CharTy,
            WitType::StringTy => WitType::StringTy,
            WitType::ListOf(t) => WitType::ListOf(Box::new((&**t).clone())),
            WitType::OptionOf(t) => WitType::OptionOf(Box::new((&**t).clone())),
            WitType::PairOf(a, b) => WitType::PairOf(
                Box::new((&**a).clone()),
                Box::new((&**b).clone()),
            ),
            WitType::ResultOf(ok, err) => WitType::ResultOf(
                match ok {
                    Some(t) => Some(Box::new((&**t).clone())),
                    None => None,
                },
                match err {
                    Some(t) => Some(Box::new((&**t).clone())),
                    None => None,
                },
            ),
            WitType::MapOf(k, v) => WitType::MapOf(
                Box::new((&**k).clone()),
                Box::new((&**v).clone()),
            ),
            WitType::Named(n) => WitType::Named(n.clone()),
        }
    }
}

/// One name/type pair: a declared parameter, a record field, or a generated
/// invocation argument.
#[derive(Debug, PartialEq, Eq)]
pub struct NamedType {
    pub name: String,
    pub ty: WitType,
}

impl Clone for NamedType {
    /// A deep copy that is equal, member for member, to the source.
    fn clone(&self) -> (res: Self)
        ensures
            res == *self,
    {
        NamedType { name: self.name.clone(), ty: self.ty.clone() }
    }
}

/// One function of an interface: its name, its parameters in declaration
/// order, and its optional return type.
#[derive(Debug, PartialEq, Eq)]
pub struct FunctionSignature {
    pub name: String,
    pub params: Vec<NamedType>,
    pub ret: Option<WitType>,
}

impl Clone for FunctionSignature {
    /// A deep copy: equal name and return shape, and the same parameters in
    /// the same order.
    fn clone(&self) -> (res: Self)
        ensures
            res.name == self.name,
            res.params@ == self.params@,
            res.ret == self.ret,
    {
        let res = FunctionSignature {
            name: self.name.clone(),
            params: self.params.clone(),
            ret: match &self.ret {
                Some(t) => Some(t.clone()),
                None => None,
            },
        };
        proof {
            assert(res.params@ =~= self.params@);
        }
        res
    }
}

/// One interface of the description graph, identified by the
/// (namespace, package, interface) triple, with its functions in declaration
/// order.
#[derive(Debug, PartialEq, Eq)]
pub struct InterfaceDescriptor {
    pub namespace: String,
    pub package: String,
    pub name: String,
    pub functions: Vec<FunctionSignature>,
}

/// The generation-time configuration this core consumes.
#[derive(Debug, PartialEq, Eq)]
pub struct BindingConfig {
    /// Name of the implementation struct the generated impls attach to.
    pub impl_struct: String,
    /// The capability contract identifier the interface traits report.
    pub contract: String,
    /// Optional namespace override for the interface path.
    pub wit_ns: Option<String>,
    /// Optional package override for the interface path.
    pub wit_pkg: Option<String>,
    /// Interfaces that may be exposed; empty means all.
    pub exposed_interface_allow_list: Vec<String>,
    /// Interfaces that must not be exposed.
    pub exposed_interface_deny_list: Vec<String>,
    /// Whether map re-encoding translation is active.
    pub replace_witified_maps: bool,
}

/// A generation-time failure.  Any of these aborts the whole run: no partial
/// output is ever emitted.
#[derive(Debug, Clone, PartialEq, Eq)]
pub enum BindgenError {
    /// A referenced type name could not be resolved in any catalog.
    UnresolvedType(String),
    /// An interface path did not contain exactly three segments.
    MalformedInterfacePath,
}

} // verus!
