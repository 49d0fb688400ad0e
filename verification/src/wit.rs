//! The lattice method translator: one function signature, either direction
//! (exported for remote invocation or imported for local invocation), turned
//! into a normalized lattice method description.
//!
//! Two type-directed rules shape the wire-facing argument list:
//!
//! - record flattening: a sole parameter whose type names an entry of the
//!   record catalog is replaced by that record's own fields, in the record's
//!   declared field order;
//! - map re-encoding (only when enabled by configuration): a parameter or
//!   field declared as an ordered sequence of key/value pairs — the wire-safe
//!   form of an associative structure — is presented as a native associative
//!   container instead.

use vstd::prelude::*;
use crate::catalog::TypeCatalog;
use crate::model::BindgenError;
use crate::model::BindingConfig;
use crate::model::FunctionSignature;
use crate::model::InterfaceDescriptor;
use crate::model::NamedType;
use crate::model::WitType;
use crate::names::operation_name;
use crate::names::operation_name_of;

verus! {

/// Whether every type name a type references is declared in some catalog.
pub open spec fn resolves(cat: TypeCatalog, t: WitType) -> bool
    decreases t,
{
    match t {
        WitType::Named(n) => cat.records@.dom().contains(n@) || cat.variants@.dom().contains(n@)
            || cat.aliases@.dom().contains(n@),
        WitType::ListOf(inner) => resolves(cat, *inner),
        WitType::OptionOf(inner) => resolves(cat, *inner),
        WitType::PairOf(a, b) => resolves(cat, *a) && resolves(cat, *b),
        WitType::ResultOf(ok, err) => (match ok {
            Some(t2) => resolves(cat, *t2),
            None => true,
        }) && (match err {
            Some(t2) => resolves(cat, *t2),
            None => true,
        }),
        WitType::MapOf(k, v) => resolves(cat, *k) && resolves(cat, *v),
        _ => true,
    }
}

/// Whether a type references the name `k` where no catalog declares it.
pub open spec fn unresolved_name_in(cat: TypeCatalog, t: WitType, k: Seq<char>) -> bool
    decreases t,
{
    match t {
        WitType::Named(n) => n@ == k && !cat.records@.dom().contains(n@)
            && !cat.variants@.dom().contains(n@) && !cat.aliases@.dom().contains(n@),
        WitType::ListOf(inner) => unresolved_name_in(cat, *inner, k),
        WitType::OptionOf(inner) => unresolved_name_in(cat, *inner, k),
        WitType::PairOf(a, b) => unresolved_name_in(cat, *a, k) || unresolved_name_in(cat, *b, k),
        WitType::ResultOf(ok, err) => (match ok {
            Some(t2) => unresolved_name_in(cat, *t2, k),
            None => false,
        }) || (match err {
            Some(t2) => unresolved_name_in(cat, *t2, k),
            None => false,
        }),
        WitType::MapOf(kt, vt) => unresolved_name_in(cat, *kt, k) || unresolved_name_in(
            cat,
            *vt,
            k,
        ),
        _ => false,
    }
}

/// Finds a referenced type name no catalog declares, if the type holds one.
fn find_unresolved_in_type(cat: &TypeCatalog, t: &WitType) -> (r: Option<String>)
    requires
        cat.wf(),
    ensures
        r is None <==> resolves(*cat, *t),
        match r {
            Some(k) => unresolved_name_in(*cat, *t, k@),
            None => true,
        },
    decreases *t,
{
    match t {
        WitType::Named(n) => {
            if cat.records.contains_key(n.as_str()) || cat.variants.contains_key(n.as_str())
                || cat.aliases.contains_key(n.as_str()) {
                None
            } else {
                Some(n.clone())
            }
        },
        WitType::ListOf(inner) => find_unresolved_in_type(cat, &**inner),
        WitType::OptionOf(inner) => find_unresolved_in_type(cat, &**inner),
        WitType::PairOf(a, b) => match find_unresolved_in_type(cat, &**a) {
            Some(k) => Some(k),
            None => find_unresolved_in_type(cat, &**b),
        },
        WitType::ResultOf(ok, err) => {
            let first = match ok {
                Some(t2) => find_unresolved_in_type(cat, &**t2),
                None => None,
            };
            match first {
                Some(k) => Some(k),
                None => match err {
                    Some(t2) => find_unresolved_in_type(cat, &**t2),
                    None => None,
                },
            }
        },
        WitType::MapOf(kt, vt) => match find_unresolved_in_type(cat, &**kt) {
            Some(k) => Some(k),
            None => find_unresolved_in_type(cat, &**vt),
        },
        _ => None,
    }
}

/// Whether every type the signature references resolves in some catalog.
pub open spec fn sig_resolves(cat: TypeCatalog, f: FunctionSignature) -> bool {
    (forall|i: int| 0 <= i < f.params@.len() ==> resolves(cat, #[trigger] f.params@[i].ty))
        && (match f.ret {
        Some(t) => resolves(cat, t),
        None => true,
    })
}

/// Whether the signature references the name `k` unresolved.
pub open spec fn sig_has_unresolved(cat: TypeCatalog, f: FunctionSignature, k: Seq<char>) -> bool {
    (exists|i: int| 0 <= i < f.params@.len() && unresolved_name_in(cat, #[trigger] f.params@[i].ty, k))
        || (match f.ret {
        Some(t) => unresolved_name_in(cat, t, k),
        None => false,
    })
}

/// Finds a referenced type name the signature leaves unresolved, if any.
fn find_unresolved_in_sig(cat: &TypeCatalog, f: &FunctionSignature) -> (r: Option<String>)
    requires
        cat.wf(),
    ensures
        r is None <==> sig_resolves(*cat, *f),
        match r {
            Some(k) => sig_has_unresolved(*cat, *f, k@),
            None => true,
        },
{
    let n = f.params.len();
    let mut i: usize = 0;
    while i < n
        invariant
            n == f.params@.len(),
            i <= n,
            cat.wf(),
            forall|j: int| 0 <= j < i ==> resolves(*cat, #[trigger] f.params@[j].ty),
        decreases n - i,
    {
        match find_unresolved_in_type(cat, &f.params[i].ty) {
            Some(k) => {
                return Some(k);
            },
            None => {},
        }
        i = i + 1;
    }
    match &f.ret {
        Some(t) => find_unresolved_in_type(cat, t),
        None => None,
    }
}

/// The native associative container a witified map type is presented as, if
/// the type has that shape: a list of key/value pairs.
pub open spec fn witified_map_target(t: WitType) -> Option<WitType> {
    match t {
        WitType::ListOf(inner) => match *inner {
            WitType::PairOf(k, v) => Some(WitType::MapOf(k, v)),
            _ => None,
        },
        _ => None,
    }
}

/// Recognizes a witified map type — an ordered sequence of key/value pairs —
/// and hands back the associative container type it is presented as.
pub fn extract_witified_map(t: &WitType) -> (r: Option<WitType>)
    ensures
        r == witified_map_target(*t),
{
    match t {
        WitType::ListOf(inner) => match &**inner {
            WitType::PairOf(k, v) => Some(
                WitType::MapOf(Box::new((&**k).clone()), Box::new((&**v).clone())),
            ),
            _ => None,
        },
        _ => None,
    }
}

/// The type a parameter or field is given in the generated signature: with
/// map translation enabled a witified map becomes the native container, and
/// anything else is kept as declared.
pub open spec fn sig_type_spec(enabled: bool, t: WitType) -> WitType {
    if enabled {
        match witified_map_target(t) {
            Some(m) => m,
            None => t,
        }
    } else {
        t
    }
}

/// Applies `sig_type_spec` to one type.
fn apply_sig_type(enabled: bool, t: &WitType) -> (r: WitType)
    ensures
        r == sig_type_spec(enabled, *t),
{
    if enabled {
        match extract_witified_map(t) {
            Some(m) => m,
            None => t.clone(),
        }
    } else {
        t.clone()
    }
}

/// One generated argument: the declared name with the signature type.
pub open spec fn translated_arg(enabled: bool, p: NamedType) -> NamedType {
    NamedType { name: p.name, ty: sig_type_spec(enabled, p.ty) }
}

/// The record the sole parameter flattens to, if the function has exactly one
/// parameter and its type names an entry of the record catalog.
pub open spec fn flattened_record_name(cat: TypeCatalog, f: FunctionSignature) -> Option<String> {
    if f.params@.len() == 1 {
        match f.params@[0].ty {
            WitType::Named(n) => if cat.records@.dom().contains(n@) {
                Some(n)
            } else {
                None
            },
            _ => None,
        }
    } else {
        None
    }
}

/// The generated argument list: the flattened record fields for a sole
/// record-typed parameter, the declared parameters otherwise, each given its
/// signature type.
pub open spec fn invocation_args_spec(cat: TypeCatalog, enabled: bool, f: FunctionSignature) -> Seq<
    NamedType,
> {
    match flattened_record_name(cat, f) {
        Some(n) => cat.records@[n@].fields@.map_values(|p: NamedType| translated_arg(enabled, p)),
        None => f.params@.map_values(|p: NamedType| translated_arg(enabled, p)),
    }
}

/// The generated return shape.
pub open spec fn return_spec(enabled: bool, ret: Option<WitType>) -> Option<WitType> {
    match ret {
        Some(t) => Some(sig_type_spec(enabled, t)),
        None => None,
    }
}

/// A function signature normalized for the lattice: the canonical operation
/// name, the handler method name, and the wire-facing argument list and
/// return shape.
#[derive(Debug, PartialEq, Eq)]
pub struct LatticeMethod {
    pub operation_name: String,
    pub func_name: String,
    pub invocation_args: Vec<NamedType>,
    pub invocation_return: Option<WitType>,
}

/// The mathematical content of a lattice method: its strings as character
/// sequences, its arguments as a sequence.
pub struct MethodView {
    pub operation_name: Seq<char>,
    pub func_name: Seq<char>,
    pub invocation_args: Seq<NamedType>,
    pub invocation_return: Option<WitType>,
}

impl View for LatticeMethod {
    type V = MethodView;

    open spec fn view(&self) -> MethodView {
        MethodView {
            operation_name: self.operation_name@,
            func_name: self.func_name@,
            invocation_args: self.invocation_args@,
            invocation_return: self.invocation_return,
        }
    }
}

/// What the translator produces for one function under a given operation
/// name.
pub open spec fn method_view_spec(
    cat: TypeCatalog,
    enabled: bool,
    op: Seq<char>,
    f: FunctionSignature,
) -> MethodView {
    MethodView {
        operation_name: op,
        func_name: f.name@,
        invocation_args: invocation_args_spec(cat, enabled, f),
        invocation_return: return_spec(enabled, f.ret),
    }
}

/// Translates one exported function into the lattice method invoked when the
/// given operation name arrives.
pub fn translate_export_fn_for_lattice(
    cfg: &BindingConfig,
    cat: &TypeCatalog,
    operation_name: String,
    func: &FunctionSignature,
) -> (r: Result<LatticeMethod, BindgenError>)
    requires
        cat.wf(),
    ensures
        r is Ok <==> sig_resolves(*cat, *func),
        match r {
            Ok(m) => m@ == method_view_spec(
                *cat,
                cfg.replace_witified_maps,
                operation_name@,
                *func,
            ),
            Err(e) => match e {
                BindgenError::UnresolvedType(k) => sig_has_unresolved(*cat, *func, k@),
                _ => false,
            },
        },
{
    match find_unresolved_in_sig(cat, func) {
        Some(k) => {
            return Err(BindgenError::UnresolvedType(k));
        },
        None => {},
    }
    let enabled = cfg.replace_witified_maps;
    let mut args: Vec<NamedType> = Vec::new();
    let mut flattened = false;
    if func.params.len() == 1 {
        if let WitType::Named(n) = &func.params[0].ty {
            match cat.records.get(n.as_str()) {
                Some(def) => {
                    let m = def.fields.len();
                    let mut j: usize = 0;
                    while j < m
                        invariant
                            m == def.fields@.len(),
                            j <= m,
                            args@ == def.fields@.take(j as int).map_values(
                                |p: NamedType| translated_arg(enabled, p),
                            ),
                        decreases m - j,
                    {
                        args.push(
                            NamedType {
                                name: def.fields[j].name.clone(),
                                ty: apply_sig_type(enabled, &def.fields[j].ty),
                            },
                        );
                        proof {
                            assert(args@ =~= def.fields@.take(j as int + 1).map_values(
                                |p: NamedType| translated_arg(enabled, p),
                            ));
                        }
                        j = j + 1;
                    }
                    proof {
                        assert(def.fields@.take(m as int) =~= def.fields@);
                    }
                    flattened = true;
                },
                None => {},
            }
        }
    }
    if !flattened {
        let n = func.params.len();
        let mut i: usize = 0;
        while i < n
            invariant
                n == func.params@.len(),
                i <= n,
                args@ == func.params@.take(i as int).map_values(
                    |p: NamedType| translated_arg(enabled, p),
                ),
            decreases n - i,
        {
            args.push(
                NamedType {
                    name: func.params[i].name.clone(),
                    ty: apply_sig_type(enabled, &func.params[i].ty),
                },
            );
            proof {
                assert(args@ =~= func.params@.take(i as int + 1).map_values(
                    |p: NamedType| translated_arg(enabled, p),
                ));
            }
            i = i + 1;
        }
        proof {
            assert(func.params@.take(n as int) =~= func.params@);
        }
    }
    let ret = match &func.ret {
        Some(t) => Some(apply_sig_type(enabled, t)),
        None => None,
    };
    Ok(
        LatticeMethod {
            operation_name,
            func_name: func.name.clone(),
            invocation_args: args,
            invocation_return: ret,
        },
    )
}

/// The namespace an imported interface's operation names use: the configured
/// override where one is given, the interface's own namespace otherwise.
pub open spec fn effective_ns(cfg: BindingConfig, iface: InterfaceDescriptor) -> Seq<char> {
    match cfg.wit_ns {
        Some(s) => s@,
        None => iface.namespace@,
    }
}

/// The package an imported interface's operation names use.
pub open spec fn effective_pkg(cfg: BindingConfig, iface: InterfaceDescriptor) -> Seq<char> {
    match cfg.wit_pkg {
        Some(s) => s@,
        None => iface.package@,
    }
}

/// What the translator produces for one imported function.
pub open spec fn import_method_view_spec(
    cat: TypeCatalog,
    cfg: BindingConfig,
    iface: InterfaceDescriptor,
    f: FunctionSignature,
) -> MethodView {
    method_view_spec(
        cat,
        cfg.replace_witified_maps,
        operation_name_of(effective_ns(cfg, iface), effective_pkg(cfg, iface), iface.name@, f.name@),
        f,
    )
}

/// Translates one imported function into the stub method that invokes it over
/// the lattice: its canonical operation name, and the argument list the stub
/// encodes in declared order.
pub fn translate_import_fn_for_lattice(
    cfg: &BindingConfig,
    cat: &TypeCatalog,
    iface: &InterfaceDescriptor,
    func: &FunctionSignature,
) -> (r: Result<LatticeMethod, BindgenError>)
    requires
        cat.wf(),
    ensures
        r is Ok <==> sig_resolves(*cat, *func),
        match r {
            Ok(m) => m@ == import_method_view_spec(*cat, *cfg, *iface, *func),
            Err(e) => match e {
                BindgenError::UnresolvedType(k) => sig_has_unresolved(*cat, *func, k@),
                _ => false,
            },
        },
{
    let ns = match &cfg.wit_ns {
        Some(s) => s.as_str(),
        None => iface.namespace.as_str(),
    };
    let pkg = match &cfg.wit_pkg {
        Some(s) => s.as_str(),
        None => iface.package.as_str(),
    };
    let op = operation_name(ns, pkg, iface.name.as_str(), func.name.as_str());
    translate_export_fn_for_lattice(cfg, cat, op, func)
}

/// Record flattening: for a function with exactly one record-typed parameter,
/// the generated argument list equals that record's fields, in declared
/// order.  (With map translation enabled, each field is additionally given
/// its signature type.)
pub proof fn lemma_single_record_param_flattens(
    cat: TypeCatalog,
    f: FunctionSignature,
    n: String,
)
    requires
        f.params@.len() == 1,
        f.params@[0].ty == WitType::Named(n),
        cat.records@.dom().contains(n@),
    ensures
        invocation_args_spec(cat, false, f) == cat.records@[n@].fields@,
        invocation_args_spec(cat, true, f).len() == cat.records@[n@].fields@.len(),
        forall|i: int|
            0 <= i < cat.records@[n@].fields@.len() ==> invocation_args_spec(cat, true, f)[i]
                == translated_arg(true, #[trigger] cat.records@[n@].fields@[i]),
{
    assert(invocation_args_spec(cat, false, f) =~= cat.records@[n@].fields@);
}

/// Pass-through: a function whose sole parameter's type is not in the record
/// catalog keeps it as one named argument.
pub proof fn lemma_sole_non_record_param_kept(cat: TypeCatalog, f: FunctionSignature, enabled: bool)
    requires
        f.params@.len() == 1,
        match f.params@[0].ty {
            WitType::Named(n) => !cat.records@.dom().contains(n@),
            _ => true,
        },
    ensures
        invocation_args_spec(cat, enabled, f).len() == 1,
        invocation_args_spec(cat, enabled, f)[0] == translated_arg(enabled, f.params@[0]),
        !enabled ==> invocation_args_spec(cat, enabled, f)[0] == f.params@[0],
{
}

} // verus!
