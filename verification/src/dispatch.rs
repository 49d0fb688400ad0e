//! The dispatch table builder: per exported interface, a capability-interface
//! definition — one method per exported function plus the fixed contract
//! identifier accessor — and the selection logic that routes an incoming
//! operation name to the right method with its decoded argument values.

use vstd::prelude::*;
use crate::catalog::TypeCatalog;
use crate::model::BindgenError;
use crate::model::BindingConfig;
use crate::model::FunctionSignature;
use crate::model::WitType;
use crate::names::capability_trait_name;
use crate::names::operation_name;
use crate::names::operation_name_of;
use crate::names::trait_name_of;
use crate::names::kebab_of;
use crate::names::lemma_operation_names_distinct;
use crate::policy::is_ignored_invocation_handler_pkg;
use crate::policy::is_ignored_pkg_spec;
use crate::table::str_eq;
use crate::wit::LatticeMethod;
use crate::wit::MethodView;
use crate::wit::method_view_spec;
use crate::wit::sig_has_unresolved;
use crate::wit::sig_resolves;
use crate::wit::translate_export_fn_for_lattice;

verus! {

/// One exported interface as scraped from the base binding generator's
/// output: its interface path — namespace, package, interface name — and its
/// declared functions.
#[derive(Debug, PartialEq, Eq)]
pub struct ExportedInterface {
    pub path: Vec<String>,
    pub functions: Vec<FunctionSignature>,
}

/// A capability-interface definition: one asynchronous method per exported
/// function, a fixed accessor returning the contract identifier, and the
/// dispatch information for each method.
#[derive(Debug, PartialEq, Eq)]
pub struct CapabilityInterface {
    pub namespace: String,
    pub package: String,
    pub name: String,
    pub trait_name: String,
    pub contract_id: String,
    pub methods: Vec<LatticeMethod>,
}

/// The mathematical content of a capability interface.
pub struct InterfaceView {
    pub namespace: Seq<char>,
    pub package: Seq<char>,
    pub name: Seq<char>,
    pub trait_name: Seq<char>,
    pub contract_id: Seq<char>,
    pub methods: Seq<MethodView>,
}

/// The views of a sequence of lattice methods.
pub open spec fn methods_view(ms: Seq<LatticeMethod>) -> Seq<MethodView> {
    ms.map_values(|m: LatticeMethod| m@)
}

/// The views of a sequence of capability interfaces.
pub open spec fn ifaces_view(s: Seq<CapabilityInterface>) -> Seq<InterfaceView> {
    s.map_values(|ci: CapabilityInterface| ci@)
}

impl View for CapabilityInterface {
    type V = InterfaceView;

    open spec fn view(&self) -> InterfaceView {
        InterfaceView {
            namespace: self.namespace@,
            package: self.package@,
            name: self.name@,
            trait_name: self.trait_name@,
            contract_id: self.contract_id@,
            methods: methods_view(self.methods@),
        }
    }
}

/// The methods an exported interface contributes, one per function.
pub open spec fn export_methods_spec(
    cat: TypeCatalog,
    cfg: BindingConfig,
    ifc: ExportedInterface,
    fs: Seq<FunctionSignature>,
) -> Seq<MethodView> {
    fs.map_values(
        |f: FunctionSignature| method_view_spec(
            cat,
            cfg.replace_witified_maps,
            operation_name_of(ifc.path@[0]@, ifc.path@[1]@, ifc.path@[2]@, f.name@),
            f,
        ),
    )
}

/// Whether an exported interface belongs to a host-intrinsic package.
pub open spec fn ignored_export(ifc: ExportedInterface) -> bool {
    is_ignored_pkg_spec(ifc.path@[0]@, ifc.path@[1]@)
}

/// Whether every function of a sequence resolves its referenced types.
pub open spec fn all_sigs_resolve(cat: TypeCatalog, fs: Seq<FunctionSignature>) -> bool {
    forall|j: int| 0 <= j < fs.len() ==> sig_resolves(cat, #[trigger] fs[j])
}

/// Whether the scraped export input admits a complete dispatch table: every
/// path has exactly three segments, and every function of a non-ignored
/// interface resolves.
pub open spec fn export_input_ok(cat: TypeCatalog, s: Seq<ExportedInterface>) -> bool {
    forall|i: int|
        0 <= i < s.len() ==> (#[trigger] s[i].path@.len() == 3 && (!ignored_export(s[i])
            ==> all_sigs_resolve(cat, s[i].functions@)))
}

/// What the dispatch table builder produces for one exported interface.
pub open spec fn capability_iface_view_spec(
    cat: TypeCatalog,
    cfg: BindingConfig,
    ifc: ExportedInterface,
) -> InterfaceView {
    let ns = ifc.path@[0]@;
    let pkg = ifc.path@[1]@;
    let nm = ifc.path@[2]@;
    InterfaceView {
        namespace: ns,
        package: pkg,
        name: nm,
        trait_name: trait_name_of(ns, pkg, nm),
        contract_id: cfg.contract@,
        methods: export_methods_spec(cat, cfg, ifc, ifc.functions@),
    }
}

/// The capability interface of one non-ignored exported interface, or
/// nothing for a host-intrinsic one.
pub open spec fn export_entry_spec(
    cat: TypeCatalog,
    cfg: BindingConfig,
    ifc: ExportedInterface,
) -> Option<InterfaceView> {
    if ifc.path@.len() == 3 && !ignored_export(ifc) {
        Some(capability_iface_view_spec(cat, cfg, ifc))
    } else {
        None
    }
}

/// The whole dispatch table: one capability interface per non-ignored
/// exported interface, in input order.
pub open spec fn capability_interfaces_spec(
    cat: TypeCatalog,
    cfg: BindingConfig,
    s: Seq<ExportedInterface>,
) -> Seq<InterfaceView> {
    s.filter_map(|ifc: ExportedInterface| export_entry_spec(cat, cfg, ifc))
}

/// One step of the table: extending the input by one interface appends its
/// entry, if it has one.
proof fn lemma_capability_interfaces_take_succ(
    cat: TypeCatalog,
    cfg: BindingConfig,
    s: Seq<ExportedInterface>,
    i: int,
)
    requires
        0 <= i < s.len(),
    ensures
        capability_interfaces_spec(cat, cfg, s.take(i + 1)) == capability_interfaces_spec(
            cat,
            cfg,
            s.take(i),
        ) + (match export_entry_spec(cat, cfg, s[i]) {
            Some(v) => seq![v],
            None => Seq::<InterfaceView>::empty(),
        }),
{
    s.lemma_filter_map_take_succ(|ifc: ExportedInterface| export_entry_spec(cat, cfg, ifc), i);
}

/// Builds the capability interface of one exported interface.
#[verifier::loop_isolation(false)]
fn build_capability_interface(
    cfg: &BindingConfig,
    cat: &TypeCatalog,
    ifc: &ExportedInterface,
) -> (r: Result<CapabilityInterface, BindgenError>)
    requires
        cat.wf(),
        ifc.path@.len() == 3,
    ensures
        r is Ok <==> all_sigs_resolve(*cat, ifc.functions@),
        match r {
            Ok(ci) => ci@ == capability_iface_view_spec(*cat, *cfg, *ifc),
            Err(e) => match e {
                BindgenError::UnresolvedType(k) => exists|j: int|
                    0 <= j < ifc.functions@.len() && sig_has_unresolved(
                        *cat,
                        #[trigger] ifc.functions@[j],
                        k@,
                    ),
                _ => false,
            },
        },
{
    let ns = &ifc.path[0];
    let pkg = &ifc.path[1];
    let nm = &ifc.path[2];
    let trait_name = capability_trait_name(ns.as_str(), pkg.as_str(), nm.as_str());
    let n = ifc.functions.len();
    let mut methods: Vec<LatticeMethod> = Vec::new();
    let mut j: usize = 0;
    while j < n
        invariant
            cat.wf(),
            ifc.path@.len() == 3,
            n == ifc.functions@.len(),
            j <= n,
            forall|k: int| 0 <= k < j ==> sig_resolves(*cat, #[trigger] ifc.functions@[k]),
            methods_view(methods@) == export_methods_spec(
                *cat,
                *cfg,
                *ifc,
                ifc.functions@.take(j as int),
            ),
        decreases n - j,
    {
        let f = &ifc.functions[j];
        let op = operation_name(ns.as_str(), pkg.as_str(), nm.as_str(), f.name.as_str());
        match translate_export_fn_for_lattice(cfg, cat, op, f) {
            Ok(m) => {
                let ghost before = methods@;
                methods.push(m);
                proof {
                    let target = export_methods_spec(
                        *cat,
                        *cfg,
                        *ifc,
                        ifc.functions@.take(j as int + 1),
                    );
                    assert(methods@ == before.push(m));
                    assert forall|idx: int| 0 <= idx < methods@.len() implies methods_view(
                        methods@,
                    )[idx] == target[idx] by {
                        assert(methods_view(methods@)[idx] == methods@[idx]@);
                        if idx < before.len() {
                            assert(methods@[idx] == before[idx]);
                            assert(methods_view(before)[idx] == before[idx]@);
                        } else {
                            assert(methods@[idx] == m);
                            assert(ifc.functions@.take(j as int + 1)[j as int]
                                == ifc.functions@[j as int]);
                        }
                    }
                    assert(methods_view(methods@) =~= target);
                }
            },
            Err(e) => {
                return Err(e);
            },
        }
        j = j + 1;
    }
    proof {
        assert(ifc.functions@.take(n as int) =~= ifc.functions@);
    }
    let ci = CapabilityInterface {
        namespace: ifc.path[0].clone(),
        package: ifc.path[1].clone(),
        name: ifc.path[2].clone(),
        trait_name,
        contract_id: cfg.contract.clone(),
        methods,
    };
    Ok(ci)
}

/// Builds the whole dispatch table: a capability interface for every
/// non-ignored exported interface, in input order.  No entry ever references
/// a host-intrinsic package.
#[verifier::loop_isolation(false)]
pub fn build_lattice_methods_by_wit_interface(
    cfg: &BindingConfig,
    cat: &TypeCatalog,
    ifaces: &Vec<ExportedInterface>,
) -> (r: Result<Vec<CapabilityInterface>, BindgenError>)
    requires
        cat.wf(),
    ensures
        r is Ok <==> export_input_ok(*cat, ifaces@),
        match r {
            Ok(v) => ifaces_view(v@) == capability_interfaces_spec(*cat, *cfg, ifaces@)
                && forall|k: int|
                0 <= k < v@.len() ==> !is_ignored_pkg_spec(
                    (#[trigger] v@[k])@.namespace,
                    v@[k]@.package,
                ),
            Err(e) => match e {
                BindgenError::MalformedInterfacePath => exists|i: int|
                    0 <= i < ifaces@.len() && (#[trigger] ifaces@[i]).path@.len() != 3,
                BindgenError::UnresolvedType(k) => exists|i: int, j: int|
                    #![auto]
                    0 <= i < ifaces@.len() && ifaces@[i].path@.len() == 3 && !ignored_export(
                        ifaces@[i],
                    ) && 0 <= j < ifaces@[i].functions@.len() && sig_has_unresolved(
                        *cat,
                        ifaces@[i].functions@[j],
                        k@,
                    ),
            },
        },
{
    let n = ifaces.len();
    let mut out: Vec<CapabilityInterface> = Vec::new();
    let mut i: usize = 0;
    while i < n
        invariant
            cat.wf(),
            n == ifaces@.len(),
            i <= n,
            forall|k: int| 0 <= k < i ==> (#[trigger] ifaces@[k]).path@.len() == 3,
            forall|k: int|
                0 <= k < i && !ignored_export(#[trigger] ifaces@[k]) ==> all_sigs_resolve(
                    *cat,
                    ifaces@[k].functions@,
                ),
            ifaces_view(out@) == capability_interfaces_spec(*cat, *cfg, ifaces@.take(i as int)),
            forall|k: int|
                0 <= k < out@.len() ==> !is_ignored_pkg_spec(
                    (#[trigger] out@[k])@.namespace,
                    out@[k]@.package,
                ),
        decreases n - i,
    {
        let ifc = &ifaces[i];
        proof {
            lemma_capability_interfaces_take_succ(*cat, *cfg, ifaces@, i as int);
        }
        if ifc.path.len() != 3 {
            return Err(BindgenError::MalformedInterfacePath);
        }
        let ignored = is_ignored_invocation_handler_pkg(
            ifc.path[0].as_str(),
            ifc.path[1].as_str(),
        );
        if !ignored {
            match build_capability_interface(cfg, cat, ifc) {
                Ok(ci) => {
                    out.push(ci);
                    proof {
                        assert(ifaces_view(out@) =~= capability_interfaces_spec(
                            *cat,
                            *cfg,
                            ifaces@.take(i as int + 1),
                        ));
                    }
                },
                Err(e) => {
                    return Err(e);
                },
            }
        } else {
            proof {
                assert(ifaces_view(out@) =~= capability_interfaces_spec(
                    *cat,
                    *cfg,
                    ifaces@.take(i as int + 1),
                ));
            }
        }
        i = i + 1;
    }
    proof {
        assert(ifaces@.take(n as int) =~= ifaces@);
    }
    Ok(out)
}

/// Uniqueness of operation names within one interface: two functions of one
/// exported interface whose kebab-cased names differ get distinct operation
/// names in the built dispatch table.
pub proof fn lemma_interface_operation_names_distinct(
    cat: TypeCatalog,
    cfg: BindingConfig,
    ifc: ExportedInterface,
    i: int,
    j: int,
)
    requires
        ifc.path@.len() == 3,
        0 <= i < ifc.functions@.len(),
        0 <= j < ifc.functions@.len(),
        kebab_of(ifc.functions@[i].name@) != kebab_of(ifc.functions@[j].name@),
    ensures
        capability_iface_view_spec(cat, cfg, ifc).methods[i].operation_name
            != capability_iface_view_spec(cat, cfg, ifc).methods[j].operation_name,
{
    lemma_operation_names_distinct(
        ifc.path@[0]@,
        ifc.path@[1]@,
        ifc.path@[2]@,
        ifc.functions@[i].name@,
        ifc.functions@[j].name@,
    );
}

/// The first method of a method list whose operation name matches.
pub open spec fn find_in_methods(ms: Seq<LatticeMethod>, op: Seq<char>) -> Option<LatticeMethod>
    decreases ms.len(),
{
    if ms.len() == 0 {
        None
    } else if ms.first().operation_name@ == op {
        Some(ms.first())
    } else {
        find_in_methods(ms.drop_first(), op)
    }
}

/// The first interface and method matching an operation name.
pub open spec fn find_dispatch(s: Seq<CapabilityInterface>, op: Seq<char>) -> Option<
    (CapabilityInterface, LatticeMethod),
>
    decreases s.len(),
{
    if s.len() == 0 {
        None
    } else {
        match find_in_methods(s.first().methods@, op) {
            Some(m) => Some((s.first(), m)),
            None => find_dispatch(s.drop_first(), op),
        }
    }
}

/// A runtime failure of one dispatched invocation.  It terminates only that
/// invocation, never the serving process.
#[derive(Debug, PartialEq, Eq)]
pub enum InvocationError {
    /// The operation name matched no dispatch arm.
    MalformedOperation { operation: String },
    /// The incoming value collection held no value for this parameter.
    MissingParameter { parameter: String },
}

/// A routed invocation: the matched interface and method, with each declared
/// argument bound to one wire value.
#[derive(Debug, PartialEq, Eq)]
pub struct SelectedCall<V> {
    pub trait_name: String,
    pub func_name: String,
    pub args: Vec<(String, V)>,
    pub invocation_return: Option<WitType>,
}

/// Routes one incoming invocation: matches the operation name against the
/// dispatch table and binds each declared argument to one value consumed from
/// the back of the incoming collection — the order the transport's encoder
/// leaves them in — in declaration order.  Values beyond the declared
/// arguments are left unconsumed.
#[verifier::loop_isolation(false)]
pub fn dispatch_wrpc_dynamic<V>(
    ifaces: &Vec<CapabilityInterface>,
    operation: &str,
    params: Vec<V>,
) -> (r: Result<SelectedCall<V>, InvocationError>)
    ensures
        match find_dispatch(ifaces@, operation@) {
            None => (r matches Err(InvocationError::MalformedOperation { operation: o })
                && o@ == operation@),
            Some((ci, m)) => match r {
                Ok(sel) => params@.len() >= m.invocation_args@.len() && sel.trait_name
                    == ci.trait_name && sel.func_name == m.func_name && sel.invocation_return
                    == m.invocation_return && sel.args@.len() == m.invocation_args@.len()
                    && forall|x: int|
                    0 <= x < sel.args@.len() ==> (#[trigger] sel.args@[x]).0
                        == m.invocation_args@[x].name && sel.args@[x].1 == params@[params@.len()
                        - 1 - x],
                Err(e) => match e {
                    InvocationError::MissingParameter { parameter } => params@.len()
                        < m.invocation_args@.len() && parameter@ == m.invocation_args@[params@.len() as int].name@,
                    _ => false,
                },
            },
        },
        r is Ok <==> (find_dispatch(ifaces@, operation@) matches Some((ci, m)) && params@.len()
            >= m.invocation_args@.len()),
{
    let n = ifaces.len();
    let mut i: usize = 0;
    proof {
        assert(ifaces@.skip(0) =~= ifaces@);
    }
    while i < n
        invariant
            i <= n,
            find_dispatch(ifaces@, operation@) == find_dispatch(
                ifaces@.skip(i as int),
                operation@,
            ),
        decreases n - i,
    {
        let ci = &ifaces[i];
        let mn = ci.methods.len();
        let mut j: usize = 0;
        proof {
            assert(ci.methods@.skip(0) =~= ci.methods@);
        }
        while j < mn
            invariant
                j <= mn,
                find_in_methods(ci.methods@, operation@) == find_in_methods(
                    ci.methods@.skip(j as int),
                    operation@,
                ),
            decreases mn - j,
        {
            let m = &ci.methods[j];
            proof {
                assert(ci.methods@.skip(j as int).first() == ci.methods@[j as int]);
                assert(ci.methods@.skip(j as int).drop_first() =~= ci.methods@.skip(j as int + 1));
            }
            if str_eq(m.operation_name.as_str(), operation) {
                proof {
                    assert(ifaces@.skip(i as int).first() == ifaces@[i as int]);
                    assert(find_in_methods(ci.methods@, operation@) == Some(ci.methods@[j as int]));
                    assert(find_dispatch(ifaces@, operation@) == Some((
                        ifaces@[i as int],
                        ci.methods@[j as int],
                    )));
                }
                let want = m.invocation_args.len();
                if params.len() < want {
                    let missing = m.invocation_args[params.len()].name.clone();
                    return Err(InvocationError::MissingParameter { parameter: missing });
                }
                let ghost params0 = params@;
                let mut params = params;
                let mut args: Vec<(String, V)> = Vec::new();
                let mut k: usize = 0;
                while k < want
                    invariant
                        k <= want,
                        want <= params0.len(),
                        params@ == params0.take(params0.len() - k as int),
                        args@.len() == k,
                        forall|x: int|
                            0 <= x < k ==> (#[trigger] args@[x]).0 == m.invocation_args@[x].name
                                && args@[x].1 == params0[params0.len() - 1 - x],
                    decreases want - k,
                {
                    let name = m.invocation_args[k].name.clone();
                    let v = params.pop().unwrap();
                    args.push((name, v));
                    proof {
                        assert(params@ =~= params0.take(params0.len() - (k as int + 1)));
                    }
                    k = k + 1;
                }
                let ret = match &m.invocation_return {
                    Some(t) => Some(t.clone()),
                    None => None,
                };
                return Ok(
                    SelectedCall {
                        trait_name: ci.trait_name.clone(),
                        func_name: m.func_name.clone(),
                        args,
                        invocation_return: ret,
                    },
                );
            }
            j = j + 1;
        }
        proof {
            assert(ifaces@.skip(i as int).first() == ifaces@[i as int]);
            assert(ci.methods@.skip(mn as int) =~= Seq::<LatticeMethod>::empty());
            assert(find_in_methods(ci.methods@, operation@) is None);
            assert(ifaces@.skip(i as int).drop_first() =~= ifaces@.skip(i as int + 1));
        }
        i = i + 1;
    }
    proof {
        assert(ifaces@.skip(n as int) =~= Seq::<CapabilityInterface>::empty());
    }
    Err(InvocationError::MalformedOperation { operation: operation.to_owned() })
}

} // verus!
