//! The subject mapping builder: for every exported function not excluded by
//! the package policy, the wire-subject-to-call-descriptor entry the
//! transport layer uses to route an inbound message to the right dispatch
//! arm.
//!
//! The subject is `<domain>.<component>.wrpc.<version>.<operation-name>`,
//! parameterized by three values supplied at process start.  The table is
//! built once then and read-only afterward, so concurrent inbound handlers
//! share it without locking.

use vstd::prelude::*;
use crate::model::FunctionSignature;
use crate::model::InterfaceDescriptor;
use crate::model::NamedType;
use crate::model::WitType;
use crate::names::operation_name;
use crate::names::operation_name_of;
use crate::names::subject_for;
use crate::names::subject_of;
use crate::names::to_upper_camel;
use crate::names::upper_camel_of;
use crate::policy::is_ignored_invocation_handler_pkg;
use crate::policy::is_ignored_pkg_spec;
use crate::table::NamedTable;
use crate::table::keys_unique;

verus! {

/// A structural description of a function's argument and return shapes,
/// serialized as data alongside the generated code and used for late-bound
/// marshalling at dispatch time.
#[derive(Debug, PartialEq, Eq)]
pub struct DynamicFunctionDescriptor {
    pub params: Vec<NamedType>,
    pub result: Option<WitType>,
}

/// The mathematical content of a descriptor.
pub struct DescriptorView {
    pub params: Seq<NamedType>,
    pub result: Option<WitType>,
}

impl View for DynamicFunctionDescriptor {
    type V = DescriptorView;

    open spec fn view(&self) -> DescriptorView {
        DescriptorView { params: self.params@, result: self.result }
    }
}

/// One exported function's wire-routing data: its interface path and
/// function name, the world-key name, and the call descriptor.
#[derive(Debug, PartialEq, Eq)]
pub struct WrpcExport {
    pub wit_ns: String,
    pub wit_pkg: String,
    pub wit_iface: String,
    pub wit_iface_fn: String,
    pub world_key_name: String,
    pub function_name: String,
    pub dynamic_function: DynamicFunctionDescriptor,
}

/// The mathematical content of one export entry.
pub struct ExportView {
    pub wit_ns: Seq<char>,
    pub wit_pkg: Seq<char>,
    pub wit_iface: Seq<char>,
    pub wit_iface_fn: Seq<char>,
    pub world_key_name: Seq<char>,
    pub function_name: Seq<char>,
    pub dynamic_function: DescriptorView,
}

impl View for WrpcExport {
    type V = ExportView;

    open spec fn view(&self) -> ExportView {
        ExportView {
            wit_ns: self.wit_ns@,
            wit_pkg: self.wit_pkg@,
            wit_iface: self.wit_iface@,
            wit_iface_fn: self.wit_iface_fn@,
            world_key_name: self.world_key_name@,
            function_name: self.function_name@,
            dynamic_function: self.dynamic_function@,
        }
    }
}

/// The views of a sequence of export entries.
pub open spec fn exports_view(s: Seq<WrpcExport>) -> Seq<ExportView> {
    s.map_values(|e: WrpcExport| e@)
}

/// What one exported function contributes to the mapping.
pub open spec fn export_view_spec(ifc: InterfaceDescriptor, f: FunctionSignature) -> ExportView {
    ExportView {
        wit_ns: ifc.namespace@,
        wit_pkg: ifc.package@,
        wit_iface: ifc.name@,
        wit_iface_fn: f.name@,
        world_key_name: upper_camel_of(ifc.name@),
        function_name: f.name@,
        dynamic_function: DescriptorView { params: f.params@, result: f.ret },
    }
}

/// The export entries one interface contributes, one per function.
pub open spec fn iface_exports_spec(ifc: InterfaceDescriptor, fs: Seq<FunctionSignature>) -> Seq<
    ExportView,
> {
    fs.map_values(|f: FunctionSignature| export_view_spec(ifc, f))
}

/// The whole mapping input: every function of every exported interface not
/// excluded by the package policy, in declaration order.
pub open spec fn wrpc_exports_spec(s: Seq<InterfaceDescriptor>) -> Seq<ExportView>
    decreases s.len(),
{
    if s.len() == 0 {
        Seq::empty()
    } else {
        let rest = wrpc_exports_spec(s.drop_last());
        if is_ignored_pkg_spec(s.last().namespace@, s.last().package@) {
            rest
        } else {
            rest + iface_exports_spec(s.last(), s.last().functions@)
        }
    }
}

/// One step of the mapping input.
proof fn lemma_wrpc_exports_take_succ(s: Seq<InterfaceDescriptor>, i: int)
    requires
        0 <= i < s.len(),
    ensures
        wrpc_exports_spec(s.take(i + 1)) == wrpc_exports_spec(s.take(i)) + (
        if is_ignored_pkg_spec(s[i].namespace@, s[i].package@) {
            Seq::<ExportView>::empty()
        } else {
            iface_exports_spec(s[i], s[i].functions@)
        }),
{
    assert(s.take(i + 1).drop_last() =~= s.take(i));
    assert(s.take(i + 1).last() == s[i]);
    if is_ignored_pkg_spec(s[i].namespace@, s[i].package@) {
        assert(wrpc_exports_spec(s.take(i + 1)) =~= wrpc_exports_spec(s.take(i))
            + Seq::<ExportView>::empty());
    }
}

/// Exclusion: a host-intrinsic interface contributes no routing data —
/// removing it from the export list leaves the mapping unchanged.
pub proof fn lemma_subject_entries_exclude_ignored(s: Seq<InterfaceDescriptor>, i: int)
    requires
        0 <= i < s.len(),
        is_ignored_pkg_spec(s[i].namespace@, s[i].package@),
    ensures
        wrpc_exports_spec(s) == wrpc_exports_spec(s.remove(i)),
    decreases s.len(),
{
    if i == s.len() - 1 {
        assert(s.remove(i) =~= s.drop_last());
    } else {
        lemma_subject_entries_exclude_ignored(s.drop_last(), i);
        assert(s.remove(i).drop_last() =~= s.drop_last().remove(i));
        assert(s.remove(i).last() == s.last());
        if is_ignored_pkg_spec(s.last().namespace@, s.last().package@) {
            assert(wrpc_exports_spec(s) =~= wrpc_exports_spec(s.remove(i)));
        } else {
            assert(wrpc_exports_spec(s) =~= wrpc_exports_spec(s.remove(i)));
        }
    }
}

/// Builds the wire-routing data for every exported function of every
/// non-excluded interface, in declaration order.
#[verifier::loop_isolation(false)]
pub fn generate_wrpc_nats_subject_to_fn_mapping(exports: &Vec<InterfaceDescriptor>) -> (r: Vec<
    WrpcExport,
>)
    ensures
        exports_view(r@) == wrpc_exports_spec(exports@),
{
    let n = exports.len();
    let mut out: Vec<WrpcExport> = Vec::new();
    let mut i: usize = 0;
    while i < n
        invariant
            n == exports@.len(),
            i <= n,
            exports_view(out@) == wrpc_exports_spec(exports@.take(i as int)),
        decreases n - i,
    {
        let ifc = &exports[i];
        proof {
            lemma_wrpc_exports_take_succ(exports@, i as int);
        }
        let ignored = is_ignored_invocation_handler_pkg(
            ifc.namespace.as_str(),
            ifc.package.as_str(),
        );
        if !ignored {
            let fn_count = ifc.functions.len();
            let mut j: usize = 0;
            while j < fn_count
                invariant
                    fn_count == ifc.functions@.len(),
                    j <= fn_count,
                    exports_view(out@) == wrpc_exports_spec(exports@.take(i as int))
                        + iface_exports_spec(
                        exports@[i as int],
                        ifc.functions@.take(j as int),
                    ),
                decreases fn_count - j,
            {
                let f = &ifc.functions[j];
                let world_key = to_upper_camel(ifc.name.as_str());
                let e = WrpcExport {
                    wit_ns: ifc.namespace.clone(),
                    wit_pkg: ifc.package.clone(),
                    wit_iface: ifc.name.clone(),
                    wit_iface_fn: f.name.clone(),
                    world_key_name: world_key,
                    function_name: f.name.clone(),
                    dynamic_function: DynamicFunctionDescriptor {
                        params: f.params.clone(),
                        result: match &f.ret {
                            Some(t) => Some(t.clone()),
                            None => None,
                        },
                    },
                };
                let ghost before = out@;
                out.push(e);
                proof {
                    let target = wrpc_exports_spec(exports@.take(i as int)) + iface_exports_spec(
                        exports@[i as int],
                        ifc.functions@.take(j as int + 1),
                    );
                    assert(out@ == before.push(e));
                    assert forall|x: int| 0 <= x < out@.len() implies exports_view(out@)[x]
                        == target[x] by {
                        assert(exports_view(out@)[x] == out@[x]@);
                        if x < before.len() {
                            assert(out@[x] == before[x]);
                            assert(exports_view(before)[x] == before[x]@);
                        } else {
                            assert(out@[x] == e);
                            assert(ifc.functions@.take(j as int + 1)[j as int]
                                == ifc.functions@[j as int]);
                            assert(e@.dynamic_function.params =~= ifc.functions@[j as int].params@);
                        }
                    }
                    assert(exports_view(out@) =~= target);
                }
                j = j + 1;
            }
            proof {
                assert(ifc.functions@.take(fn_count as int) =~= ifc.functions@);
            }
        }
        i = i + 1;
    }
    proof {
        assert(exports@.take(n as int) =~= exports@);
    }
    out
}

/// What the transport looks up under one subject.
#[derive(Debug, PartialEq, Eq)]
pub struct SubjectBinding {
    pub world_key_name: String,
    pub function_name: String,
    pub descriptor: DynamicFunctionDescriptor,
}

/// The mathematical content of one subject binding.
pub struct BindingView {
    pub world_key_name: Seq<char>,
    pub function_name: Seq<char>,
    pub descriptor: DescriptorView,
}

impl View for SubjectBinding {
    type V = BindingView;

    open spec fn view(&self) -> BindingView {
        BindingView {
            world_key_name: self.world_key_name@,
            function_name: self.function_name@,
            descriptor: self.descriptor@,
        }
    }
}

/// The views of a sequence of subject entries.
pub open spec fn subject_pairs_view(s: Seq<(String, SubjectBinding)>) -> Seq<
    (Seq<char>, BindingView),
> {
    s.map_values(|p: (String, SubjectBinding)| (p.0@, p.1@))
}

/// The subject and binding one export entry is routed by.
pub open spec fn subject_pair_spec(
    e: ExportView,
    lattice_name: Seq<char>,
    component_id: Seq<char>,
    wrpc_version: Seq<char>,
) -> (Seq<char>, BindingView) {
    (
        subject_of(
            lattice_name,
            component_id,
            wrpc_version,
            operation_name_of(e.wit_ns, e.wit_pkg, e.wit_iface, e.wit_iface_fn),
        ),
        BindingView {
            world_key_name: e.world_key_name,
            function_name: e.function_name,
            descriptor: e.dynamic_function,
        },
    )
}

/// The whole subject table input, one pair per export entry, in order.
pub open spec fn subject_pairs_spec(
    s: Seq<ExportView>,
    lattice_name: Seq<char>,
    component_id: Seq<char>,
    wrpc_version: Seq<char>,
) -> Seq<(Seq<char>, BindingView)> {
    s.map_values(|e: ExportView| subject_pair_spec(e, lattice_name, component_id, wrpc_version))
}

/// Builds the subject-to-descriptor table from the generated routing data
/// and the three runtime values.  The table is keyed by subject, so no two
/// of its entries ever share a subject; when the computed subjects are
/// pairwise distinct — as distinct operation names guarantee — its entries
/// are exactly one per export, in order.
#[verifier::loop_isolation(false)]
pub fn incoming_wrpc_invocations_by_subject(
    exports: &Vec<WrpcExport>,
    lattice_name: &str,
    component_id: &str,
    wrpc_version: &str,
) -> (r: NamedTable<SubjectBinding>)
    ensures
        r.wf(),
        (forall|i: int, j: int|
            0 <= i < j < exports@.len() ==> subject_pair_spec(
                (#[trigger] exports@[i])@,
                lattice_name@,
                component_id@,
                wrpc_version@,
            ).0 != subject_pair_spec(
                (#[trigger] exports@[j])@,
                lattice_name@,
                component_id@,
                wrpc_version@,
            ).0) ==> subject_pairs_view(r.entries_seq()) == subject_pairs_spec(
            exports_view(exports@),
            lattice_name@,
            component_id@,
            wrpc_version@,
        ),
{
    let n = exports.len();
    let mut pairs: Vec<(String, SubjectBinding)> = Vec::new();
    let mut i: usize = 0;
    while i < n
        invariant
            n == exports@.len(),
            i <= n,
            subject_pairs_view(pairs@) == subject_pairs_spec(
                exports_view(exports@.take(i as int)),
                lattice_name@,
                component_id@,
                wrpc_version@,
            ),
            pairs@.len() == i,
            forall|x: int|
                0 <= x < i ==> (#[trigger] pairs@[x]).0@ == subject_pair_spec(
                    exports@[x]@,
                    lattice_name@,
                    component_id@,
                    wrpc_version@,
                ).0,
        decreases n - i,
    {
        let e = &exports[i];
        let op = operation_name(
            e.wit_ns.as_str(),
            e.wit_pkg.as_str(),
            e.wit_iface.as_str(),
            e.wit_iface_fn.as_str(),
        );
        let subject = subject_for(lattice_name, component_id, wrpc_version, op.as_str());
        let binding = SubjectBinding {
            world_key_name: e.world_key_name.clone(),
            function_name: e.function_name.clone(),
            descriptor: DynamicFunctionDescriptor {
                params: e.dynamic_function.params.clone(),
                result: match &e.dynamic_function.result {
                    Some(t) => Some(t.clone()),
                    None => None,
                },
            },
        };
        let ghost before = pairs@;
        pairs.push((subject, binding));
        proof {
            let target = subject_pairs_spec(
                exports_view(exports@.take(i as int + 1)),
                lattice_name@,
                component_id@,
                wrpc_version@,
            );
            assert(exports_view(exports@.take(i as int + 1)).len() == i + 1);
            assert forall|x: int| 0 <= x < pairs@.len() implies subject_pairs_view(pairs@)[x]
                == target[x] by {
                assert(subject_pairs_view(pairs@)[x] == (pairs@[x].0@, pairs@[x].1@));
                assert(exports_view(exports@.take(i as int + 1))[x] == exports@[x]@);
                if x < before.len() {
                    assert(pairs@[x] == before[x]);
                    assert(subject_pairs_view(before)[x] == (before[x].0@, before[x].1@));
                    assert(exports_view(exports@.take(i as int))[x] == exports@[x]@);
                } else {
                    assert(pairs@[x] == (subject, binding));
                    assert(binding@.descriptor.params =~= e.dynamic_function.params@);
                }
            }
            assert(subject_pairs_view(pairs@) =~= target);
        }
        i = i + 1;
    }
    proof {
        assert(exports@.take(n as int) =~= exports@);
    }
    let ghost all_pairs = pairs@;
    let r = NamedTable::from_pairs_last_wins(pairs);
    proof {
        if forall|i: int, j: int|
            0 <= i < j < exports@.len() ==> subject_pair_spec(
                (#[trigger] exports@[i])@,
                lattice_name@,
                component_id@,
                wrpc_version@,
            ).0 != subject_pair_spec(
                (#[trigger] exports@[j])@,
                lattice_name@,
                component_id@,
                wrpc_version@,
            ).0 {
            assert forall|i: int, j: int| 0 <= i < j < all_pairs.len() implies all_pairs[i].0@
                != all_pairs[j].0@ by {
                assert(all_pairs[i].0@ == subject_pair_spec(
                    exports@[i]@,
                    lattice_name@,
                    component_id@,
                    wrpc_version@,
                ).0);
                assert(all_pairs[j].0@ == subject_pair_spec(
                    exports@[j]@,
                    lattice_name@,
                    component_id@,
                    wrpc_version@,
                ).0);
            }
            assert(keys_unique(all_pairs));
        }
    }
    r
}

/// Distinct operation names give distinct subjects under one routing prefix.
pub proof fn lemma_distinct_ops_give_distinct_subjects(
    e1: ExportView,
    e2: ExportView,
    lattice_name: Seq<char>,
    component_id: Seq<char>,
    wrpc_version: Seq<char>,
)
    requires
        operation_name_of(e1.wit_ns, e1.wit_pkg, e1.wit_iface, e1.wit_iface_fn)
            != operation_name_of(e2.wit_ns, e2.wit_pkg, e2.wit_iface, e2.wit_iface_fn),
    ensures
        subject_pair_spec(e1, lattice_name, component_id, wrpc_version).0 != subject_pair_spec(
            e2,
            lattice_name,
            component_id,
            wrpc_version,
        ).0,
{
    crate::names::lemma_subjects_distinct(
        lattice_name,
        component_id,
        wrpc_version,
        operation_name_of(e1.wit_ns, e1.wit_pkg, e1.wit_iface, e1.wit_iface_fn),
        operation_name_of(e2.wit_ns, e2.wit_pkg, e2.wit_iface, e2.wit_iface_fn),
    );
}

/// Two functions of one interface whose kebab-cased names differ are routed
/// by distinct subjects.
pub proof fn lemma_interface_functions_get_distinct_subjects(
    ifc: InterfaceDescriptor,
    f1: FunctionSignature,
    f2: FunctionSignature,
    lattice_name: Seq<char>,
    component_id: Seq<char>,
    wrpc_version: Seq<char>,
)
    requires
        crate::names::kebab_of(f1.name@) != crate::names::kebab_of(f2.name@),
    ensures
        subject_pair_spec(export_view_spec(ifc, f1), lattice_name, component_id, wrpc_version).0
            != subject_pair_spec(
            export_view_spec(ifc, f2),
            lattice_name,
            component_id,
            wrpc_version,
        ).0,
{
    crate::names::lemma_operation_names_distinct(
        ifc.namespace@,
        ifc.package@,
        ifc.name@,
        f1.name@,
        f2.name@,
    );
    lemma_distinct_ops_give_distinct_subjects(
        export_view_spec(ifc, f1),
        export_view_spec(ifc, f2),
        lattice_name,
        component_id,
        wrpc_version,
    );
}

} // verus!
