//! The import invocation builder: for every function the component imports,
//! a stub method that encodes its arguments in declared order, invokes the
//! transport by the function's canonical operation name, and decodes the
//! result.
//!
//! Host-intrinsic interfaces (the bus-control and generic I/O packages) never
//! travel over the lattice: no stub is ever generated for them, whatever the
//! allow/deny configuration says.

use vstd::prelude::*;
use crate::catalog::TypeCatalog;
use crate::dispatch::methods_view;
use crate::model::BindgenError;
use crate::model::BindingConfig;
use crate::model::FunctionSignature;
use crate::model::InterfaceDescriptor;
use crate::policy::is_ignored_invocation_handler_pkg;
use crate::policy::is_ignored_pkg_spec;
use crate::wit::LatticeMethod;
use crate::wit::MethodView;
use crate::wit::import_method_view_spec;
use crate::wit::sig_has_unresolved;
use crate::wit::sig_resolves;
use crate::wit::translate_import_fn_for_lattice;

verus! {

/// Whether an imported interface belongs to a host-intrinsic package.
pub open spec fn ignored_import(ifc: InterfaceDescriptor) -> bool {
    is_ignored_pkg_spec(ifc.namespace@, ifc.package@)
}

/// The stub methods one imported interface contributes, one per function.
pub open spec fn iface_import_methods_spec(
    cat: TypeCatalog,
    cfg: BindingConfig,
    ifc: InterfaceDescriptor,
    fs: Seq<FunctionSignature>,
) -> Seq<MethodView> {
    fs.map_values(|f: FunctionSignature| import_method_view_spec(cat, cfg, ifc, f))
}

/// All the stub methods of an import list: the functions of every
/// non-ignored interface, in declaration order.
pub open spec fn import_methods_spec(
    cat: TypeCatalog,
    cfg: BindingConfig,
    s: Seq<InterfaceDescriptor>,
) -> Seq<MethodView>
    decreases s.len(),
{
    if s.len() == 0 {
        Seq::empty()
    } else {
        let rest = import_methods_spec(cat, cfg, s.drop_last());
        if ignored_import(s.last()) {
            rest
        } else {
            rest + iface_import_methods_spec(cat, cfg, s.last(), s.last().functions@)
        }
    }
}

/// One step of the stub list: extending the input by one interface appends
/// its stubs, if it has any.
proof fn lemma_import_methods_take_succ(
    cat: TypeCatalog,
    cfg: BindingConfig,
    s: Seq<InterfaceDescriptor>,
    i: int,
)
    requires
        0 <= i < s.len(),
    ensures
        import_methods_spec(cat, cfg, s.take(i + 1)) == import_methods_spec(cat, cfg, s.take(i))
            + (if ignored_import(s[i]) {
            Seq::<MethodView>::empty()
        } else {
            iface_import_methods_spec(cat, cfg, s[i], s[i].functions@)
        }),
{
    assert(s.take(i + 1).drop_last() =~= s.take(i));
    assert(s.take(i + 1).last() == s[i]);
    if ignored_import(s[i]) {
        assert(import_methods_spec(cat, cfg, s.take(i + 1)) =~= import_methods_spec(
            cat,
            cfg,
            s.take(i),
        ) + Seq::<MethodView>::empty());
    }
}

/// Whether the import list admits complete stub generation: every function
/// of a non-ignored interface resolves.
pub open spec fn import_input_ok(cat: TypeCatalog, s: Seq<InterfaceDescriptor>) -> bool {
    forall|i: int|
        0 <= i < s.len() && !ignored_import(#[trigger] s[i]) ==> forall|j: int|
            0 <= j < s[i].functions@.len() ==> sig_resolves(cat, #[trigger] s[i].functions@[j])
}

/// Exclusion: a host-intrinsic interface contributes nothing — removing it
/// from the import list leaves the generated stubs unchanged.
pub proof fn lemma_import_stubs_exclude_ignored(
    cat: TypeCatalog,
    cfg: BindingConfig,
    s: Seq<InterfaceDescriptor>,
    i: int,
)
    requires
        0 <= i < s.len(),
        ignored_import(s[i]),
    ensures
        import_methods_spec(cat, cfg, s) == import_methods_spec(cat, cfg, s.remove(i)),
    decreases s.len(),
{
    if i == s.len() - 1 {
        assert(s.remove(i) =~= s.drop_last());
    } else {
        lemma_import_stubs_exclude_ignored(cat, cfg, s.drop_last(), i);
        assert(s.remove(i).drop_last() =~= s.drop_last().remove(i));
        assert(s.remove(i).last() == s.last());
        if ignored_import(s.last()) {
            assert(import_methods_spec(cat, cfg, s) =~= import_methods_spec(
                cat,
                cfg,
                s.remove(i),
            ));
        } else {
            assert(import_methods_spec(cat, cfg, s) =~= import_methods_spec(
                cat,
                cfg,
                s.remove(i),
            ));
        }
    }
}

/// Builds the invocation-handler stub methods for every function the
/// component imports, skipping host-intrinsic interfaces.
#[verifier::loop_isolation(false)]
pub fn build_invocation_handlers(
    cfg: &BindingConfig,
    cat: &TypeCatalog,
    imports: &Vec<InterfaceDescriptor>,
) -> (r: Result<Vec<LatticeMethod>, BindgenError>)
    requires
        cat.wf(),
    ensures
        r is Ok <==> import_input_ok(*cat, imports@),
        match r {
            Ok(v) => methods_view(v@) == import_methods_spec(*cat, *cfg, imports@),
            Err(e) => match e {
                BindgenError::UnresolvedType(k) => exists|i: int, j: int|
                    #![auto]
                    0 <= i < imports@.len() && !ignored_import(imports@[i]) && 0 <= j
                        < imports@[i].functions@.len() && sig_has_unresolved(
                        *cat,
                        imports@[i].functions@[j],
                        k@,
                    ),
                _ => false,
            },
        },
{
    let n = imports.len();
    let mut out: Vec<LatticeMethod> = Vec::new();
    let mut i: usize = 0;
    while i < n
        invariant
            cat.wf(),
            n == imports@.len(),
            i <= n,
            forall|k: int|
                0 <= k < i && !ignored_import(#[trigger] imports@[k]) ==> forall|j: int|
                    0 <= j < imports@[k].functions@.len() ==> sig_resolves(
                        *cat,
                        #[trigger] imports@[k].functions@[j],
                    ),
            methods_view(out@) == import_methods_spec(*cat, *cfg, imports@.take(i as int)),
        decreases n - i,
    {
        let ifc = &imports[i];
        proof {
            lemma_import_methods_take_succ(*cat, *cfg, imports@, i as int);
        }
        let ignored = is_ignored_invocation_handler_pkg(
            ifc.namespace.as_str(),
            ifc.package.as_str(),
        );
        if !ignored {
            let fn_count = ifc.functions.len();
            let mut j: usize = 0;
            while j < fn_count
                invariant
                    fn_count == ifc.functions@.len(),
                    j <= fn_count,
                    !ignored_import(imports@[i as int]),
                    forall|k: int|
                        0 <= k < j ==> sig_resolves(*cat, #[trigger] ifc.functions@[k]),
                    methods_view(out@) == import_methods_spec(*cat, *cfg, imports@.take(i as int))
                        + iface_import_methods_spec(
                        *cat,
                        *cfg,
                        imports@[i as int],
                        ifc.functions@.take(j as int),
                    ),
                decreases fn_count - j,
            {
                let f = &ifc.functions[j];
                match translate_import_fn_for_lattice(cfg, cat, ifc, f) {
                    Ok(m) => {
                        let ghost before = out@;
                        out.push(m);
                        proof {
                            let target = import_methods_spec(
                                *cat,
                                *cfg,
                                imports@.take(i as int),
                            ) + iface_import_methods_spec(
                                *cat,
                                *cfg,
                                imports@[i as int],
                                ifc.functions@.take(j as int + 1),
                            );
                            assert(out@ == before.push(m));
                            assert forall|x: int| 0 <= x < out@.len() implies methods_view(out@)[x]
                                == target[x] by {
                                assert(methods_view(out@)[x] == out@[x]@);
                                if x < before.len() {
                                    assert(out@[x] == before[x]);
                                    assert(methods_view(before)[x] == before[x]@);
                                } else {
                                    assert(out@[x] == m);
                                    assert(ifc.functions@.take(j as int + 1)[j as int]
                                        == ifc.functions@[j as int]);
                                }
                            }
                            assert(methods_view(out@) =~= target);
                        }
                    },
                    Err(e) => {
                        return Err(e);
                    },
                }
                j = j + 1;
            }
            proof {
                assert(ifc.functions@.take(fn_count as int) =~= ifc.functions@);
            }
        }
        i = i + 1;
    }
    proof {
        assert(imports@.take(n as int) =~= imports@);
    }
    Ok(out)
}

} // verus!
