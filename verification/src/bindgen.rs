//! The generation driver: one run over a fixed input graph produces every
//! wire-facing artifact, or fails as a whole — no partial output is ever
//! handed out, since partially generated bindings would silently
//! desynchronize the wire contract.

use vstd::prelude::*;
use crate::catalog::TypeCatalog;
use crate::catalog::emitted_alias_names_of;
use crate::catalog::plan_emitted_alias_names;
use crate::dispatch::CapabilityInterface;
use crate::dispatch::ExportedInterface;
use crate::dispatch::build_lattice_methods_by_wit_interface;
use crate::dispatch::capability_interfaces_spec;
use crate::dispatch::export_input_ok;
use crate::dispatch::ifaces_view;
use crate::dispatch::methods_view;
use crate::imports::build_invocation_handlers;
use crate::imports::import_input_ok;
use crate::imports::import_methods_spec;
use crate::model::BindgenError;
use crate::model::BindingConfig;
use crate::model::InterfaceDescriptor;
use crate::policy::is_ignored_pkg_spec;
use crate::wit::LatticeMethod;
use crate::wrpc::WrpcExport;
use crate::wrpc::exports_view;
use crate::wrpc::generate_wrpc_nats_subject_to_fn_mapping;
use crate::wrpc::wrpc_exports_spec;

verus! {

/// Everything one generation run produces: the emitted type plan, the
/// per-interface capability definitions with their dispatch methods, the
/// import invocation stubs, and the wire-routing data the subject table is
/// built from at process start.
pub struct GeneratedBindings {
    pub emitted_alias_names: Vec<String>,
    pub capability_interfaces: Vec<CapabilityInterface>,
    pub invocation_handler_methods: Vec<LatticeMethod>,
    pub wrpc_exports: Vec<WrpcExport>,
}

/// Runs the whole generation: alias planning, the dispatch table, the import
/// stubs and the wire-routing data.  It succeeds exactly when every exported
/// interface path is well-formed and every referenced type of every
/// non-ignored function resolves; any failure aborts the run with no output.
pub fn generate(
    cfg: &BindingConfig,
    cat: &TypeCatalog,
    export_trait_methods: &Vec<ExportedInterface>,
    imports: &Vec<InterfaceDescriptor>,
    exports: &Vec<InterfaceDescriptor>,
) -> (r: Result<GeneratedBindings, BindgenError>)
    requires
        cat.wf(),
    ensures
        r is Ok <==> (export_input_ok(*cat, export_trait_methods@) && import_input_ok(
            *cat,
            imports@,
        )),
        match r {
            Ok(g) => {
                &&& g.emitted_alias_names@.map_values(|s: String| s@) == emitted_alias_names_of(
                    cat.aliases.entries_seq(),
                    cat.records@,
                    cat.variants@,
                )
                &&& ifaces_view(g.capability_interfaces@) == capability_interfaces_spec(
                    *cat,
                    *cfg,
                    export_trait_methods@,
                )
                &&& forall|k: int|
                    0 <= k < g.capability_interfaces@.len() ==> !is_ignored_pkg_spec(
                        (#[trigger] g.capability_interfaces@[k])@.namespace,
                        g.capability_interfaces@[k]@.package,
                    )
                &&& methods_view(g.invocation_handler_methods@) == import_methods_spec(
                    *cat,
                    *cfg,
                    imports@,
                )
                &&& exports_view(g.wrpc_exports@) == wrpc_exports_spec(exports@)
            },
            Err(_) => true,
        },
{
    let emitted_alias_names = plan_emitted_alias_names(cat);
    let capability_interfaces = match build_lattice_methods_by_wit_interface(
        cfg,
        cat,
        export_trait_methods,
    ) {
        Ok(v) => v,
        Err(e) => {
            return Err(e);
        },
    };
    let invocation_handler_methods = match build_invocation_handlers(cfg, cat, imports) {
        Ok(v) => v,
        Err(e) => {
            return Err(e);
        },
    };
    let wrpc_exports = generate_wrpc_nats_subject_to_fn_mapping(exports);
    Ok(
        GeneratedBindings {
            emitted_alias_names,
            capability_interfaces,
            invocation_handler_methods,
            wrpc_exports,
        },
    )
}

} // verus!
