use lattice_bindgen::bindgen::generate;
use lattice_bindgen::catalog::scrape_type_catalogs;
use lattice_bindgen::catalog::plan_emitted_alias_names;
use lattice_bindgen::catalog::AliasDef;
use lattice_bindgen::catalog::RecordDef;
use lattice_bindgen::catalog::TypeDecl;
use lattice_bindgen::catalog::VariantCase;
use lattice_bindgen::catalog::VariantDef;
use lattice_bindgen::dispatch::build_lattice_methods_by_wit_interface;
use lattice_bindgen::dispatch::dispatch_wrpc_dynamic;
use lattice_bindgen::dispatch::ExportedInterface;
use lattice_bindgen::dispatch::InvocationError;
use lattice_bindgen::imports::build_invocation_handlers;
use lattice_bindgen::model::BindgenError;
use lattice_bindgen::model::BindingConfig;
use lattice_bindgen::model::FunctionSignature;
use lattice_bindgen::model::InterfaceDescriptor;
use lattice_bindgen::model::NamedType;
use lattice_bindgen::model::WitType;
use lattice_bindgen::table::NamedTable;
use lattice_bindgen::wit::extract_witified_map;
use lattice_bindgen::wit::translate_export_fn_for_lattice;
use lattice_bindgen::wrpc::generate_wrpc_nats_subject_to_fn_mapping;
use lattice_bindgen::wrpc::incoming_wrpc_invocations_by_subject;

fn string_ty() -> WitType {
    WitType::StringTy
}

/// The wire shape of a `Vec<(String, String)>` parameter: a list of pairs.
fn witified_map_ty() -> WitType {
    WitType::ListOf(Box::new(WitType::PairOf(
        Box::new(WitType::StringTy),
        Box::new(WitType::StringTy),
    )))
}

fn named(name: &str, ty: WitType) -> NamedType {
    NamedType { name: name.to_string(), ty }
}

fn config(replace_witified_maps: bool) -> BindingConfig {
    BindingConfig {
        impl_struct: "Provider".to_string(),
        contract: "wasmcloud:keyvalue".to_string(),
        wit_ns: None,
        wit_pkg: None,
        exposed_interface_allow_list: Vec::new(),
        exposed_interface_deny_list: Vec::new(),
        replace_witified_maps,
    }
}

fn get_fn() -> FunctionSignature {
    FunctionSignature {
        name: "get".to_string(),
        params: vec![named("key", string_ty())],
        ret: Some(WitType::ResultOf(
            Some(Box::new(WitType::StringTy)),
            Some(Box::new(WitType::StringTy)),
        )),
    }
}

fn keyvalue_export() -> ExportedInterface {
    ExportedInterface {
        path: vec![
            "wasmcloud".to_string(),
            "keyvalue".to_string(),
            "key-value".to_string(),
        ],
        functions: vec![get_fn()],
    }
}

fn keyvalue_import() -> InterfaceDescriptor {
    InterfaceDescriptor {
        namespace: "wasmcloud".to_string(),
        package: "keyvalue".to_string(),
        name: "key-value".to_string(),
        functions: vec![get_fn()],
    }
}

/// Token trees that we expect to parse into WIT-ified maps should parse
#[test]
fn parse_witified_map_type() {
    let parsed = extract_witified_map(&witified_map_ty());
    assert!(
        parsed.is_some(),
        "failed to parse WIT-ified map type Vec<(String, String)>"
    );
    assert_eq!(
        parsed.unwrap(),
        WitType::MapOf(Box::new(WitType::StringTy), Box::new(WitType::StringTy))
    );
}

/// Ensure WIT-ified maps parse correctly in functions
#[test]
fn parse_witified_map_in_fn() {
    let trait_fn = FunctionSignature {
        name: "baz".to_string(),
        params: vec![named("test_map", witified_map_ty())],
        ret: None,
    };
    let bindgen_cfg = BindingConfig {
        impl_struct: "None".into(),
        contract: "wasmcloud:test".into(),
        wit_ns: Some("test".into()),
        wit_pkg: Some("foo".into()),
        exposed_interface_allow_list: Default::default(),
        exposed_interface_deny_list: Default::default(),
        replace_witified_maps: true,
    };
    let cat = scrape_type_catalogs(Vec::new());
    let operation_name = "wasmcloud:test/test.foo".to_string();
    let lm = translate_export_fn_for_lattice(&bindgen_cfg, &cat, operation_name.clone(), &trait_fn)
        .unwrap();

    assert_eq!(lm.operation_name, operation_name);
    assert_eq!(lm.invocation_args.len(), 1);
    assert_eq!(lm.invocation_return, None);
}

/// With map translation enabled, a witified-map parameter is presented as the
/// native associative container in the generated signature.
#[test]
fn witified_map_translation_in_signature() {
    let f = FunctionSignature {
        name: "set-many".to_string(),
        params: vec![named("entries", witified_map_ty())],
        ret: None,
    };
    let cat = scrape_type_catalogs(Vec::new());
    let lm = translate_export_fn_for_lattice(&config(true), &cat, "op".to_string(), &f).unwrap();
    assert_eq!(
        lm.invocation_args[0].ty,
        WitType::MapOf(Box::new(WitType::StringTy), Box::new(WitType::StringTy))
    );
    let lm2 = translate_export_fn_for_lattice(&config(false), &cat, "op".to_string(), &f).unwrap();
    assert_eq!(lm2.invocation_args[0].ty, witified_map_ty());
}

/// Round trip: a key-unique pair sequence decodes into a mapping and encodes
/// back to the very same pairs.
#[test]
fn witified_map_round_trip() {
    let pairs = vec![
        ("a".to_string(), "1".to_string()),
        ("b".to_string(), "2".to_string()),
        ("c".to_string(), "3".to_string()),
    ];
    let table = NamedTable::from_unique_pairs(pairs.clone()).unwrap();
    assert_eq!(table.get("b"), Some(&"2".to_string()));
    assert_eq!(table.get("d"), None);
    let encoded = table.to_pairs();
    assert_eq!(encoded, pairs);
}

/// A duplicate key in the pair sequence is rejected, not silently resolved.
#[test]
fn witified_map_duplicate_key_rejected() {
    let pairs = vec![
        ("a".to_string(), "1".to_string()),
        ("b".to_string(), "2".to_string()),
        ("a".to_string(), "3".to_string()),
    ];
    let r = NamedTable::from_unique_pairs(pairs);
    assert_eq!(r.unwrap_err(), "a".to_string());
}

/// Scenario: `wasmcloud:keyvalue/key-value` with `get(key: string) ->
/// result<string, string>` yields the canonical operation name, one
/// capability method, and exactly one dispatch arm matching it.
#[test]
fn scenario_keyvalue_get() {
    let cfg = config(false);
    let cat = scrape_type_catalogs(Vec::new());
    let ifaces =
        build_lattice_methods_by_wit_interface(&cfg, &cat, &vec![keyvalue_export()]).unwrap();
    assert_eq!(ifaces.len(), 1);
    assert_eq!(ifaces[0].trait_name, "WasmcloudKeyvalueKeyValue");
    assert_eq!(ifaces[0].contract_id, "wasmcloud:keyvalue");
    assert_eq!(ifaces[0].methods.len(), 1);
    let m = &ifaces[0].methods[0];
    assert_eq!(m.operation_name, "wasmcloud:keyvalue/key-value.get");
    assert_eq!(m.func_name, "get");
    assert_eq!(m.invocation_args, vec![named("key", string_ty())]);

    let sel = dispatch_wrpc_dynamic(
        &ifaces,
        "wasmcloud:keyvalue/key-value.get",
        vec!["encoded-key".to_string()],
    )
    .unwrap();
    assert_eq!(sel.trait_name, "WasmcloudKeyvalueKeyValue");
    assert_eq!(sel.func_name, "get");
    assert_eq!(
        sel.args,
        vec![("key".to_string(), "encoded-key".to_string())]
    );
}

/// Scenario: a sole record parameter `put-args { key: string, value: string }`
/// flattens into `key: string, value: string`.
#[test]
fn scenario_record_flattening() {
    let decls = vec![TypeDecl::Record(
        "put-args".to_string(),
        RecordDef {
            path: vec!["exports".to_string(), "put_args".to_string()],
            fields: vec![named("key", string_ty()), named("value", string_ty())],
        },
    )];
    let cat = scrape_type_catalogs(decls);
    let f = FunctionSignature {
        name: "put".to_string(),
        params: vec![named("args", WitType::Named("put-args".to_string()))],
        ret: None,
    };
    let lm = translate_export_fn_for_lattice(&config(false), &cat, "op".to_string(), &f).unwrap();
    assert_eq!(
        lm.invocation_args,
        vec![named("key", string_ty()), named("value", string_ty())]
    );
}

/// Scenario: a function whose sole parameter type is not in the record
/// catalog is passed through unflattened as one named argument.
#[test]
fn scenario_passthrough_param() {
    let decls = vec![TypeDecl::Alias(
        "blob".to_string(),
        AliasDef {
            path: vec!["exports".to_string(), "blob".to_string()],
            target: WitType::ListOf(Box::new(WitType::U8)),
        },
    )];
    let cat = scrape_type_catalogs(decls);
    let f = FunctionSignature {
        name: "store".to_string(),
        params: vec![named("data", WitType::Named("blob".to_string()))],
        ret: None,
    };
    let lm = translate_export_fn_for_lattice(&config(false), &cat, "op".to_string(), &f).unwrap();
    assert_eq!(
        lm.invocation_args,
        vec![named("data", WitType::Named("blob".to_string()))]
    );
}

/// Scenario: the subject table maps
/// `<domain>.<component>.<tag>.<version>.<operation>` to the world-key name,
/// function name and descriptor.
#[test]
fn scenario_subject_table() {
    let exports = vec![keyvalue_import()];
    let mapping = generate_wrpc_nats_subject_to_fn_mapping(&exports);
    assert_eq!(mapping.len(), 1);
    let table = incoming_wrpc_invocations_by_subject(&mapping, "default", "comp-1", "0.0.1");
    let entry = table
        .get("default.comp-1.wrpc.0.0.1.wasmcloud:keyvalue/key-value.get")
        .expect("subject missing from table");
    assert_eq!(entry.world_key_name, "KeyValue");
    assert_eq!(entry.function_name, "get");
    assert_eq!(entry.descriptor.params, vec![named("key", string_ty())]);
}

/// Distinct functions of one interface get distinct operation names, and the
/// kebab-case conversion is applied to each segment.
#[test]
fn operation_names_distinct_and_kebab_cased() {
    let cfg = config(false);
    let cat = scrape_type_catalogs(Vec::new());
    let iface = ExportedInterface {
        path: vec![
            "wasmcloud".to_string(),
            "keyvalue".to_string(),
            "keyValue".to_string(),
        ],
        functions: vec![
            FunctionSignature {
                name: "getAll".to_string(),
                params: Vec::new(),
                ret: None,
            },
            FunctionSignature {
                name: "set".to_string(),
                params: Vec::new(),
                ret: None,
            },
        ],
    };
    let ifaces = build_lattice_methods_by_wit_interface(&cfg, &cat, &vec![iface]).unwrap();
    let ops: Vec<&str> = ifaces[0]
        .methods
        .iter()
        .map(|m| m.operation_name.as_str())
        .collect();
    assert_eq!(
        ops,
        vec![
            "wasmcloud:keyvalue/key-value.get-all",
            "wasmcloud:keyvalue/key-value.set"
        ]
    );
    assert_ne!(ops[0], ops[1]);
}

/// No two generated subjects coincide.
#[test]
fn subjects_distinct() {
    let mut iface = keyvalue_import();
    iface.functions.push(FunctionSignature {
        name: "set".to_string(),
        params: vec![named("key", string_ty()), named("value", string_ty())],
        ret: None,
    });
    let mapping = generate_wrpc_nats_subject_to_fn_mapping(&vec![iface]);
    let table = incoming_wrpc_invocations_by_subject(&mapping, "default", "c", "0.0.1");
    assert_eq!(table.len(), 2);
    assert!(table.get("default.c.wrpc.0.0.1.wasmcloud:keyvalue/key-value.get").is_some());
    assert!(table.get("default.c.wrpc.0.0.1.wasmcloud:keyvalue/key-value.set").is_some());
}

/// Exclusion: the bus-control and generic I/O interfaces get no import stub,
/// no dispatch arm and no subject entry.
#[test]
fn excluded_interfaces_generate_nothing() {
    let cfg = config(false);
    let cat = scrape_type_catalogs(Vec::new());
    let bus = InterfaceDescriptor {
        namespace: "wasmcloud".to_string(),
        package: "bus".to_string(),
        name: "lattice".to_string(),
        functions: vec![get_fn()],
    };
    let io = InterfaceDescriptor {
        namespace: "wasi".to_string(),
        package: "io".to_string(),
        name: "streams".to_string(),
        functions: vec![get_fn()],
    };
    let imports = vec![bus, io, keyvalue_import()];
    let handlers = build_invocation_handlers(&cfg, &cat, &imports).unwrap();
    assert_eq!(handlers.len(), 1);
    assert_eq!(handlers[0].operation_name, "wasmcloud:keyvalue/key-value.get");

    let bus_export = ExportedInterface {
        path: vec![
            "wasmcloud".to_string(),
            "bus".to_string(),
            "lattice".to_string(),
        ],
        functions: vec![get_fn()],
    };
    let ifaces =
        build_lattice_methods_by_wit_interface(&cfg, &cat, &vec![bus_export, keyvalue_export()])
            .unwrap();
    assert_eq!(ifaces.len(), 1);
    assert_eq!(ifaces[0].trait_name, "WasmcloudKeyvalueKeyValue");

    let bus_iface = InterfaceDescriptor {
        namespace: "wasmcloud".to_string(),
        package: "bus".to_string(),
        name: "lattice".to_string(),
        functions: vec![get_fn()],
    };
    let mapping = generate_wrpc_nats_subject_to_fn_mapping(&vec![bus_iface, keyvalue_import()]);
    assert_eq!(mapping.len(), 1);
    assert_eq!(mapping[0].wit_pkg, "keyvalue");
}

/// An interface path without exactly three segments aborts generation.
#[test]
fn malformed_interface_path_rejected() {
    let cfg = config(false);
    let cat = scrape_type_catalogs(Vec::new());
    let bad = ExportedInterface {
        path: vec!["wasmcloud".to_string(), "keyvalue".to_string()],
        functions: vec![get_fn()],
    };
    let r = build_lattice_methods_by_wit_interface(&cfg, &cat, &vec![bad]);
    assert_eq!(r.unwrap_err(), BindgenError::MalformedInterfacePath);
}

/// A referenced type name that no catalog resolves aborts generation and
/// names the type.
#[test]
fn unresolved_type_rejected() {
    let cat = scrape_type_catalogs(Vec::new());
    let f = FunctionSignature {
        name: "put".to_string(),
        params: vec![named("args", WitType::Named("missing".to_string()))],
        ret: None,
    };
    let r = translate_export_fn_for_lattice(&config(false), &cat, "op".to_string(), &f);
    assert_eq!(r.unwrap_err(), BindgenError::UnresolvedType("missing".to_string()));
}

/// An operation name with no dispatch arm yields a malformed-operation
/// failure naming the operation.
#[test]
fn dispatch_malformed_operation() {
    let cfg = config(false);
    let cat = scrape_type_catalogs(Vec::new());
    let ifaces =
        build_lattice_methods_by_wit_interface(&cfg, &cat, &vec![keyvalue_export()]).unwrap();
    let r = dispatch_wrpc_dynamic(&ifaces, "wasmcloud:keyvalue/key-value.del", vec![0u8]);
    assert_eq!(
        r.unwrap_err(),
        InvocationError::MalformedOperation {
            operation: "wasmcloud:keyvalue/key-value.del".to_string()
        }
    );
}

/// A missing argument value during decode names the parameter it was for.
#[test]
fn dispatch_missing_parameter() {
    let cfg = config(false);
    let cat = scrape_type_catalogs(Vec::new());
    let iface = ExportedInterface {
        path: vec![
            "wasmcloud".to_string(),
            "keyvalue".to_string(),
            "key-value".to_string(),
        ],
        functions: vec![FunctionSignature {
            name: "set".to_string(),
            params: vec![named("key", string_ty()), named("value", string_ty())],
            ret: None,
        }],
    };
    let ifaces = build_lattice_methods_by_wit_interface(&cfg, &cat, &vec![iface]).unwrap();
    let r = dispatch_wrpc_dynamic(
        &ifaces,
        "wasmcloud:keyvalue/key-value.set",
        vec!["only-one".to_string()],
    );
    assert_eq!(
        r.unwrap_err(),
        InvocationError::MissingParameter {
            parameter: "value".to_string()
        }
    );
}

/// One value is consumed per declared argument, from the back of the
/// incoming collection, in declaration order.
#[test]
fn dispatch_binds_values_from_the_back() {
    let cfg = config(false);
    let cat = scrape_type_catalogs(Vec::new());
    let iface = ExportedInterface {
        path: vec![
            "wasmcloud".to_string(),
            "keyvalue".to_string(),
            "key-value".to_string(),
        ],
        functions: vec![FunctionSignature {
            name: "set".to_string(),
            params: vec![named("key", string_ty()), named("value", string_ty())],
            ret: None,
        }],
    };
    let ifaces = build_lattice_methods_by_wit_interface(&cfg, &cat, &vec![iface]).unwrap();
    let sel = dispatch_wrpc_dynamic(
        &ifaces,
        "wasmcloud:keyvalue/key-value.set",
        vec![10u32, 20u32],
    )
    .unwrap();
    assert_eq!(
        sel.args,
        vec![("key".to_string(), 20u32), ("value".to_string(), 10u32)]
    );
}

/// The catalogs key every declared type once by its simple name, and an
/// alias shadowed by a record or variant is dropped from the emitted list.
#[test]
fn catalog_scrape_and_alias_dedup() {
    let decls = vec![
        TypeDecl::Record(
            "put-args".to_string(),
            RecordDef {
                path: vec!["exports".to_string()],
                fields: vec![named("key", string_ty())],
            },
        ),
        TypeDecl::Variant(
            "status".to_string(),
            VariantDef {
                path: vec!["exports".to_string()],
                cases: vec![
                    VariantCase {
                        name: "ok".to_string(),
                        payload: None,
                    },
                    VariantCase {
                        name: "err".to_string(),
                        payload: Some(WitType::StringTy),
                    },
                ],
            },
        ),
        TypeDecl::Alias(
            "put-args".to_string(),
            AliasDef {
                path: vec!["exports".to_string()],
                target: WitType::Named("put-args".to_string()),
            },
        ),
        TypeDecl::Alias(
            "blob".to_string(),
            AliasDef {
                path: vec!["exports".to_string()],
                target: WitType::ListOf(Box::new(WitType::U8)),
            },
        ),
    ];
    let cat = scrape_type_catalogs(decls);
    assert!(cat.records.get("put-args").is_some());
    assert!(cat.variants.get("status").is_some());
    assert!(cat.aliases.get("blob").is_some());
    let emitted = plan_emitted_alias_names(&cat);
    assert_eq!(emitted, vec!["blob".to_string()]);
}

/// Import stubs carry the canonical operation name, with the configured
/// namespace override applied when one is given.
#[test]
fn import_stub_operation_names() {
    let cat = scrape_type_catalogs(Vec::new());
    let handlers = build_invocation_handlers(&config(false), &cat, &vec![keyvalue_import()])
        .unwrap();
    assert_eq!(handlers[0].operation_name, "wasmcloud:keyvalue/key-value.get");
    assert_eq!(handlers[0].func_name, "get");

    let mut cfg = config(false);
    cfg.wit_ns = Some("vendor".to_string());
    let overridden = build_invocation_handlers(&cfg, &cat, &vec![keyvalue_import()]).unwrap();
    assert_eq!(
        overridden[0].operation_name,
        "vendor:keyvalue/key-value.get"
    );
}

/// The whole generation run: catalogs, dispatch table, import stubs and
/// routing data from one input graph.
#[test]
fn generate_end_to_end() {
    let cfg = config(true);
    let decls = vec![TypeDecl::Record(
        "put-args".to_string(),
        RecordDef {
            path: vec!["exports".to_string()],
            fields: vec![named("key", string_ty()), named("value", string_ty())],
        },
    )];
    let cat = scrape_type_catalogs(decls);
    let mut export = keyvalue_export();
    export.functions.push(FunctionSignature {
        name: "put".to_string(),
        params: vec![named("args", WitType::Named("put-args".to_string()))],
        ret: None,
    });
    let exports_resolved = vec![keyvalue_import()];
    let g = generate(
        &cfg,
        &cat,
        &vec![export],
        &vec![keyvalue_import()],
        &exports_resolved,
    )
    .unwrap();
    assert_eq!(g.capability_interfaces.len(), 1);
    assert_eq!(g.capability_interfaces[0].methods.len(), 2);
    assert_eq!(
        g.capability_interfaces[0].methods[1].invocation_args,
        vec![named("key", string_ty()), named("value", string_ty())]
    );
    assert_eq!(g.invocation_handler_methods.len(), 1);
    assert_eq!(g.wrpc_exports.len(), 1);
    assert!(g.emitted_alias_names.is_empty());
}

/// A method with no declared arguments dispatches with an empty binding and
/// consumes nothing.
#[test]
fn dispatch_zero_argument_method() {
    let cfg = config(false);
    let cat = scrape_type_catalogs(Vec::new());
    let iface = ExportedInterface {
        path: vec![
            "wasmcloud".to_string(),
            "keyvalue".to_string(),
            "key-value".to_string(),
        ],
        functions: vec![FunctionSignature {
            name: "clear".to_string(),
            params: Vec::new(),
            ret: None,
        }],
    };
    let ifaces = build_lattice_methods_by_wit_interface(&cfg, &cat, &vec![iface]).unwrap();
    let sel = dispatch_wrpc_dynamic(
        &ifaces,
        "wasmcloud:keyvalue/key-value.clear",
        Vec::<u8>::new(),
    )
    .unwrap();
    assert_eq!(sel.func_name, "clear");
    assert!(sel.args.is_empty());
}

/// A later declaration of the same name overrides an earlier one, keeping
/// one catalog entry per name.
#[test]
fn catalog_later_declaration_overrides() {
    let decls = vec![
        TypeDecl::Record(
            "put-args".to_string(),
            RecordDef {
                path: vec!["a".to_string()],
                fields: vec![named("key", string_ty())],
            },
        ),
        TypeDecl::Record(
            "put-args".to_string(),
            RecordDef {
                path: vec!["b".to_string()],
                fields: vec![named("key", string_ty()), named("value", string_ty())],
            },
        ),
    ];
    let cat = scrape_type_catalogs(decls);
    let def = cat.records.get("put-args").unwrap();
    assert_eq!(def.path, vec!["b".to_string()]);
    assert_eq!(def.fields.len(), 2);
}

/// An empty input graph generates empty artifacts.
#[test]
fn generate_empty_input() {
    let cat = scrape_type_catalogs(Vec::new());
    let g = generate(
        &config(false),
        &cat,
        &Vec::new(),
        &Vec::new(),
        &Vec::new(),
    )
    .unwrap();
    assert!(g.capability_interfaces.is_empty());
    assert!(g.invocation_handler_methods.is_empty());
    assert!(g.wrpc_exports.is_empty());
    assert!(g.emitted_alias_names.is_empty());
    let table = incoming_wrpc_invocations_by_subject(&g.wrpc_exports, "d", "c", "v");
    assert_eq!(table.len(), 0);
}
