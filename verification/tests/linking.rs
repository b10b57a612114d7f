use evm_asm::disasm::{CallReport, ModuleStructs, Report};
use evm_asm::errors::MoveError;
use evm_asm::model::{
    Bytecode, CodeUnit, CompiledModule, CompiledScript, Constant, ConstantTag, FieldInfo,
    FunctionDefinition, FunctionHandle, ModuleHandle, StructDefinition,
};
use evm_asm::resolver::module_resolution;
use evm_asm::MoveCode;

fn b(s: &str) -> Vec<u8> {
    s.as_bytes().to_vec()
}

fn empty_script() -> CompiledScript {
    CompiledScript {
        module_handles: vec![],
        identifiers: vec![],
        address_identifiers: vec![],
        function_handles: vec![],
        constant_pool: vec![],
        code: CodeUnit { code: vec![] },
    }
}

/// A module named "Registry" at address 0xA exporting "get" with body
/// [MoveLoc(0), Ret].
fn registry_module() -> CompiledModule {
    CompiledModule {
        self_module_handle_idx: 0,
        module_handles: vec![ModuleHandle { address: 0, name: 0 }],
        identifiers: vec![b("Registry"), b("get")],
        address_identifiers: vec![vec![0x0A]],
        function_handles: vec![FunctionHandle { module: 0, name: 1 }],
        function_defs: vec![FunctionDefinition {
            function: 0,
            code: Some(CodeUnit { code: vec![Bytecode::MoveLoc(0), Bytecode::Ret] }),
        }],
        struct_defs: vec![],
    }
}

/// A script declaring one handle for ("Registry", 0xA) and calling its
/// function "get".
fn registry_script() -> CompiledScript {
    CompiledScript {
        module_handles: vec![ModuleHandle { address: 0, name: 0 }],
        identifiers: vec![b("Registry"), b("get")],
        address_identifiers: vec![vec![0x0A]],
        function_handles: vec![FunctionHandle { module: 0, name: 1 }],
        constant_pool: vec![],
        code: CodeUnit { code: vec![Bytecode::Call(0)] },
    }
}

#[test]
fn resolution_maps_matching_module() {
    let script = registry_script();
    let res = module_resolution(
        &script.module_handles,
        &script.identifiers,
        &script.address_identifiers,
        vec![registry_module()],
    );
    assert_eq!(res.len(), 1);
    assert_eq!(res[0].0, ModuleHandle { address: 0, name: 0 });
    assert_eq!(res[0].1.identifiers[0], b("Registry"));
}

#[test]
fn resolution_leaves_unmatched_handle_absent() {
    let script = registry_script();
    let mut other = registry_module();
    other.identifiers[0] = b("SomethingElse");
    let res = module_resolution(
        &script.module_handles,
        &script.identifiers,
        &script.address_identifiers,
        vec![other],
    );
    assert_eq!(res.len(), 0);
}

#[test]
fn resolution_last_matching_candidate_wins() {
    let script = registry_script();
    let first = registry_module();
    let mut second = registry_module();
    second.function_defs[0].code = Some(CodeUnit { code: vec![Bytecode::Pop] });
    let res = module_resolution(
        &script.module_handles,
        &script.identifiers,
        &script.address_identifiers,
        vec![first, second],
    );
    assert_eq!(res.len(), 1);
    let body = res[0].1.function_defs[0].code.as_ref().unwrap();
    assert_eq!(body.code, vec![Bytecode::Pop]);
}

#[test]
fn resolution_ignores_address_mismatch() {
    let script = registry_script();
    let mut elsewhere = registry_module();
    elsewhere.address_identifiers[0] = vec![0x0B];
    let res = module_resolution(
        &script.module_handles,
        &script.identifiers,
        &script.address_identifiers,
        vec![elsewhere],
    );
    assert_eq!(res.len(), 0);
}

#[test]
fn cross_pool_indices_do_not_matter_content_does() {
    // The script stores "Registry" and "get" at indices 1 and 2; the
    // module stores "get" at 0 and "Registry" at 1.  Only content may
    // decide the match.
    let script = CompiledScript {
        module_handles: vec![ModuleHandle { address: 0, name: 1 }],
        identifiers: vec![b("pad"), b("Registry"), b("get")],
        address_identifiers: vec![vec![0x0A]],
        function_handles: vec![FunctionHandle { module: 0, name: 2 }],
        constant_pool: vec![],
        code: CodeUnit { code: vec![Bytecode::Call(0)] },
    };
    let module = CompiledModule {
        self_module_handle_idx: 0,
        module_handles: vec![ModuleHandle { address: 0, name: 1 }],
        identifiers: vec![b("get"), b("Registry")],
        address_identifiers: vec![vec![0x0A]],
        function_handles: vec![FunctionHandle { module: 0, name: 0 }],
        function_defs: vec![FunctionDefinition {
            function: 0,
            code: Some(CodeUnit { code: vec![Bytecode::Ret] }),
        }],
        struct_defs: vec![],
    };
    let linked = MoveCode::new(script, vec![module]);
    let unit = linked.resolve_call(0).unwrap();
    assert_eq!(unit.code, vec![Bytecode::Ret]);
}

#[test]
fn equal_indices_with_different_content_do_not_match() {
    // The module's function name sits at the same pool index as the
    // script's target name but spells different bytes: no match.
    let script = registry_script();
    let mut module = registry_module();
    module.identifiers[1] = b("got");
    let linked = MoveCode::new(script, vec![module]);
    assert_eq!(linked.resolve_call(0), Err(MoveError::ModuleMissing));
}

#[test]
fn resolve_call_module_missing_when_never_supplied() {
    let linked = MoveCode::new(registry_script(), vec![]);
    assert_eq!(linked.resolve_call(0), Err(MoveError::ModuleMissing));
}

#[test]
fn resolve_call_invalid_module_when_code_absent() {
    let mut module = registry_module();
    module.function_defs[0].code = None;
    let linked = MoveCode::new(registry_script(), vec![module]);
    assert_eq!(linked.resolve_call(0), Err(MoveError::InvalidModule));
}

#[test]
fn resolve_call_errors_are_distinct() {
    assert_ne!(MoveError::ModuleMissing, MoveError::InvalidModule);
}

#[test]
fn resolve_call_out_of_range_handle() {
    let linked = MoveCode::new_no_mods(empty_script());
    assert_eq!(linked.resolve_call(0), Err(MoveError::IndexOutOfRange));
}

#[test]
fn pool_lookups_out_of_range_are_errors() {
    let linked = MoveCode::new_no_mods(empty_script());
    assert_eq!(linked.module_handle(0), Err(MoveError::IndexOutOfRange));
    assert_eq!(linked.identifier_resolve(3), Err(MoveError::IndexOutOfRange));
    assert_eq!(linked.fn_handle(1), Err(MoveError::IndexOutOfRange));
    assert!(linked.resolve_const(0).is_err());
}

#[test]
fn pool_lookups_in_range() {
    let linked = MoveCode::new(registry_script(), vec![registry_module()]);
    assert_eq!(linked.module_handle(0), Ok(ModuleHandle { address: 0, name: 0 }));
    assert_eq!(linked.identifier_resolve(1), Ok(b("get")));
    assert_eq!(linked.fn_handle(0), Ok(FunctionHandle { module: 0, name: 1 }));
}

#[test]
fn const_to_vec8_extracts_byte_vector() {
    let mut script = empty_script();
    script.constant_pool.push(Constant {
        tag: ConstantTag::VectorU8,
        data: vec![3, 1, 2, 3],
    });
    let linked = MoveCode::new_no_mods(script);
    let c = linked.resolve_const(0).unwrap();
    assert_eq!(linked.const_to_vec8(c), Some(vec![1, 2, 3]));
}

#[test]
fn const_to_vec8_rejects_other_shapes() {
    let linked = MoveCode::new_no_mods(empty_script());
    let not_a_vector = Constant { tag: ConstantTag::U64, data: vec![7, 0, 0, 0, 0, 0, 0, 0] };
    assert_eq!(linked.const_to_vec8(not_a_vector), None);
    let empty_vector = Constant { tag: ConstantTag::VectorU8, data: vec![0] };
    assert_eq!(linked.const_to_vec8(empty_vector), None);
    let short_payload = Constant { tag: ConstantTag::VectorU8, data: vec![5, 1, 2] };
    assert_eq!(linked.const_to_vec8(short_payload), None);
    let unterminated_prefix = Constant { tag: ConstantTag::VectorU8, data: vec![0x80] };
    assert_eq!(linked.const_to_vec8(unterminated_prefix), None);
}

#[test]
fn const_to_vec8_reads_two_byte_length_prefix() {
    let mut data = vec![0x80, 0x01];
    let mut payload: Vec<u8> = (0..128u32).map(|i| i as u8).collect();
    data.append(&mut payload);
    let linked = MoveCode::new_no_mods(empty_script());
    let c = Constant { tag: ConstantTag::VectorU8, data };
    let out = linked.const_to_vec8(c).unwrap();
    assert_eq!(out.len(), 128);
    assert_eq!(out[0], 0);
    assert_eq!(out[127], 127);
}

#[test]
fn disassemble_script_hands_back_the_code_unit() {
    let linked = MoveCode::new(registry_script(), vec![registry_module()]);
    let unit = linked.disassemble_script();
    assert_eq!(unit.code, vec![Bytecode::Call(0)]);
}

#[test]
fn disassembly_of_registry_scenario() {
    let linked = MoveCode::new(registry_script(), vec![registry_module()]);
    let report = linked.disassemble_with_mods().unwrap();
    assert_eq!(report.listing, vec![Bytecode::Call(0)]);
    assert_eq!(report.calls.len(), 1);
    assert_eq!(
        report.calls[0],
        CallReport {
            fn_idx: 0,
            name: b("get"),
            code: vec![Bytecode::MoveLoc(0), Bytecode::Ret],
        }
    );
    assert_eq!(report.struct_summary, Vec::<ModuleStructs>::new());
}

#[test]
fn disassembly_of_empty_script() {
    let linked = MoveCode::new_no_mods(empty_script());
    let report = linked.disassemble_with_mods().unwrap();
    assert_eq!(report.listing, vec![]);
    assert_eq!(report.calls, vec![]);
    assert_eq!(report.struct_summary, vec![]);
}

#[test]
fn disassembly_reports_duplicate_call_sites_each_time() {
    let mut script = registry_script();
    script.code.code = vec![Bytecode::Call(0), Bytecode::Pop, Bytecode::Call(0)];
    let linked = MoveCode::new(script, vec![registry_module()]);
    let report = linked.disassemble_with_mods().unwrap();
    assert_eq!(report.calls.len(), 2);
    assert_eq!(report.calls[0], report.calls[1]);
}

#[test]
fn disassembly_is_deterministic() {
    let run = || {
        let linked = MoveCode::new(registry_script(), vec![registry_module()]);
        linked.disassemble_with_mods().unwrap()
    };
    let first: Report = run();
    let second: Report = run();
    assert_eq!(first, second);
}

#[test]
fn disassembly_fails_whole_report_on_unresolved_call() {
    let mut script = registry_script();
    script.code.code = vec![Bytecode::Pop, Bytecode::Call(0)];
    let linked = MoveCode::new(script, vec![]);
    assert_eq!(linked.disassemble_with_mods(), Err(MoveError::ModuleMissing));
}

#[test]
fn disassembly_collects_struct_layouts() {
    let mut module = registry_module();
    module.struct_defs = vec![
        StructDefinition { field_information: FieldInfo::Declared(vec![0, 1]) },
        StructDefinition { field_information: FieldInfo::Native },
    ];
    module.function_defs[0].code = Some(CodeUnit {
        code: vec![
            Bytecode::Pack(0),
            Bytecode::MutBorrowGlobal(1),
            Bytecode::Pack(0),
            Bytecode::Ret,
        ],
    });
    let linked = MoveCode::new(registry_script(), vec![module]);
    let report = linked.disassemble_with_mods().unwrap();
    assert_eq!(report.struct_summary.len(), 1);
    let bucket = &report.struct_summary[0];
    assert_eq!(bucket.module_name, b("Registry"));
    assert_eq!(bucket.structs.len(), 2);
    assert_eq!(bucket.structs[0].0, 0);
    assert_eq!(
        bucket.structs[0].1,
        StructDefinition { field_information: FieldInfo::Declared(vec![0, 1]) }
    );
    assert_eq!(bucket.structs[1].0, 1);
    assert_eq!(bucket.structs[1].1, StructDefinition { field_information: FieldInfo::Native });
}

#[test]
fn decompile_lists_non_call_instructions_and_resolved_calls() {
    let mut script = registry_script();
    script.code.code = vec![Bytecode::Pop, Bytecode::Call(0), Bytecode::Ret];
    let linked = MoveCode::new(script, vec![registry_module()]);
    let (listing, calls) = linked.decompile().unwrap();
    assert_eq!(listing, vec![Bytecode::Pop, Bytecode::Ret]);
    assert_eq!(calls.len(), 1);
    assert_eq!(
        calls[0],
        CallReport {
            fn_idx: 0,
            name: b("get"),
            code: vec![Bytecode::MoveLoc(0), Bytecode::Ret],
        }
    );
}

#[test]
fn decompile_fails_on_unresolved_call() {
    let linked = MoveCode::new(registry_script(), vec![]);
    assert_eq!(linked.decompile(), Err(MoveError::ModuleMissing));
}

#[test]
fn disassembly_struct_index_out_of_range_is_an_error() {
    let mut module = registry_module();
    module.function_defs[0].code = Some(CodeUnit { code: vec![Bytecode::Pack(4)] });
    let linked = MoveCode::new(registry_script(), vec![module]);
    assert_eq!(linked.disassemble_with_mods(), Err(MoveError::IndexOutOfRange));
}
