use evm_asm::errors::{HexError, MoveError};
use evm_asm::helpers::{bytes_from_hex, move_recompile_to_evm, mv_evm_instruction_recompile};
use evm_asm::model::{
    Bytecode, CodeUnit, CompiledModule, CompiledScript, FunctionDefinition, FunctionHandle,
    ModuleHandle,
};
use evm_asm::transpile::{EvmInstruction, RecompileRes};
use evm_asm::MoveCode;

fn b(s: &str) -> Vec<u8> {
    s.as_bytes().to_vec()
}

fn empty_script() -> CompiledScript {
    CompiledScript {
        module_handles: vec![],
        identifiers: vec![],
        address_identifiers: vec![],
        function_handles: vec![],
        constant_pool: vec![],
        code: CodeUnit { code: vec![] },
    }
}

/// A script declaring module "M" at address 0x01 and calling its
/// function "f".
fn caller_script() -> CompiledScript {
    CompiledScript {
        module_handles: vec![ModuleHandle { address: 0, name: 0 }],
        identifiers: vec![b("M"), b("f")],
        address_identifiers: vec![vec![0x01]],
        function_handles: vec![FunctionHandle { module: 0, name: 1 }],
        constant_pool: vec![],
        code: CodeUnit { code: vec![Bytecode::Call(0)] },
    }
}

/// A module "M" whose "f" calls its own "g".
fn nested_module(f_body: Vec<Bytecode>, g_body: Vec<Bytecode>) -> CompiledModule {
    CompiledModule {
        self_module_handle_idx: 0,
        module_handles: vec![ModuleHandle { address: 0, name: 0 }],
        identifiers: vec![b("M"), b("f"), b("g")],
        address_identifiers: vec![vec![0x01]],
        function_handles: vec![
            FunctionHandle { module: 0, name: 1 },
            FunctionHandle { module: 0, name: 2 },
        ],
        function_defs: vec![
            FunctionDefinition { function: 0, code: Some(CodeUnit { code: f_body }) },
            FunctionDefinition { function: 1, code: Some(CodeUnit { code: g_body }) },
        ],
        struct_defs: vec![],
    }
}

#[test]
fn empty_script_lowers_to_dup_and_halt() {
    let linked = MoveCode::new_no_mods(empty_script());
    let out = move_recompile_to_evm(&linked).unwrap();
    assert_eq!(out, vec![EvmInstruction::Dup(1), EvmInstruction::Stop]);
}

#[test]
fn transitive_calls_are_fully_inlined() {
    // The script calls f; f loads a literal and calls g; g pops.  The
    // lowered output holds g's instructions inside f's inlined block,
    // between the two calling-convention prefixes, with no call left.
    let module = nested_module(
        vec![Bytecode::LdU64(7), Bytecode::Call(1), Bytecode::Ret],
        vec![Bytecode::Pop],
    );
    let linked = MoveCode::new(caller_script(), vec![module]);
    let out = move_recompile_to_evm(&linked).unwrap();
    assert_eq!(
        out,
        vec![
            EvmInstruction::Dup(1),
            EvmInstruction::Push(vec![0]),
            EvmInstruction::MStore,
            EvmInstruction::Push(vec![7]),
            EvmInstruction::Push(vec![0]),
            EvmInstruction::MStore,
            EvmInstruction::Pop,
            EvmInstruction::Stop,
        ]
    );
}

#[test]
fn cyclic_call_graph_is_reported() {
    // f calls itself forever.
    let module = nested_module(vec![Bytecode::Call(0)], vec![Bytecode::Ret]);
    let linked = MoveCode::new(caller_script(), vec![module]);
    assert_eq!(move_recompile_to_evm(&linked), Err(MoveError::CyclicCall));
}

#[test]
fn unknown_opcode_fails_the_whole_lowering() {
    let mut script = empty_script();
    script.code.code = vec![Bytecode::LdU64(1), Bytecode::Other(0x99)];
    let linked = MoveCode::new_no_mods(script);
    assert_eq!(move_recompile_to_evm(&linked), Err(MoveError::UnimplementedOpcode));
}

#[test]
fn unresolved_call_fails_the_lowering() {
    let linked = MoveCode::new(caller_script(), vec![]);
    assert_eq!(move_recompile_to_evm(&linked), Err(MoveError::ModuleMissing));
}

#[test]
fn literal_loads_push_minimal_big_endian_bytes() {
    let mut script = empty_script();
    script.code.code = vec![Bytecode::LdU64(0), Bytecode::LdU64(5), Bytecode::LdU64(0x0100)];
    let linked = MoveCode::new_no_mods(script);
    let out = move_recompile_to_evm(&linked).unwrap();
    assert_eq!(
        out,
        vec![
            EvmInstruction::Dup(1),
            EvmInstruction::Push(vec![]),
            EvmInstruction::Push(vec![5]),
            EvmInstruction::Push(vec![1, 0]),
            EvmInstruction::Stop,
        ]
    );
}

#[test]
fn per_opcode_lowering_rules() {
    let mut out: Vec<EvmInstruction> = Vec::new();
    assert_eq!(
        mv_evm_instruction_recompile(&Bytecode::MoveLoc(3), &mut out),
        Ok(RecompileRes::Done)
    );
    assert_eq!(out, vec![EvmInstruction::Push(vec![3]), EvmInstruction::MLoad]);
    out.clear();
    assert_eq!(
        mv_evm_instruction_recompile(&Bytecode::CopyLoc(2), &mut out),
        Ok(RecompileRes::Done)
    );
    assert_eq!(out, vec![EvmInstruction::Push(vec![2]), EvmInstruction::MLoad]);
    out.clear();
    assert_eq!(
        mv_evm_instruction_recompile(&Bytecode::StLoc(4), &mut out),
        Ok(RecompileRes::Done)
    );
    assert_eq!(out, vec![EvmInstruction::Push(vec![4]), EvmInstruction::MStore]);
    out.clear();
    assert_eq!(mv_evm_instruction_recompile(&Bytecode::Pop, &mut out), Ok(RecompileRes::Done));
    assert_eq!(out, vec![EvmInstruction::Pop]);
    out.clear();
    assert_eq!(
        mv_evm_instruction_recompile(&Bytecode::Pack(9), &mut out),
        Ok(RecompileRes::Done)
    );
    assert_eq!(out, vec![EvmInstruction::Push(vec![0]), EvmInstruction::MLoad]);
    out.clear();
    assert_eq!(
        mv_evm_instruction_recompile(&Bytecode::Unpack(9), &mut out),
        Ok(RecompileRes::Done)
    );
    assert_eq!(out, vec![]);
    assert_eq!(mv_evm_instruction_recompile(&Bytecode::Ret, &mut out), Ok(RecompileRes::Done));
    assert_eq!(out, vec![]);
    assert_eq!(
        mv_evm_instruction_recompile(&Bytecode::Call(6), &mut out),
        Ok(RecompileRes::Call(6))
    );
    assert_eq!(out, vec![EvmInstruction::Push(vec![0]), EvmInstruction::MStore]);
    out.clear();
    assert_eq!(
        mv_evm_instruction_recompile(&Bytecode::LdConst(1), &mut out),
        Err(MoveError::UnimplementedOpcode)
    );
    assert_eq!(out, vec![]);
}

#[test]
fn hex_with_prefix_decodes() {
    assert_eq!(bytes_from_hex(&b("0xABCD")), Ok(vec![0xAB, 0xCD]));
    assert_eq!(bytes_from_hex(&b("0XAb")), Ok(vec![0xAB]));
    assert_eq!(bytes_from_hex(&b("0x")), Ok(vec![]));
}

#[test]
fn hex_without_prefix_decodes() {
    assert_eq!(bytes_from_hex(&b("ab01")), Ok(vec![0xAB, 0x01]));
    assert_eq!(bytes_from_hex(&b("")), Ok(vec![]));
}

#[test]
fn hex_odd_length_is_an_error() {
    assert_eq!(bytes_from_hex(&b("0xABC")), Err(HexError::OddLength));
    assert_eq!(bytes_from_hex(&b("A")), Err(HexError::OddLength));
}

#[test]
fn hex_invalid_character_is_an_error() {
    assert_eq!(bytes_from_hex(&b("zz")), Err(HexError::InvalidHexCharacter));
    assert_eq!(bytes_from_hex(&b("0x0g")), Err(HexError::InvalidHexCharacter));
    assert_ne!(HexError::OddLength, HexError::InvalidHexCharacter);
}
