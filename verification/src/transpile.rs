use vstd::prelude::*;

use crate::errors::MoveError;
use crate::model::{Bytecode, CompiledModule, CompiledModuleV, ModuleHandle};
use crate::move_d::{
    find_code_in_module, fn_handle_spec, identifier_spec, module_handle_spec, MoveCode, MoveCodeV,
};
use crate::resolver::{assoc_lookup, module_self_key, resolved_key};

verus! {

// The bytecode-to-bytecode lowering pass (a proof of concept).
//
// A small calling convention: the target machine's stack-duplicate
// instruction is emitted first, then the script body is lowered
// instruction by instruction with every call fully inlined: the call
// site lowers to "push return slot 0; store" followed by the callee's
// lowered body, transitively, so no call or jump instruction remains
// in the output.  A halt instruction ends the sequence.  Struct values
// are deliberately flattened to untyped memory cells.  A cyclic call
// graph is detected and reported with a dedicated error instead of
// looping forever.

/// The mathematical shape of a target instruction.
pub enum EvmInstructionV {
    /// Push a literal byte string onto the stack.
    Push(Seq<u8>),
    /// Duplicate the stack slot at the given depth.
    Dup(u8),
    /// Store to memory.
    MStore,
    /// Load from memory.
    MLoad,
    /// Discard the top of the stack.
    Pop,
    /// Halt.
    Stop,
}

/// One instruction of the target stack machine's set, restricted to
/// what the lowering emits.
#[derive(Debug, PartialEq, Eq)]
pub enum EvmInstruction {
    /// Push a literal byte string onto the stack.
    Push(Vec<u8>),
    /// Duplicate the stack slot at the given depth.
    Dup(u8),
    /// Store to memory.
    MStore,
    /// Load from memory.
    MLoad,
    /// Discard the top of the stack.
    Pop,
    /// Halt.
    Stop,
}

impl DeepView for EvmInstruction {
    type V = EvmInstructionV;

    open spec fn deep_view(&self) -> EvmInstructionV {
        match self {
            EvmInstruction::Push(arg) => EvmInstructionV::Push(arg.deep_view()),
            EvmInstruction::Dup(d) => EvmInstructionV::Dup(*d),
            EvmInstruction::MStore => EvmInstructionV::MStore,
            EvmInstruction::MLoad => EvmInstructionV::MLoad,
            EvmInstruction::Pop => EvmInstructionV::Pop,
            EvmInstruction::Stop => EvmInstructionV::Stop,
        }
    }
}

/// What a call site lowers to before the callee's body, or `Done`.
#[derive(Clone, Copy, Debug, PartialEq, Eq, Structural)]
pub enum RecompileRes {
    /// The instruction lowered completely.
    Done,
    /// The instruction was a call of the given function handle index;
    /// the callee's lowered body must follow.
    Call(u16),
}

/// The minimal big-endian byte representation of a value: leading zero
/// bytes stripped, so zero is the empty string.
pub open spec fn be_bytes(v: nat) -> Seq<u8>
    decreases v,
{
    if v == 0 {
        Seq::empty()
    } else {
        be_bytes(v / 256).push((v % 256) as u8)
    }
}

/// The instructions one source instruction lowers to, not counting an
/// inlined callee body; `None` for an instruction without a rule.
pub open spec fn lower_one(ins: Bytecode) -> Option<Seq<EvmInstructionV>> {
    match ins {
        Bytecode::LdU64(v) => Some(seq![EvmInstructionV::Push(be_bytes(v as nat))]),
        Bytecode::Call(_) => Some(
            seq![EvmInstructionV::Push(seq![0u8]), EvmInstructionV::MStore],
        ),
        Bytecode::MoveLoc(i) => Some(
            seq![EvmInstructionV::Push(seq![i]), EvmInstructionV::MLoad],
        ),
        Bytecode::CopyLoc(i) => Some(
            seq![EvmInstructionV::Push(seq![i]), EvmInstructionV::MLoad],
        ),
        Bytecode::StLoc(i) => Some(seq![EvmInstructionV::Push(seq![i]), EvmInstructionV::MStore]),
        Bytecode::Pop => Some(seq![EvmInstructionV::Pop]),
        Bytecode::Pack(_) => Some(
            seq![EvmInstructionV::Push(seq![0u8]), EvmInstructionV::MLoad],
        ),
        Bytecode::Unpack(_) => Some(Seq::empty()),
        Bytecode::Ret => Some(Seq::empty()),
        _ => None,
    }
}

/// Resolution of a call sitting in the script body: the owning module
/// out of the mapping together with the callee's code unit.
pub open spec fn script_call_target(mc: MoveCodeV, idx: u16) -> Result<
    (CompiledModuleV, Seq<Bytecode>),
    MoveError,
> {
    match fn_handle_spec(mc, idx) {
        Err(e) => Err(e),
        Ok(fh) => match module_handle_spec(mc, fh.module) {
            Err(e) => Err(e),
            Ok(mh) => match assoc_lookup(mc.modules, mh) {
                None => Err(MoveError::ModuleMissing),
                Some(m) => match identifier_spec(mc, fh.name) {
                    Err(e) => Err(e),
                    Ok(name) => match find_code_in_module(m, name) {
                        Err(e) => Err(e),
                        Ok(c) => Ok((m, c)),
                    },
                },
            },
        },
    }
}

/// The position of the first mapping entry whose module's self
/// identity equals `key`, or `None`.
pub open spec fn value_slot_by_key(
    entries: Seq<(ModuleHandle, CompiledModuleV)>,
    key: (Seq<u8>, Seq<u8>),
) -> Option<int>
    decreases entries.len(),
{
    if entries.len() == 0 {
        None
    } else if module_self_key(entries.first().1) == Some(key) {
        Some(0)
    } else {
        match value_slot_by_key(entries.drop_first(), key) {
            Some(i) => Some(i + 1),
            None => None,
        }
    }
}

/// Resolution of a call sitting inside a module's function body: the
/// handle is read through that module's own pools; a target with the
/// module's own identity is the module itself, any other identity is
/// matched structurally against the supplied modules.
pub open spec fn module_call_target(mc: MoveCodeV, owner: CompiledModuleV, fhx: u16) -> Result<
    (CompiledModuleV, Seq<Bytecode>),
    MoveError,
> {
    if fhx >= owner.function_handles.len() {
        Err(MoveError::IndexOutOfRange)
    } else {
        let fh = owner.function_handles[fhx as int];
        if fh.module >= owner.module_handles.len() {
            Err(MoveError::IndexOutOfRange)
        } else {
            let mh = owner.module_handles[fh.module as int];
            match resolved_key(mh, owner.identifiers, owner.address_identifiers) {
                None => Err(MoveError::IndexOutOfRange),
                Some(key) => {
                    if fh.name >= owner.identifiers.len() {
                        Err(MoveError::IndexOutOfRange)
                    } else {
                        let name = owner.identifiers[fh.name as int];
                        let target = if module_self_key(owner) == Some(key) {
                            Some(owner)
                        } else {
                            match value_slot_by_key(mc.modules, key) {
                                Some(j) => Some(mc.modules[j].1),
                                None => None,
                            }
                        };
                        match target {
                            None => Err(MoveError::ModuleMissing),
                            Some(t) => match find_code_in_module(t, name) {
                                Err(e) => Err(e),
                                Ok(c) => Ok((t, c)),
                            },
                        }
                    }
                },
            }
        }
    }
}

/// The ghost shape of the module a body being lowered belongs to:
/// `None` for the script body itself.
pub open spec fn owner_view(o: Option<&CompiledModule>) -> Option<CompiledModuleV> {
    match o {
        Some(m) => Some(m.deep_view()),
        None => None,
    }
}

/// Lowers a body on top of `acc`, inlining every call with the given
/// fuel; running out of fuel reports a cyclic call graph, since the
/// starting fuel exceeds the total number of function definitions and
/// an acyclic inline chain can never go deeper than that.
pub open spec fn transpile_code(
    mc: MoveCodeV,
    owner: Option<CompiledModuleV>,
    code: Seq<Bytecode>,
    fuel: nat,
    acc: Seq<EvmInstructionV>,
) -> Result<Seq<EvmInstructionV>, MoveError>
    decreases fuel, code.len(),
{
    if code.len() == 0 {
        Ok(acc)
    } else {
        let ins = code.first();
        match lower_one(ins) {
            None => Err(MoveError::UnimplementedOpcode),
            Some(l) => {
                let acc1 = acc + l;
                match ins {
                    Bytecode::Call(fhx) => {
                        let tgt = match owner {
                            None => script_call_target(mc, fhx),
                            Some(m) => module_call_target(mc, m, fhx),
                        };
                        match tgt {
                            Err(e) => Err(e),
                            Ok((tm, body)) => {
                                if fuel == 0 {
                                    Err(MoveError::CyclicCall)
                                } else {
                                    match transpile_code(
                                        mc,
                                        Some(tm),
                                        body,
                                        (fuel - 1) as nat,
                                        acc1,
                                    ) {
                                        Err(e) => Err(e),
                                        Ok(acc2) => transpile_code(
                                            mc,
                                            owner,
                                            code.drop_first(),
                                            fuel,
                                            acc2,
                                        ),
                                    }
                                }
                            },
                        }
                    },
                    _ => transpile_code(mc, owner, code.drop_first(), fuel, acc1),
                }
            },
        }
    }
}

/// Addition capped at the largest machine word.
pub open spec fn sat_add_u64(a: nat, b: nat) -> nat {
    if a + b <= u64::MAX {
        a + b
    } else {
        u64::MAX as nat
    }
}

/// The total number of function definitions across the mapping.
pub open spec fn def_count(modules: Seq<(ModuleHandle, CompiledModuleV)>) -> nat
    decreases modules.len(),
{
    if modules.len() == 0 {
        0
    } else {
        sat_add_u64(def_count(modules.drop_last()), modules.last().1.function_defs.len())
    }
}

/// The lowering of a whole linked program: stack-duplicate first, the
/// script body with calls fully inlined, then halt.
pub open spec fn transpile_spec(mc: MoveCodeV) -> Result<Seq<EvmInstructionV>, MoveError> {
    match transpile_code(
        mc,
        None,
        mc.script.code,
        sat_add_u64(def_count(mc.modules), 1),
        seq![EvmInstructionV::Dup(1)],
    ) {
        Err(e) => Err(e),
        Ok(s) => Ok(s.push(EvmInstructionV::Stop)),
    }
}

/// Inlining depth: lowering a body that begins with a call emits the
/// call's convention prefix and then the callee's own lowering —
/// recursively subject to the same rule, so a callee's callees are
/// inlined inside it in turn — before the rest of the body.  The
/// target instruction set has no call or jump, so no residual call
/// instruction can remain in any output.
pub proof fn lemma_call_inlines_callee(
    mc: MoveCodeV,
    owner: Option<CompiledModuleV>,
    code: Seq<Bytecode>,
    fuel: nat,
    acc: Seq<EvmInstructionV>,
    fhx: u16,
    tm: CompiledModuleV,
    body: Seq<Bytecode>,
)
    requires
        code.len() > 0,
        code.first() == Bytecode::Call(fhx),
        (match owner {
            None => script_call_target(mc, fhx),
            Some(m) => module_call_target(mc, m, fhx),
        }) == Ok::<_, MoveError>((tm, body)),
        fuel > 0,
    ensures
        transpile_code(mc, owner, code, fuel, acc) == (match transpile_code(
            mc,
            Some(tm),
            body,
            (fuel - 1) as nat,
            acc + seq![EvmInstructionV::Push(seq![0u8]), EvmInstructionV::MStore],
        ) {
            Err(e) => Err(e),
            Ok(acc2) => transpile_code(mc, owner, code.drop_first(), fuel, acc2),
        }),
{
}

/// Computes the minimal big-endian byte representation of a value.
pub fn min_be_bytes(v: u64) -> (r: Vec<u8>)
    ensures
        r.deep_view() == be_bytes(v as nat),
    decreases v,
{
    if v == 0 {
        let r: Vec<u8> = Vec::new();
        assert(r.deep_view() =~= be_bytes(0));
        r
    } else {
        let mut r = min_be_bytes(v / 256);
        let ghost pre = r.deep_view();
        r.push((v % 256) as u8);
        assert(r.deep_view() =~= pre.push((v as nat % 256) as u8));
        r
    }
}

/// Lowers one source instruction onto the end of `res`.  A call site
/// gets its calling-convention prefix here and reports `Call` so that
/// the caller can inline the callee's body; an instruction without a
/// rule is refused and leaves `res` unchanged.
pub fn mv_evm_instruction_recompile(ins: &Bytecode, res: &mut Vec<EvmInstruction>) -> (r: Result<
    RecompileRes,
    MoveError,
>)
    ensures
        match lower_one(*ins) {
            Some(l) => final(res).deep_view() == old(res).deep_view() + l && r == Ok::<
                _,
                MoveError,
            >(
                match *ins {
                    Bytecode::Call(i) => RecompileRes::Call(i),
                    _ => RecompileRes::Done,
                },
            ),
            None => r == Err::<RecompileRes, MoveError>(MoveError::UnimplementedOpcode)
                && *final(res) == *old(res),
        },
{
    let ghost pre = res.deep_view();
    match *ins {
        Bytecode::LdU64(v) => {
            let arg = min_be_bytes(v);
            res.push(EvmInstruction::Push(arg));
            assert(res.deep_view() =~= pre + seq![EvmInstructionV::Push(be_bytes(v as nat))]);
            Ok(RecompileRes::Done)
        },
        Bytecode::Call(i) => {
            let mut zero: Vec<u8> = Vec::new();
            zero.push(0);
            assert(zero.deep_view() =~= seq![0u8]);
            res.push(EvmInstruction::Push(zero));
            res.push(EvmInstruction::MStore);
            assert(res.deep_view() =~= pre + seq![
                EvmInstructionV::Push(seq![0u8]),
                EvmInstructionV::MStore,
            ]);
            Ok(RecompileRes::Call(i))
        },
        Bytecode::MoveLoc(i) => {
            let mut slot: Vec<u8> = Vec::new();
            slot.push(i);
            assert(slot.deep_view() =~= seq![i]);
            res.push(EvmInstruction::Push(slot));
            res.push(EvmInstruction::MLoad);
            assert(res.deep_view() =~= pre + seq![
                EvmInstructionV::Push(seq![i]),
                EvmInstructionV::MLoad,
            ]);
            Ok(RecompileRes::Done)
        },
        Bytecode::CopyLoc(i) => {
            let mut slot: Vec<u8> = Vec::new();
            slot.push(i);
            assert(slot.deep_view() =~= seq![i]);
            res.push(EvmInstruction::Push(slot));
            res.push(EvmInstruction::MLoad);
            assert(res.deep_view() =~= pre + seq![
                EvmInstructionV::Push(seq![i]),
                EvmInstructionV::MLoad,
            ]);
            Ok(RecompileRes::Done)
        },
        Bytecode::StLoc(i) => {
            let mut slot: Vec<u8> = Vec::new();
            slot.push(i);
            assert(slot.deep_view() =~= seq![i]);
            res.push(EvmInstruction::Push(slot));
            res.push(EvmInstruction::MStore);
            assert(res.deep_view() =~= pre + seq![
                EvmInstructionV::Push(seq![i]),
                EvmInstructionV::MStore,
            ]);
            Ok(RecompileRes::Done)
        },
        Bytecode::Pop => {
            res.push(EvmInstruction::Pop);
            assert(res.deep_view() =~= pre + seq![EvmInstructionV::Pop]);
            Ok(RecompileRes::Done)
        },
        Bytecode::Pack(_) => {
            let mut zero: Vec<u8> = Vec::new();
            zero.push(0);
            assert(zero.deep_view() =~= seq![0u8]);
            res.push(EvmInstruction::Push(zero));
            res.push(EvmInstruction::MLoad);
            assert(res.deep_view() =~= pre + seq![
                EvmInstructionV::Push(seq![0u8]),
                EvmInstructionV::MLoad,
            ]);
            Ok(RecompileRes::Done)
        },
        Bytecode::Unpack(_) => {
            assert(res.deep_view() =~= pre + Seq::<EvmInstructionV>::empty());
            Ok(RecompileRes::Done)
        },
        Bytecode::Ret => {
            assert(res.deep_view() =~= pre + Seq::<EvmInstructionV>::empty());
            Ok(RecompileRes::Done)
        },
        _ => Err(MoveError::UnimplementedOpcode),
    }
}

impl MoveCode {
    /// Counts the function definitions across the mapping, capped at
    /// the largest machine word.
    fn def_count_exec(&self) -> (r: u64)
        ensures
            r as nat == def_count(self@.modules),
    {
        let n = self.modules.len();
        proof {
            crate::move_d::lemma_move_code_view(self);
            assert(self@.modules.take(0) =~= Seq::<(ModuleHandle, CompiledModuleV)>::empty());
        }
        let mut r: u64 = 0;
        let mut i: usize = 0;
        while i < n
            invariant
                i <= n,
                n == self.modules@.len(),
                self@.modules == self.modules.deep_view(),
                r as nat == def_count(self@.modules.take(i as int)),
            decreases n - i,
        {
            proof {
                let dv = self@.modules;
                assert(dv.take(i + 1).last() == dv[i as int]);
                assert(dv.take(i + 1).drop_last() =~= dv.take(i as int));
            }
            let l = self.modules[i].1.function_defs.len() as u64;
            assert(l as nat == self@.modules[i as int].1.function_defs.len());
            if r > u64::MAX - l {
                r = u64::MAX;
            } else {
                r = r + l;
            }
            i = i + 1;
        }
        proof {
            assert(self@.modules.take(n as int) =~= self@.modules);
        }
        r
    }

    /// Resolves a call in the script body to a mapping slot and a
    /// definition index whose code is present.
    fn script_call_slot(&self, idx: u16) -> (r: Result<(usize, usize), MoveError>)
        ensures
            match r {
                Ok((s, d)) => s < self@.modules.len() && {
                    let tm = self@.modules[s as int].1;
                    d < tm.function_defs.len() && tm.function_defs[d as int].code is Some
                        && script_call_target(self@, idx) == Ok::<_, MoveError>(
                        (tm, tm.function_defs[d as int].code.unwrap()),
                    )
                },
                Err(e) => script_call_target(self@, idx) == Err::<
                    (CompiledModuleV, Seq<Bytecode>),
                    _,
                >(e),
            },
    {
        let fh = match self.fn_handle(idx) {
            Ok(fh) => fh,
            Err(e) => {
                return Err(e);
            },
        };
        let mh = match self.module_handle(fh.module) {
            Ok(mh) => mh,
            Err(e) => {
                return Err(e);
            },
        };
        let slot = match self.module_slot_of(&mh) {
            Some(s) => s,
            None => {
                return Err(MoveError::ModuleMissing);
            },
        };
        let name = match self.identifier_resolve(fh.name) {
            Ok(v) => v,
            Err(e) => {
                return Err(e);
            },
        };
        let module = self.module_at(slot);
        match crate::move_d::find_def_in(module, &name) {
            Err(e) => Err(e),
            Ok(None) => Err(MoveError::ModuleMissing),
            Ok(Some(d)) => match &module.function_defs[d].code {
                Some(_) => Ok((slot, d)),
                None => Err(MoveError::InvalidModule),
            },
        }
    }

    /// Resolves a call inside a module's function body, through that
    /// module's own pools, to the target module (`None` meaning the
    /// owner itself, `Some` a mapping slot) and a definition index
    /// whose code is present.
    fn module_call_slot(&self, owner: &CompiledModule, fhx: u16) -> (r: Result<
        (Option<usize>, usize),
        MoveError,
    >)
        ensures
            match r {
                Ok((t, d)) => {
                    let tm = match t {
                        Some(j) => self@.modules[j as int].1,
                        None => owner.deep_view(),
                    };
                    (match t {
                        Some(j) => j < self@.modules.len(),
                        None => true,
                    }) && d < tm.function_defs.len() && tm.function_defs[d as int].code is Some
                        && module_call_target(self@, owner.deep_view(), fhx) == Ok::<_, MoveError>(
                        (tm, tm.function_defs[d as int].code.unwrap()),
                    )
                },
                Err(e) => module_call_target(self@, owner.deep_view(), fhx) == Err::<
                    (CompiledModuleV, Seq<Bytecode>),
                    _,
                >(e),
            },
    {
        if (fhx as usize) >= owner.function_handles.len() {
            return Err(MoveError::IndexOutOfRange);
        }
        let fh = owner.function_handles[fhx as usize];
        if (fh.module as usize) >= owner.module_handles.len() {
            return Err(MoveError::IndexOutOfRange);
        }
        let mh = owner.module_handles[fh.module as usize];
        let key = match crate::resolver::handle_key(
            &mh,
            &owner.identifiers,
            &owner.address_identifiers,
        ) {
            Some(k) => k,
            None => {
                return Err(MoveError::IndexOutOfRange);
            },
        };
        if (fh.name as usize) >= owner.identifiers.len() {
            return Err(MoveError::IndexOutOfRange);
        }
        let name = crate::model::copy_bytes(&owner.identifiers[fh.name as usize]);
        let own_key_matches = match crate::resolver::module_key(owner) {
            Some(ok) => crate::model::bytes_eq(&ok.0, &key.0) && crate::model::bytes_eq(
                &ok.1,
                &key.1,
            ),
            None => false,
        };
        let tslot: Option<usize> = if own_key_matches {
            None
        } else {
            match self.value_slot_by_key_exec(&key) {
                Some(j) => Some(j),
                None => {
                    return Err(MoveError::ModuleMissing);
                },
            }
        };
        let tm: &CompiledModule = match tslot {
            Some(j) => self.module_at(j),
            None => owner,
        };
        match crate::move_d::find_def_in(tm, &name) {
            Err(e) => Err(e),
            Ok(None) => Err(MoveError::ModuleMissing),
            Ok(Some(d)) => match &tm.function_defs[d].code {
                Some(_) => Ok((tslot, d)),
                None => Err(MoveError::InvalidModule),
            },
        }
    }

    /// Finds the first mapping entry whose module claims identity
    /// `key`.
    fn value_slot_by_key_exec(&self, key: &(Vec<u8>, Vec<u8>)) -> (r: Option<usize>)
        ensures
            match r {
                Some(j) => j < self@.modules.len() && value_slot_by_key(
                    self@.modules,
                    (key.0.deep_view(), key.1.deep_view()),
                ) == Some(j as int),
                None => value_slot_by_key(
                    self@.modules,
                    (key.0.deep_view(), key.1.deep_view()),
                ) is None,
            },
    {
        proof {
            crate::move_d::lemma_move_code_view(self);
            assert(self@.modules.skip(0) =~= self@.modules);
        }
        let n = self.modules.len();
        let mut i: usize = 0;
        while i < n
            invariant
                i <= n,
                n == self.modules@.len(),
                self@.modules == self.modules.deep_view(),
                value_slot_by_key(self@.modules, (key.0.deep_view(), key.1.deep_view()))
                    == match value_slot_by_key(
                    self@.modules.skip(i as int),
                    (key.0.deep_view(), key.1.deep_view()),
                ) {
                    Some(k) => Some(k + i),
                    None => None::<int>,
                },
            decreases n - i,
        {
            proof {
                let dv = self@.modules;
                assert(dv.skip(i as int).first() == dv[i as int]);
                assert(dv.skip(i as int).drop_first() =~= dv.skip(i + 1));
            }
            let hit = match crate::resolver::module_key(&self.modules[i].1) {
                Some(mk) => crate::model::bytes_eq(&mk.0, &key.0) && crate::model::bytes_eq(
                    &mk.1,
                    &key.1,
                ),
                None => false,
            };
            if hit {
                return Some(i);
            }
            i = i + 1;
        }
        proof {
            assert(self@.modules.skip(n as int) =~= Seq::<(ModuleHandle, CompiledModuleV)>::empty());
        }
        None
    }

    /// Lowers one body on top of `out`, recursing into every call.
    fn transpile_unit(
        &self,
        owner: Option<&CompiledModule>,
        code: &Vec<Bytecode>,
        out: &mut Vec<EvmInstruction>,
        fuel: u64,
    ) -> (r: Result<(), MoveError>)
        ensures
            match r {
                Ok(()) => transpile_code(
                    self@,
                    owner_view(owner),
                    code.deep_view(),
                    fuel as nat,
                    old(out).deep_view(),
                ) == Ok::<_, MoveError>(final(out).deep_view()),
                Err(e) => transpile_code(
                    self@,
                    owner_view(owner),
                    code.deep_view(),
                    fuel as nat,
                    old(out).deep_view(),
                ) == Err::<Seq<EvmInstructionV>, _>(e),
            },
        decreases fuel,
    {
        let n = code.len();
        proof {
            assert(code.deep_view().skip(0) =~= code.deep_view());
        }
        let mut i: usize = 0;
        while i < n
            invariant
                i <= n,
                n == code@.len(),
                transpile_code(
                    self@,
                    owner_view(owner),
                    code.deep_view().skip(i as int),
                    fuel as nat,
                    out.deep_view(),
                ) == transpile_code(
                    self@,
                    owner_view(owner),
                    code.deep_view(),
                    fuel as nat,
                    old(out).deep_view(),
                ),
            decreases n - i,
        {
            proof {
                let cd = code.deep_view();
                assert(cd.skip(i as int).first() == cd[i as int]);
                assert(cd.skip(i as int).drop_first() =~= cd.skip(i + 1));
            }
            let ins = code[i];
            let step = mv_evm_instruction_recompile(&ins, out);
            let fhx = match step {
                Ok(RecompileRes::Done) => {
                    i = i + 1;
                    continue ;
                },
                Ok(RecompileRes::Call(fhx)) => fhx,
                Err(e) => {
                    return Err(e);
                },
            };
            let (tslot, d) = match owner {
                None => match self.script_call_slot(fhx) {
                    Ok((s, dd)) => (Some(s), dd),
                    Err(e) => {
                        return Err(e);
                    },
                },
                Some(m) => match self.module_call_slot(m, fhx) {
                    Ok(p) => p,
                    Err(e) => {
                        return Err(e);
                    },
                },
            };
            if fuel == 0 {
                return Err(MoveError::CyclicCall);
            }
            let tm: &CompiledModule = match tslot {
                Some(j) => self.module_at(j),
                None => match owner {
                    Some(m) => m,
                    None => {
                        proof {
                            assert(false);
                        }
                        return Err(MoveError::CyclicCall);
                    },
                },
            };
            let body: &Vec<Bytecode> = match &tm.function_defs[d].code {
                Some(cu) => &cu.code,
                None => {
                    proof {
                        assert(false);
                    }
                    return Err(MoveError::CyclicCall);
                },
            };
            match self.transpile_unit(Some(tm), body, out, fuel - 1) {
                Ok(()) => {},
                Err(e) => {
                    return Err(e);
                },
            }
            i = i + 1;
        }
        proof {
            assert(code.deep_view().skip(n as int) =~= Seq::<Bytecode>::empty());
        }
        Ok(())
    }
}

/// Lowers a linked program into the target machine's instruction set:
/// a stack-duplicate, the script body with every call fully inlined,
/// then a halt.  Fails on an instruction without a lowering rule, on a
/// call that does not resolve, and on a cyclic call graph.
pub fn move_recompile_to_evm(move_s: &MoveCode) -> (r: Result<Vec<EvmInstruction>, MoveError>)
    ensures
        match r {
            Ok(v) => transpile_spec(move_s@) == Ok::<_, MoveError>(v.deep_view()),
            Err(e) => transpile_spec(move_s@) == Err::<Seq<EvmInstructionV>, _>(e),
        },
{
    proof {
        crate::move_d::lemma_move_code_view(move_s);
    }
    let mut res: Vec<EvmInstruction> = Vec::new();
    res.push(EvmInstruction::Dup(1));
    assert(res.deep_view() =~= seq![EvmInstructionV::Dup(1u8)]);
    let base = move_s.def_count_exec();
    let fuel = if base > u64::MAX - 1 {
        u64::MAX
    } else {
        base + 1
    };
    assert(fuel as nat == sat_add_u64(def_count(move_s@.modules), 1));
    match move_s.transpile_unit(None, &move_s.script.code.code, &mut res, fuel) {
        Ok(()) => {
            let ghost pre = res.deep_view();
            res.push(EvmInstruction::Stop);
            assert(res.deep_view() =~= pre.push(EvmInstructionV::Stop));
            Ok(res)
        },
        Err(e) => Err(e),
    }
}

} // verus!
