use vstd::prelude::*;

use crate::errors::MoveError;
use crate::model::{
    copy_bytes, copy_flat, Bytecode, CompiledModule, CompiledModuleV, StructDefinition,
    StructDefinitionV,
};
use crate::move_d::{
    fn_handle_spec, identifier_spec, module_handle_spec, resolve_call_spec, MoveCode, MoveCodeV,
};

verus! {

// The call-graph disassembler.
//
// The script's code unit is listed in order; every `Call` site is
// recorded in encounter order (duplicates included) and resolved
// transitively through the module mapping.  A single unresolved call
// aborts the whole report: downstream struct aggregation assumes every
// referenced module is linked.  All aggregation runs over explicitly
// ordered vectors so that the same input always yields the same
// report.

/// The mathematical shape of one resolved call site.
pub struct CallReportV {
    /// The function handle index of the call site.
    pub fn_idx: u16,
    /// The callee's name, resolved through the script's pool.
    pub name: Seq<u8>,
    /// The callee's body.
    pub code: Seq<Bytecode>,
}

/// One resolved call site: the handle index, the callee's name and the
/// callee's body.
#[derive(Debug, PartialEq, Eq)]
pub struct CallReport {
    /// The function handle index of the call site.
    pub fn_idx: u16,
    /// The callee's name, resolved through the script's pool.
    pub name: Vec<u8>,
    /// The callee's body.
    pub code: Vec<Bytecode>,
}

impl DeepView for CallReport {
    type V = CallReportV;

    open spec fn deep_view(&self) -> CallReportV {
        CallReportV {
            fn_idx: self.fn_idx,
            name: self.name.deep_view(),
            code: self.code.deep_view(),
        }
    }
}

/// The mathematical shape of one module's struct-layout bucket.
pub struct ModuleStructsV {
    /// The module's name, resolved through the script's pool.
    pub module_name: Seq<u8>,
    /// The touched struct definitions, keyed by definition index, in
    /// first-touch order.
    pub structs: Seq<(u16, StructDefinitionV)>,
}

/// The struct definitions touched inside one module, keyed by their
/// definition index, in first-touch order.
#[derive(Debug, PartialEq, Eq)]
pub struct ModuleStructs {
    /// The module's name, resolved through the script's pool.
    pub module_name: Vec<u8>,
    /// The touched struct definitions, keyed by definition index, in
    /// first-touch order.
    pub structs: Vec<(u16, StructDefinition)>,
}

impl DeepView for ModuleStructs {
    type V = ModuleStructsV;

    open spec fn deep_view(&self) -> ModuleStructsV {
        ModuleStructsV {
            module_name: self.module_name.deep_view(),
            structs: self.structs.deep_view(),
        }
    }
}

/// The mathematical shape of a disassembly report.
pub struct ReportV {
    /// The script's own instructions, in order.
    pub listing: Seq<Bytecode>,
    /// Every call site, in encounter order, with its resolved body.
    pub calls: Seq<CallReportV>,
    /// The struct layouts touched by the resolved bodies, grouped by
    /// module in first-touch order.
    pub struct_summary: Seq<ModuleStructsV>,
}

/// A disassembly report: the script listing, every resolved call site
/// in encounter order, and the struct layouts their bodies touch.
#[derive(Debug, PartialEq, Eq)]
pub struct Report {
    /// The script's own instructions, in order.
    pub listing: Vec<Bytecode>,
    /// Every call site, in encounter order, with its resolved body.
    pub calls: Vec<CallReport>,
    /// The struct layouts touched by the resolved bodies, grouped by
    /// module in first-touch order.
    pub struct_summary: Vec<ModuleStructs>,
}

impl DeepView for Report {
    type V = ReportV;

    open spec fn deep_view(&self) -> ReportV {
        ReportV {
            listing: self.listing.deep_view(),
            calls: self.calls.deep_view(),
            struct_summary: self.struct_summary.deep_view(),
        }
    }
}

/// The function handle indices of the `Call` instructions of a body,
/// in encounter order, duplicates kept.
pub open spec fn collect_calls(code: Seq<Bytecode>) -> Seq<u16>
    decreases code.len(),
{
    if code.len() == 0 {
        Seq::empty()
    } else {
        let rest = collect_calls(code.drop_first());
        match code.first() {
            Bytecode::Call(i) => seq![i] + rest,
            _ => rest,
        }
    }
}

/// The struct definition index an instruction touches, if any.
pub open spec fn touched_struct(ins: Bytecode) -> Option<u16> {
    match ins {
        Bytecode::Pack(i) => Some(i),
        Bytecode::Unpack(i) => Some(i),
        Bytecode::MutBorrowGlobal(i) => Some(i),
        Bytecode::ImmBorrowGlobal(i) => Some(i),
        Bytecode::Exists(i) => Some(i),
        Bytecode::MoveFrom(i) => Some(i),
        Bytecode::MoveTo(i) => Some(i),
        _ => None,
    }
}

/// The position of the bucket named `name`, or `None`.
pub open spec fn bucket_slot(sum: Seq<ModuleStructsV>, name: Seq<u8>) -> Option<int>
    decreases sum.len(),
{
    if sum.len() == 0 {
        None
    } else if sum.first().module_name == name {
        Some(0)
    } else {
        match bucket_slot(sum.drop_first(), name) {
            Some(i) => Some(i + 1),
            None => None,
        }
    }
}

/// The position of the entry keyed by `idx`, or `None`.
pub open spec fn entry_slot(entries: Seq<(u16, StructDefinitionV)>, idx: u16) -> Option<int>
    decreases entries.len(),
{
    if entries.len() == 0 {
        None
    } else if entries.first().0 == idx {
        Some(0)
    } else {
        match entry_slot(entries.drop_first(), idx) {
            Some(i) => Some(i + 1),
            None => None,
        }
    }
}

/// Writes `def` under key `idx`: an existing entry is overwritten in
/// place (struct identity is its index inside its owning module, so a
/// revisit writes an identical value), a new key is appended.
pub open spec fn upsert_entry(
    entries: Seq<(u16, StructDefinitionV)>,
    idx: u16,
    def: StructDefinitionV,
) -> Seq<(u16, StructDefinitionV)> {
    match entry_slot(entries, idx) {
        Some(i) => entries.update(i, (idx, def)),
        None => entries.push((idx, def)),
    }
}

/// Records one touched struct under its module's bucket; the bucket is
/// created at its module's first touch.
pub open spec fn record_struct(
    sum: Seq<ModuleStructsV>,
    name: Seq<u8>,
    idx: u16,
    def: StructDefinitionV,
) -> Seq<ModuleStructsV> {
    match bucket_slot(sum, name) {
        Some(b) => sum.update(
            b,
            ModuleStructsV { module_name: name, structs: upsert_entry(sum[b].structs, idx, def) },
        ),
        None => sum.push(ModuleStructsV { module_name: name, structs: seq![(idx, def)] }),
    }
}

/// Folds a resolved body into the struct summary: every instruction
/// that touches a struct definition records that module's definition
/// at that index; an index outside the module's table is an error.
pub open spec fn record_body(
    sum: Seq<ModuleStructsV>,
    name: Seq<u8>,
    m: CompiledModuleV,
    body: Seq<Bytecode>,
) -> Result<Seq<ModuleStructsV>, MoveError>
    decreases body.len(),
{
    if body.len() == 0 {
        Ok(sum)
    } else {
        match touched_struct(body.first()) {
            Some(i) => {
                if i >= m.struct_defs.len() {
                    Err(MoveError::IndexOutOfRange)
                } else {
                    record_body(
                        record_struct(sum, name, i, m.struct_defs[i as int]),
                        name,
                        m,
                        body.drop_first(),
                    )
                }
            },
            None => record_body(sum, name, m, body.drop_first()),
        }
    }
}

/// One call site's step of the disassembly: resolve the handle, the
/// owning module and its name, resolve the call, then fold the body
/// into the struct summary.
pub open spec fn call_step(mc: MoveCodeV, idx: u16, sum: Seq<ModuleStructsV>) -> Result<
    (CallReportV, Seq<ModuleStructsV>),
    MoveError,
> {
    match fn_handle_spec(mc, idx) {
        Err(e) => Err(e),
        Ok(fh) => match module_handle_spec(mc, fh.module) {
            Err(e) => Err(e),
            Ok(mh) => match identifier_spec(mc, mh.name) {
                Err(e) => Err(e),
                Ok(modnm) => match crate::resolver::assoc_lookup(mc.modules, mh) {
                    None => Err(MoveError::ModuleMissing),
                    Some(m) => match resolve_call_spec(mc, idx) {
                        Err(e) => Err(e),
                        Ok(code) => match identifier_spec(mc, fh.name) {
                            Err(e) => Err(e),
                            Ok(name) => match record_body(sum, modnm, m, code) {
                                Err(e) => Err(e),
                                Ok(sum2) => Ok(
                                    (CallReportV { fn_idx: idx, name, code }, sum2),
                                ),
                            },
                        },
                    },
                },
            },
        },
    }
}

/// Folds every recorded call site, in encounter order, into the call
/// reports and the struct summary; the first failure aborts the whole
/// report.
pub open spec fn process_calls(
    mc: MoveCodeV,
    calls: Seq<u16>,
    acc: Seq<CallReportV>,
    sum: Seq<ModuleStructsV>,
) -> Result<(Seq<CallReportV>, Seq<ModuleStructsV>), MoveError>
    decreases calls.len(),
{
    if calls.len() == 0 {
        Ok((acc, sum))
    } else {
        match call_step(mc, calls.first(), sum) {
            Err(e) => Err(e),
            Ok((rep, sum2)) => process_calls(mc, calls.drop_first(), acc.push(rep), sum2),
        }
    }
}

/// The whole disassembly report of a linked program, or the error of
/// the first call site that does not resolve.
pub open spec fn disassemble_spec(mc: MoveCodeV) -> Result<ReportV, MoveError> {
    match process_calls(mc, collect_calls(mc.script.code), Seq::empty(), Seq::empty()) {
        Err(e) => Err(e),
        Ok((reps, sum)) => Ok(
            ReportV { listing: mc.script.code, calls: reps, struct_summary: sum },
        ),
    }
}

/// A body's instructions with the call sites left out, in order: the
/// plain listing of the simple decompilation.
pub open spec fn non_call_listing(code: Seq<Bytecode>) -> Seq<Bytecode>
    decreases code.len(),
{
    if code.len() == 0 {
        Seq::empty()
    } else {
        let rest = non_call_listing(code.drop_first());
        match code.first() {
            Bytecode::Call(_) => rest,
            c => seq![c] + rest,
        }
    }
}

/// One call site's step of the simple decompilation: the handle, the
/// resolved body, the callee's name.
pub open spec fn simple_call_step(mc: MoveCodeV, idx: u16) -> Result<CallReportV, MoveError> {
    match fn_handle_spec(mc, idx) {
        Err(e) => Err(e),
        Ok(fh) => match resolve_call_spec(mc, idx) {
            Err(e) => Err(e),
            Ok(code) => match identifier_spec(mc, fh.name) {
                Err(e) => Err(e),
                Ok(name) => Ok(CallReportV { fn_idx: idx, name, code }),
            },
        },
    }
}

/// Folds every call site of the simple decompilation, in encounter
/// order; the first failure aborts.
pub open spec fn simple_calls(mc: MoveCodeV, calls: Seq<u16>, acc: Seq<CallReportV>) -> Result<
    Seq<CallReportV>,
    MoveError,
>
    decreases calls.len(),
{
    if calls.len() == 0 {
        Ok(acc)
    } else {
        match simple_call_step(mc, calls.first()) {
            Err(e) => Err(e),
            Ok(rep) => simple_calls(mc, calls.drop_first(), acc.push(rep)),
        }
    }
}

/// The simple decompilation: the non-call instructions of the script
/// and every call site resolved, without the struct summary.
pub open spec fn decompile_spec(mc: MoveCodeV) -> Result<
    (Seq<Bytecode>, Seq<CallReportV>),
    MoveError,
> {
    match simple_calls(mc, collect_calls(mc.script.code), Seq::empty()) {
        Err(e) => Err(e),
        Ok(reps) => Ok((non_call_listing(mc.script.code), reps)),
    }
}

/// Determinism: the disassembly report is a function of the linked
/// program's value alone, so two runs over the same script and the
/// same modules in the same supply order produce identical reports.
pub proof fn lemma_disassembly_deterministic(a: MoveCodeV, b: MoveCodeV)
    requires
        a == b,
    ensures
        disassemble_spec(a) == disassemble_spec(b),
{
}

/// Finds the bucket named `name` in the summary.
fn find_bucket(sum: &Vec<ModuleStructs>, name: &Vec<u8>) -> (r: Option<usize>)
    ensures
        match r {
            Some(b) => b < sum@.len() && bucket_slot(sum.deep_view(), name.deep_view()) == Some(
                b as int,
            ),
            None => bucket_slot(sum.deep_view(), name.deep_view()) is None,
        },
{
    let n = sum.len();
    proof {
        assert(sum.deep_view().skip(0) =~= sum.deep_view());
    }
    let mut i: usize = 0;
    while i < n
        invariant
            i <= n,
            n == sum@.len(),
            bucket_slot(sum.deep_view(), name.deep_view()) == match bucket_slot(
                sum.deep_view().skip(i as int),
                name.deep_view(),
            ) {
                Some(k) => Some(k + i),
                None => None::<int>,
            },
        decreases n - i,
    {
        proof {
            let dv = sum.deep_view();
            assert(dv.skip(i as int).first() == dv[i as int]);
            assert(dv.skip(i as int).drop_first() =~= dv.skip(i + 1));
        }
        if crate::model::bytes_eq(&sum[i].module_name, name) {
            return Some(i);
        }
        i = i + 1;
    }
    proof {
        assert(sum.deep_view().skip(n as int) =~= Seq::<ModuleStructsV>::empty());
    }
    None
}

/// Finds the entry keyed by `idx` in a bucket.
fn find_entry(entries: &Vec<(u16, StructDefinition)>, idx: u16) -> (r: Option<usize>)
    ensures
        match r {
            Some(s) => s < entries@.len() && entry_slot(entries.deep_view(), idx) == Some(s as int),
            None => entry_slot(entries.deep_view(), idx) is None,
        },
{
    let n = entries.len();
    proof {
        assert(entries.deep_view().skip(0) =~= entries.deep_view());
    }
    let mut i: usize = 0;
    while i < n
        invariant
            i <= n,
            n == entries@.len(),
            entry_slot(entries.deep_view(), idx) == match entry_slot(
                entries.deep_view().skip(i as int),
                idx,
            ) {
                Some(k) => Some(k + i),
                None => None::<int>,
            },
        decreases n - i,
    {
        proof {
            let dv = entries.deep_view();
            assert(dv.skip(i as int).first() == dv[i as int]);
            assert(dv.skip(i as int).drop_first() =~= dv.skip(i + 1));
        }
        if entries[i].0 == idx {
            return Some(i);
        }
        i = i + 1;
    }
    proof {
        assert(entries.deep_view().skip(n as int) =~= Seq::<(u16, StructDefinitionV)>::empty());
    }
    None
}

/// Rebuilds a bucket's entry list with `def` written under key `idx`.
fn upsert_entries(entries: &Vec<(u16, StructDefinition)>, idx: u16, def: &StructDefinition) -> (r:
    Vec<(u16, StructDefinition)>)
    ensures
        r.deep_view() == upsert_entry(entries.deep_view(), idx, def.deep_view()),
{
    let ghost target = upsert_entry(entries.deep_view(), idx, def.deep_view());
    let slot = find_entry(entries, idx);
    let n = entries.len();
    let mut r: Vec<(u16, StructDefinition)> = Vec::new();
    proof {
        assert(r.deep_view() =~= Seq::<(u16, StructDefinitionV)>::empty());
    }
    let mut i: usize = 0;
    while i < n
        invariant
            i <= n,
            n == entries@.len(),
            target == upsert_entry(entries.deep_view(), idx, def.deep_view()),
            match slot {
                Some(s) => s < n && entry_slot(entries.deep_view(), idx) == Some(s as int),
                None => entry_slot(entries.deep_view(), idx) is None,
            },
            r.deep_view() =~= target.subrange(0, i as int),
            target.len() >= n,
            forall|j: int|
                0 <= j < n ==> target[j] == (match slot {
                    Some(s) => {
                        if j == s as int {
                            (idx, def.deep_view())
                        } else {
                            entries.deep_view()[j]
                        }
                    },
                    None => entries.deep_view()[j],
                }),
        decreases n - i,
    {
        let ghost pre = r.deep_view();
        let replace = match slot {
            Some(s) => s == i,
            None => false,
        };
        if replace {
            let d = def.duplicate();
            r.push((idx, d));
            assert(r.deep_view() =~= pre.push((idx, def.deep_view())));
        } else {
            let d = entries[i].1.duplicate();
            let k = entries[i].0;
            r.push((k, d));
            assert(r.deep_view() =~= pre.push(entries.deep_view()[i as int]));
        }
        i = i + 1;
    }
    match slot {
        Some(_) => {
            proof {
                assert(r.deep_view() =~= target);
            }
        },
        None => {
            let d = def.duplicate();
            let ghost pre = r.deep_view();
            r.push((idx, d));
            proof {
                assert(r.deep_view() =~= pre.push((idx, def.deep_view())));
                assert(r.deep_view() =~= target);
            }
        },
    }
    r
}

impl MoveCode {
    /// Produces the full disassembly report: the script listing, every
    /// call site resolved in encounter order, and the struct layouts
    /// their bodies touch, grouped per module in first-touch order.
    ///
    /// A single call site that fails to resolve aborts the whole
    /// report with that call's error.
    pub fn disassemble_with_mods(&self) -> (r: Result<Report, MoveError>)
        ensures
            match r {
                Ok(rep) => disassemble_spec(self@) == Ok::<_, MoveError>(rep.deep_view()),
                Err(e) => disassemble_spec(self@) == Err::<ReportV, _>(e),
            },
    {
        proof {
            crate::move_d::lemma_move_code_view(self);
        }
        let code_len = self.script.code.code.len();
        let mut calls: Vec<u16> = Vec::new();
        proof {
            assert(self@.script.code.skip(0) =~= self@.script.code);
            assert(calls.deep_view() =~= Seq::<u16>::empty());
            assert(Seq::<u16>::empty() + collect_calls(self@.script.code) =~= collect_calls(
                self@.script.code,
            ));
        }
        let mut i: usize = 0;
        while i < code_len
            invariant
                i <= code_len,
                code_len == self.script.code.code@.len(),
                self@.script.code == self.script.code.code.deep_view(),
                calls@ + collect_calls(self@.script.code.skip(i as int)) =~= collect_calls(
                    self@.script.code,
                ),
            decreases code_len - i,
        {
            proof {
                let cd = self@.script.code;
                assert(cd.skip(i as int).first() == cd[i as int]);
                assert(cd.skip(i as int).drop_first() =~= cd.skip(i + 1));
            }
            let ghost pre = calls@;
            match self.script.code.code[i] {
                Bytecode::Call(c) => {
                    calls.push(c);
                    proof {
                        let cd = self@.script.code;
                        assert(calls@ =~= pre.push(c));
                        assert(pre.push(c) + collect_calls(cd.skip(i + 1)) =~= pre + (seq![c]
                            + collect_calls(cd.skip(i + 1))));
                    }
                },
                _ => {},
            }
            i = i + 1;
        }
        proof {
            assert(self@.script.code.skip(code_len as int) =~= Seq::<Bytecode>::empty());
            assert(calls@ =~= collect_calls(self@.script.code));
        }
        let listing = copy_flat(&self.script.code.code);
        proof {
            assert(listing.deep_view() =~= self@.script.code);
        }
        let n_calls = calls.len();
        let mut reps: Vec<CallReport> = Vec::new();
        let mut sum: Vec<ModuleStructs> = Vec::new();
        proof {
            assert(calls@.skip(0) =~= calls@);
            assert(reps.deep_view() =~= Seq::<CallReportV>::empty());
            assert(sum.deep_view() =~= Seq::<ModuleStructsV>::empty());
        }
        let mut k: usize = 0;
        while k < n_calls
            invariant
                k <= n_calls,
                n_calls == calls@.len(),
                process_calls(
                    self@,
                    calls@.skip(k as int),
                    reps.deep_view(),
                    sum.deep_view(),
                ) == process_calls(
                    self@,
                    collect_calls(self@.script.code),
                    Seq::empty(),
                    Seq::empty(),
                ),
                calls@ == collect_calls(self@.script.code),
            decreases n_calls - k,
        {
            proof {
                assert(calls@.skip(k as int).first() == calls@[k as int]);
                assert(calls@.skip(k as int).drop_first() =~= calls@.skip(k + 1));
            }
            let ghost pre_reps = reps.deep_view();
            match self.call_step_exec(calls[k], &mut sum) {
                Ok(rep) => {
                    reps.push(rep);
                    assert(reps.deep_view() =~= pre_reps.push(rep.deep_view()));
                },
                Err(e) => {
                    return Err(e);
                },
            }
            k = k + 1;
        }
        proof {
            assert(calls@.skip(n_calls as int) =~= Seq::<u16>::empty());
        }
        Ok(Report { listing, calls: reps, struct_summary: sum })
    }

    /// The simple decompilation: hands back the script's instructions
    /// with the call sites left out, next to every call site resolved
    /// to its name and body, in encounter order.  The struct summary
    /// of the full report is not built here.
    pub fn decompile(self) -> (r: Result<(Vec<Bytecode>, Vec<CallReport>), MoveError>)
        ensures
            match r {
                Ok(p) => decompile_spec(self@) == Ok::<_, MoveError>(
                    (p.0.deep_view(), p.1.deep_view()),
                ),
                Err(e) => decompile_spec(self@) == Err::<(Seq<Bytecode>, Seq<CallReportV>), _>(e),
            },
    {
        proof {
            crate::move_d::lemma_move_code_view(&self);
        }
        let code_len = self.script.code.code.len();
        let mut calls: Vec<u16> = Vec::new();
        let mut listing: Vec<Bytecode> = Vec::new();
        proof {
            assert(self@.script.code.skip(0) =~= self@.script.code);
            assert(calls@ + collect_calls(self@.script.code) =~= collect_calls(self@.script.code));
            assert(listing.deep_view() + non_call_listing(self@.script.code) =~= non_call_listing(
                self@.script.code,
            ));
        }
        let mut i: usize = 0;
        while i < code_len
            invariant
                i <= code_len,
                code_len == self.script.code.code@.len(),
                self@.script.code == self.script.code.code.deep_view(),
                calls@ + collect_calls(self@.script.code.skip(i as int)) =~= collect_calls(
                    self@.script.code,
                ),
                listing.deep_view() + non_call_listing(self@.script.code.skip(i as int))
                    =~= non_call_listing(self@.script.code),
            decreases code_len - i,
        {
            proof {
                let cd = self@.script.code;
                assert(cd.skip(i as int).first() == cd[i as int]);
                assert(cd.skip(i as int).drop_first() =~= cd.skip(i + 1));
            }
            let ghost pre_calls = calls@;
            let ghost pre_listing = listing.deep_view();
            let ins = self.script.code.code[i];
            match ins {
                Bytecode::Call(c) => {
                    calls.push(c);
                    proof {
                        let cd = self@.script.code;
                        assert(calls@ =~= pre_calls.push(c));
                        assert(pre_calls.push(c) + collect_calls(cd.skip(i + 1)) =~= pre_calls + (
                        seq![c] + collect_calls(cd.skip(i + 1))));
                    }
                },
                c => {
                    listing.push(c);
                    proof {
                        let cd = self@.script.code;
                        assert(listing.deep_view() =~= pre_listing.push(c));
                        assert(pre_listing.push(c) + non_call_listing(cd.skip(i + 1)) =~= pre_listing
                            + (seq![c] + non_call_listing(cd.skip(i + 1))));
                    }
                },
            }
            i = i + 1;
        }
        proof {
            assert(self@.script.code.skip(code_len as int) =~= Seq::<Bytecode>::empty());
            assert(calls@ =~= collect_calls(self@.script.code));
            assert(listing.deep_view() =~= non_call_listing(self@.script.code));
        }
        let n_calls = calls.len();
        let mut reps: Vec<CallReport> = Vec::new();
        proof {
            assert(calls@.skip(0) =~= calls@);
            assert(reps.deep_view() =~= Seq::<CallReportV>::empty());
        }
        let mut k: usize = 0;
        while k < n_calls
            invariant
                k <= n_calls,
                n_calls == calls@.len(),
                calls@ == collect_calls(self@.script.code),
                simple_calls(self@, calls@.skip(k as int), reps.deep_view()) == simple_calls(
                    self@,
                    collect_calls(self@.script.code),
                    Seq::empty(),
                ),
            decreases n_calls - k,
        {
            proof {
                assert(calls@.skip(k as int).first() == calls@[k as int]);
                assert(calls@.skip(k as int).drop_first() =~= calls@.skip(k + 1));
            }
            let idx = calls[k];
            let fh = match self.fn_handle(idx) {
                Ok(fh) => fh,
                Err(e) => {
                    return Err(e);
                },
            };
            let code = match self.resolve_call(idx) {
                Ok(c) => c,
                Err(e) => {
                    return Err(e);
                },
            };
            let name = match self.identifier_resolve(fh.name) {
                Ok(v) => v,
                Err(e) => {
                    return Err(e);
                },
            };
            let ghost pre_reps = reps.deep_view();
            let rep = CallReport { fn_idx: idx, name, code: code.code };
            let ghost repv = rep.deep_view();
            reps.push(rep);
            assert(reps.deep_view() =~= pre_reps.push(repv));
            k = k + 1;
        }
        proof {
            assert(calls@.skip(n_calls as int) =~= Seq::<u16>::empty());
        }
        Ok((listing, reps))
    }

    /// Resolves one call site and folds its body into the summary.
    fn call_step_exec(&self, idx: u16, sum: &mut Vec<ModuleStructs>) -> (r: Result<
        CallReport,
        MoveError,
    >)
        ensures
            match r {
                Ok(rep) => call_step(self@, idx, old(sum).deep_view()) == Ok::<_, MoveError>(
                    (rep.deep_view(), final(sum).deep_view()),
                ),
                Err(e) => call_step(self@, idx, old(sum).deep_view()) == Err::<
                    (CallReportV, Seq<ModuleStructsV>),
                    _,
                >(e),
            },
    {
        let fh = match self.fn_handle(idx) {
            Ok(fh) => fh,
            Err(e) => {
                return Err(e);
            },
        };
        let mh = match self.module_handle(fh.module) {
            Ok(mh) => mh,
            Err(e) => {
                return Err(e);
            },
        };
        let modnm = match self.identifier_resolve(mh.name) {
            Ok(v) => v,
            Err(e) => {
                return Err(e);
            },
        };
        let slot = match self.module_slot_of(&mh) {
            Some(s) => s,
            None => {
                return Err(MoveError::ModuleMissing);
            },
        };
        let code = match self.resolve_call(idx) {
            Ok(c) => c,
            Err(e) => {
                return Err(e);
            },
        };
        let name = match self.identifier_resolve(fh.name) {
            Ok(v) => v,
            Err(e) => {
                return Err(e);
            },
        };
        let module = self.module_at(slot);
        match Self::record_body_exec(sum, &modnm, module, &code.code) {
            Ok(()) => Ok(CallReport { fn_idx: idx, name, code: code.code }),
            Err(e) => Err(e),
        }
    }

    /// Folds one resolved body into the struct summary.
    fn record_body_exec(
        sum: &mut Vec<ModuleStructs>,
        name: &Vec<u8>,
        m: &CompiledModule,
        body: &Vec<Bytecode>,
    ) -> (r: Result<(), MoveError>)
        ensures
            match r {
                Ok(()) => record_body(
                    old(sum).deep_view(),
                    name.deep_view(),
                    m.deep_view(),
                    body.deep_view(),
                ) == Ok::<_, MoveError>(final(sum).deep_view()),
                Err(e) => record_body(
                    old(sum).deep_view(),
                    name.deep_view(),
                    m.deep_view(),
                    body.deep_view(),
                ) == Err::<Seq<ModuleStructsV>, _>(e),
            },
    {
        let n = body.len();
        proof {
            assert(body.deep_view().skip(0) =~= body.deep_view());
        }
        let mut i: usize = 0;
        while i < n
            invariant
                i <= n,
                n == body@.len(),
                record_body(
                    sum.deep_view(),
                    name.deep_view(),
                    m.deep_view(),
                    body.deep_view().skip(i as int),
                ) == record_body(
                    old(sum).deep_view(),
                    name.deep_view(),
                    m.deep_view(),
                    body.deep_view(),
                ),
            decreases n - i,
        {
            proof {
                let bd = body.deep_view();
                assert(bd.skip(i as int).first() == bd[i as int]);
                assert(bd.skip(i as int).drop_first() =~= bd.skip(i + 1));
            }
            let touched: Option<u16> = match body[i] {
                Bytecode::Pack(s) => Some(s),
                Bytecode::Unpack(s) => Some(s),
                Bytecode::MutBorrowGlobal(s) => Some(s),
                Bytecode::ImmBorrowGlobal(s) => Some(s),
                Bytecode::Exists(s) => Some(s),
                Bytecode::MoveFrom(s) => Some(s),
                Bytecode::MoveTo(s) => Some(s),
                _ => None,
            };
            match touched {
                Some(s) => {
                    if (s as usize) >= m.struct_defs.len() {
                        return Err(MoveError::IndexOutOfRange);
                    }
                    Self::record_struct_exec(sum, name, s, &m.struct_defs[s as usize]);
                },
                None => {},
            }
            i = i + 1;
        }
        proof {
            assert(body.deep_view().skip(n as int) =~= Seq::<Bytecode>::empty());
        }
        Ok(())
    }

    /// Records one touched struct definition under its module bucket.
    fn record_struct_exec(
        sum: &mut Vec<ModuleStructs>,
        name: &Vec<u8>,
        idx: u16,
        def: &StructDefinition,
    )
        ensures
            final(sum).deep_view() == record_struct(
                old(sum).deep_view(),
                name.deep_view(),
                idx,
                def.deep_view(),
            ),
    {
        match find_bucket(sum, name) {
            Some(b) => {
                let entries = upsert_entries(&sum[b].structs, idx, def);
                let bucket = ModuleStructs { module_name: copy_bytes(name), structs: entries };
                let ghost pre = sum.deep_view();
                sum[b] = bucket;
                proof {
                    assert(sum.deep_view() =~= pre.update(
                        b as int,
                        ModuleStructsV {
                            module_name: name.deep_view(),
                            structs: upsert_entry(pre[b as int].structs, idx, def.deep_view()),
                        },
                    ));
                }
            },
            None => {
                let mut entries: Vec<(u16, StructDefinition)> = Vec::new();
                let d = def.duplicate();
                entries.push((idx, d));
                assert(entries.deep_view() =~= seq![(idx, def.deep_view())]);
                let bucket = ModuleStructs { module_name: copy_bytes(name), structs: entries };
                let ghost pre = sum.deep_view();
                sum.push(bucket);
                proof {
                    assert(sum.deep_view() =~= pre.push(
                        ModuleStructsV {
                            module_name: name.deep_view(),
                            structs: seq![(idx, def.deep_view())],
                        },
                    ));
                }
            },
        }
    }
}

} // verus!
