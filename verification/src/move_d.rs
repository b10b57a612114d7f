use vstd::prelude::*;

use crate::errors::MoveError;
use crate::model::{
    bytes_eq, copy_bytes, Bytecode, CodeUnit, CompiledModule, CompiledModuleV, CompiledScript,
    CompiledScriptV, Constant, ConstantTag, ConstantV, FunctionDefinitionV, FunctionHandle,
    ModuleHandle,
};
use crate::resolver::{assoc_slot, module_resolution, resolution};

verus! {

/// The mathematical shape of a linked program.
pub struct MoveCodeV {
    /// The decoded script.
    pub script: CompiledScriptV,
    /// The resolution mapping from declared module handles to supplied
    /// modules, in first-resolution order.
    pub modules: Seq<(ModuleHandle, CompiledModuleV)>,
}

/// A linked program: the decoded script together with the mapping from
/// its declared module handles to the supplied modules that matched
/// them.  Built once at construction and read-only afterwards.
#[derive(Debug)]
pub struct MoveCode {
    /// The decoded script.
    pub script: CompiledScript,
    pub(crate) modules: Vec<(ModuleHandle, CompiledModule)>,
}

impl View for MoveCode {
    type V = MoveCodeV;

    closed spec fn view(&self) -> MoveCodeV {
        MoveCodeV { script: self.script.deep_view(), modules: self.modules.deep_view() }
    }
}

/// Connects a linked program's abstraction to its fields.
pub(crate) proof fn lemma_move_code_view(mc: &MoveCode)
    ensures
        mc@.script == mc.script.deep_view(),
        mc@.modules == mc.modules.deep_view(),
{
}

/// Pool lookup of a module handle, by index into the script's table.
pub open spec fn module_handle_spec(mc: MoveCodeV, idx: u16) -> Result<ModuleHandle, MoveError> {
    if idx < mc.script.module_handles.len() {
        Ok(mc.script.module_handles[idx as int])
    } else {
        Err(MoveError::IndexOutOfRange)
    }
}

/// Pool lookup of an identifier, by index into the script's pool.
pub open spec fn identifier_spec(mc: MoveCodeV, idx: u16) -> Result<Seq<u8>, MoveError> {
    if idx < mc.script.identifiers.len() {
        Ok(mc.script.identifiers[idx as int])
    } else {
        Err(MoveError::IndexOutOfRange)
    }
}

/// Pool lookup of a function handle, by index into the script's table.
pub open spec fn fn_handle_spec(mc: MoveCodeV, idx: u16) -> Result<FunctionHandle, MoveError> {
    if idx < mc.script.function_handles.len() {
        Ok(mc.script.function_handles[idx as int])
    } else {
        Err(MoveError::IndexOutOfRange)
    }
}

/// Pool lookup of a constant, by index into the script's pool.
pub open spec fn constant_spec(mc: MoveCodeV, idx: u16) -> Result<ConstantV, MoveError> {
    if idx < mc.script.constant_pool.len() {
        Ok(mc.script.constant_pool[idx as int])
    } else {
        Err(MoveError::IndexOutOfRange)
    }
}

/// Linear scan of a module's function definition table for the first
/// definition whose function name, resolved through that module's own
/// identifier pool, equals `name`.  `Ok(None)` means no definition
/// matched; an out-of-range pool index met before a match is surfaced
/// as an error.
pub open spec fn scan_defs(
    defs: Seq<FunctionDefinitionV>,
    fhandles: Seq<FunctionHandle>,
    idents: Seq<Seq<u8>>,
    name: Seq<u8>,
) -> Result<Option<FunctionDefinitionV>, MoveError>
    decreases defs.len(),
{
    if defs.len() == 0 {
        Ok(None)
    } else {
        let d = defs.first();
        if d.function >= fhandles.len() {
            Err(MoveError::IndexOutOfRange)
        } else if fhandles[d.function as int].name >= idents.len() {
            Err(MoveError::IndexOutOfRange)
        } else if idents[fhandles[d.function as int].name as int] == name {
            Ok(Some(d))
        } else {
            scan_defs(defs.drop_first(), fhandles, idents, name)
        }
    }
}

/// Whether a definition of a module matches a call-target name: its
/// handle and name indices are in range and the name's byte content,
/// read through the module's own identifier pool, equals `name`.
pub open spec fn def_matches_name(
    fhandles: Seq<FunctionHandle>,
    idents: Seq<Seq<u8>>,
    d: FunctionDefinitionV,
    name: Seq<u8>,
) -> bool {
    &&& d.function < fhandles.len()
    &&& fhandles[d.function as int].name < idents.len()
    &&& idents[fhandles[d.function as int].name as int] == name
}

/// Cross-pool name equality: call resolution matches definitions by
/// the byte content of names, never by pool indices.  A found
/// definition always has content equal to the target name, and a
/// clean scan that found nothing guarantees no definition's content
/// equals it — whatever indices either side uses.
pub proof fn lemma_scan_defs_matches_by_content(
    defs: Seq<FunctionDefinitionV>,
    fhandles: Seq<FunctionHandle>,
    idents: Seq<Seq<u8>>,
    name: Seq<u8>,
)
    ensures
        (match scan_defs(defs, fhandles, idents, name) {
            Ok(Some(d)) => def_matches_name(fhandles, idents, d, name),
            _ => true,
        }),
        scan_defs(defs, fhandles, idents, name) == Ok::<_, MoveError>(
            None::<FunctionDefinitionV>,
        ) ==> forall|p: int|
            0 <= p < defs.len() ==> !def_matches_name(fhandles, idents, #[trigger] defs[p], name),
    decreases defs.len(),
{
    if defs.len() > 0 {
        lemma_scan_defs_matches_by_content(defs.drop_first(), fhandles, idents, name);
        if scan_defs(defs, fhandles, idents, name) == Ok::<_, MoveError>(
            None::<FunctionDefinitionV>,
        ) {
            assert forall|p: int|
                0 <= p < defs.len() implies !def_matches_name(
                fhandles,
                idents,
                #[trigger] defs[p],
                name,
            ) by {
                if p > 0 {
                    assert(defs[p] == defs.drop_first()[p - 1]);
                }
            }
        }
    }
}

/// Two identifiers in different binaries compare equal during call
/// resolution exactly when their byte content is equal: differing
/// pool indices do not prevent a match, and coinciding pool indices
/// do not create one.
pub proof fn lemma_cross_pool_name_equality(
    fhandles: Seq<FunctionHandle>,
    idents: Seq<Seq<u8>>,
    d: FunctionDefinitionV,
    script_idents: Seq<Seq<u8>>,
    i: int,
    j: int,
)
    requires
        0 <= i < script_idents.len(),
        d.function < fhandles.len(),
        fhandles[d.function as int].name == j,
        0 <= j < idents.len(),
    ensures
        idents[j] == script_idents[i] ==> def_matches_name(fhandles, idents, d, script_idents[i]),
        idents[j] != script_idents[i] ==> !def_matches_name(fhandles, idents, d, script_idents[i]),
{
}

/// Error discrimination for call resolution: an owning module absent
/// from the mapping is reported as `ModuleMissing`, while a module
/// that was supplied and holds the named function without a body is
/// reported as `InvalidModule`; the two are distinct values.
pub proof fn lemma_resolve_call_error_discrimination(mc: MoveCodeV, idx: u16)
    ensures
        (fn_handle_spec(mc, idx) matches Ok(fh) && module_handle_spec(mc, fh.module) matches Ok(mh)
            && crate::resolver::assoc_lookup(mc.modules, mh) is None) ==> resolve_call_spec(
            mc,
            idx,
        ) == Err::<Seq<Bytecode>, MoveError>(MoveError::ModuleMissing),
        (fn_handle_spec(mc, idx) matches Ok(fh) && module_handle_spec(mc, fh.module) matches Ok(mh)
            && crate::resolver::assoc_lookup(mc.modules, mh) matches Some(m) && identifier_spec(
            mc,
            fh.name,
        ) matches Ok(name) && scan_defs(
            m.function_defs,
            m.function_handles,
            m.identifiers,
            name,
        ) matches Ok(Some(d)) && d.code is None) ==> resolve_call_spec(mc, idx) == Err::<
            Seq<Bytecode>,
            MoveError,
        >(MoveError::InvalidModule),
        MoveError::ModuleMissing != MoveError::InvalidModule,
{
}

/// The code unit of the function named `name` inside module `m`:
/// `ModuleMissing` when no definition carries that name, and
/// `InvalidModule` when the matching definition has no body.
pub open spec fn find_code_in_module(m: CompiledModuleV, name: Seq<u8>) -> Result<
    Seq<Bytecode>,
    MoveError,
> {
    match scan_defs(m.function_defs, m.function_handles, m.identifiers, name) {
        Err(e) => Err(e),
        Ok(None) => Err(MoveError::ModuleMissing),
        Ok(Some(d)) => match d.code {
            Some(c) => Ok(c),
            None => Err(MoveError::InvalidModule),
        },
    }
}

/// Full call resolution: look the function handle up in the script,
/// find its owning module in the resolution mapping, then match the
/// function by name content across the two identifier pools.
pub open spec fn resolve_call_spec(mc: MoveCodeV, idx: u16) -> Result<Seq<Bytecode>, MoveError> {
    match fn_handle_spec(mc, idx) {
        Err(e) => Err(e),
        Ok(fh) => match module_handle_spec(mc, fh.module) {
            Err(e) => Err(e),
            Ok(mh) => match crate::resolver::assoc_lookup(mc.modules, mh) {
                None => Err(MoveError::ModuleMissing),
                Some(m) => match identifier_spec(mc, fh.name) {
                    Err(e) => Err(e),
                    Ok(name) => find_code_in_module(m, name),
                },
            },
        },
    }
}

/// Base-128 length prefix at position `i` of `data`: each byte holds
/// seven value bits, least significant group first, high bit set on
/// every byte but the last.  Yields the value and the position after
/// the prefix; `None` when the data ends inside the prefix or the
/// value would not fit the machine's word.
pub open spec fn uleb_spec(data: Seq<u8>, i: int) -> Option<(nat, int)>
    decreases data.len() - i,
{
    if i < 0 || i >= data.len() {
        None
    } else {
        let b = data[i];
        if b < 128 {
            Some((b as nat, i + 1))
        } else {
            match uleb_spec(data, i + 1) {
                None => None,
                Some((v, j)) => {
                    if v * 128 + 127 <= u64::MAX {
                        Some((((b - 128) + v * 128) as nat, j))
                    } else {
                        None
                    }
                },
            }
        }
    }
}

/// The flat byte string a constant encodes, when it is a non-empty
/// vector of bytes: a length prefix followed by exactly that many
/// element bytes.  Every other shape, a malformed prefix, a length
/// that disagrees with the payload, and the empty vector all yield
/// `None`.
pub open spec fn const_bytes_spec(c: ConstantV) -> Option<Seq<u8>> {
    if c.tag != ConstantTag::VectorU8 {
        None
    } else {
        match uleb_spec(c.data, 0) {
            None => None,
            Some((n, j)) => {
                if n > 0 && n == c.data.len() - j {
                    Some(c.data.skip(j))
                } else {
                    None
                }
            },
        }
    }
}

/// Finds the first entry of the resolution mapping keyed by `mh`.
fn module_slot(modules: &Vec<(ModuleHandle, CompiledModule)>, mh: &ModuleHandle) -> (r: Option<
    usize,
>)
    ensures
        match r {
            Some(i) => i < modules@.len() && assoc_slot(modules.deep_view(), *mh) == Some(i as int),
            None => assoc_slot(modules.deep_view(), *mh) is None,
        },
{
    let n = modules.len();
    proof {
        assert(modules.deep_view().skip(0) =~= modules.deep_view());
    }
    let mut i: usize = 0;
    while i < n
        invariant
            i <= n,
            n == modules@.len(),
            assoc_slot(modules.deep_view(), *mh) == match assoc_slot(
                modules.deep_view().skip(i as int),
                *mh,
            ) {
                Some(k) => Some(k + i),
                None => None::<int>,
            },
        decreases n - i,
    {
        proof {
            let dv = modules.deep_view();
            assert(dv.skip(i as int).first() == dv[i as int]);
            assert(dv.skip(i as int).drop_first() =~= dv.skip(i + 1));
        }
        if modules[i].0.address == mh.address && modules[i].0.name == mh.name {
            assert(modules.deep_view()[i as int].0 == *mh);
            return Some(i);
        }
        i = i + 1;
    }
    proof {
        assert(modules.deep_view().skip(n as int) =~= Seq::<(
            ModuleHandle,
            CompiledModuleV,
        )>::empty());
    }
    None
}

/// Scans a module's definitions for the first one whose name equals
/// `name`, comparing byte content across pools.
pub(crate) fn find_def_in(m: &CompiledModule, name: &Vec<u8>) -> (r: Result<Option<usize>, MoveError>)
    ensures
        match r {
            Ok(Some(d)) => d < m.function_defs@.len() && scan_defs(
                m.deep_view().function_defs,
                m.deep_view().function_handles,
                m.deep_view().identifiers,
                name.deep_view(),
            ) == Ok::<_, MoveError>(Some(m.deep_view().function_defs[d as int])),
            Ok(None) => scan_defs(
                m.deep_view().function_defs,
                m.deep_view().function_handles,
                m.deep_view().identifiers,
                name.deep_view(),
            ) == Ok::<Option<FunctionDefinitionV>, MoveError>(None),
            Err(e) => scan_defs(
                m.deep_view().function_defs,
                m.deep_view().function_handles,
                m.deep_view().identifiers,
                name.deep_view(),
            ) == Err::<Option<FunctionDefinitionV>, MoveError>(e),
        },
{
    let n = m.function_defs.len();
    proof {
        assert(m.deep_view().function_defs.skip(0) =~= m.deep_view().function_defs);
    }
    let mut i: usize = 0;
    while i < n
        invariant
            i <= n,
            n == m.function_defs@.len(),
            scan_defs(
                m.deep_view().function_defs,
                m.deep_view().function_handles,
                m.deep_view().identifiers,
                name.deep_view(),
            ) == scan_defs(
                m.deep_view().function_defs.skip(i as int),
                m.deep_view().function_handles,
                m.deep_view().identifiers,
                name.deep_view(),
            ),
        decreases n - i,
    {
        proof {
            let defs = m.deep_view().function_defs;
            assert(defs.skip(i as int).first() == defs[i as int]);
            assert(defs.skip(i as int).drop_first() =~= defs.skip(i + 1));
        }
        let fx = m.function_defs[i].function;
        if (fx as usize) >= m.function_handles.len() {
            return Err(MoveError::IndexOutOfRange);
        }
        let nx = m.function_handles[fx as usize].name;
        if (nx as usize) >= m.identifiers.len() {
            return Err(MoveError::IndexOutOfRange);
        }
        if bytes_eq(&m.identifiers[nx as usize], name) {
            return Ok(Some(i));
        }
        i = i + 1;
    }
    proof {
        assert(m.deep_view().function_defs.skip(n as int) =~= Seq::<FunctionDefinitionV>::empty());
    }
    Ok(None)
}

/// Reads a base-128 length prefix starting at `i`.
fn uleb_read(data: &Vec<u8>, i: usize) -> (r: Option<(u64, usize)>)
    requires
        i <= data@.len(),
    ensures
        match r {
            Some(p) => uleb_spec(data.deep_view(), i as int) == Some((p.0 as nat, p.1 as int))
                && i < p.1 <= data@.len(),
            None => uleb_spec(data.deep_view(), i as int) is None,
        },
    decreases data@.len() - i,
{
    if i >= data.len() {
        return None;
    }
    let b = data[i];
    if b < 128 {
        Some((b as u64, i + 1))
    } else {
        match uleb_read(data, i + 1) {
            None => None,
            Some((v, j)) => {
                if v <= (u64::MAX - 127) / 128 {
                    Some(((b - 128) as u64 + v * 128, j))
                } else {
                    None
                }
            },
        }
    }
}

impl MoveCode {
    /// Links a decoded script against the supplied candidate modules.
    ///
    /// Resolution is total: handles that nothing matches are simply
    /// absent from the mapping, and of several candidates claiming the
    /// same identity the last supplied one wins.
    pub fn new(script: CompiledScript, modules: Vec<CompiledModule>) -> (r: Self)
        ensures
            r@.script == script.deep_view(),
            r@.modules == resolution(
                script.deep_view().module_handles,
                script.deep_view().identifiers,
                script.deep_view().address_identifiers,
                modules.deep_view(),
            ),
    {
        let resolved = module_resolution(
            &script.module_handles,
            &script.identifiers,
            &script.address_identifiers,
            modules,
        );
        MoveCode { script, modules: resolved }
    }

    /// Wraps a decoded script with an empty module mapping.
    pub fn new_no_mods(script: CompiledScript) -> (r: Self)
        ensures
            r@.script == script.deep_view(),
            r@.modules == Seq::<(ModuleHandle, CompiledModuleV)>::empty(),
    {
        let modules: Vec<(ModuleHandle, CompiledModule)> = Vec::new();
        proof {
            assert(modules.deep_view() =~= Seq::<(ModuleHandle, CompiledModuleV)>::empty());
        }
        MoveCode { script, modules }
    }

    /// The declared module handle at `idx` in the script's table.
    pub fn module_handle(&self, idx: u16) -> (r: Result<ModuleHandle, MoveError>)
        ensures
            r == module_handle_spec(self@, idx),
    {
        if (idx as usize) < self.script.module_handles.len() {
            Ok(self.script.module_handles[idx as usize])
        } else {
            Err(MoveError::IndexOutOfRange)
        }
    }

    /// The identifier at `idx` in the script's pool.
    pub fn identifier_resolve(&self, idx: u16) -> (r: Result<Vec<u8>, MoveError>)
        ensures
            match r {
                Ok(v) => identifier_spec(self@, idx) == Ok::<_, MoveError>(v.deep_view()),
                Err(e) => identifier_spec(self@, idx) == Err::<Seq<u8>, _>(e),
            },
    {
        if (idx as usize) < self.script.identifiers.len() {
            Ok(copy_bytes(&self.script.identifiers[idx as usize]))
        } else {
            Err(MoveError::IndexOutOfRange)
        }
    }

    /// The function handle at `idx` in the script's table.
    pub fn fn_handle(&self, idx: u16) -> (r: Result<FunctionHandle, MoveError>)
        ensures
            r == fn_handle_spec(self@, idx),
    {
        if (idx as usize) < self.script.function_handles.len() {
            Ok(self.script.function_handles[idx as usize])
        } else {
            Err(MoveError::IndexOutOfRange)
        }
    }

    /// The constant at `idx` in the script's pool.
    pub fn resolve_const(&self, idx: u16) -> (r: Result<Constant, MoveError>)
        ensures
            match r {
                Ok(c) => constant_spec(self@, idx) == Ok::<_, MoveError>(c.deep_view()),
                Err(e) => constant_spec(self@, idx) == Err::<ConstantV, _>(e),
            },
    {
        if (idx as usize) < self.script.constant_pool.len() {
            Ok(self.script.constant_pool[idx as usize].duplicate())
        } else {
            Err(MoveError::IndexOutOfRange)
        }
    }

    /// Resolves the call of the function handle at `idx` to the code
    /// unit of the matching definition in its owning supplied module.
    ///
    /// `ModuleMissing` says the owning module was never supplied (or
    /// holds no function of that name); `InvalidModule` says the module
    /// was supplied but the matching definition carries no body.
    pub fn resolve_call(&self, idx: u16) -> (r: Result<CodeUnit, MoveError>)
        ensures
            match r {
                Ok(c) => resolve_call_spec(self@, idx) == Ok::<_, MoveError>(c.deep_view()),
                Err(e) => resolve_call_spec(self@, idx) == Err::<Seq<Bytecode>, _>(e),
            },
    {
        let fh = match self.fn_handle(idx) {
            Ok(fh) => fh,
            Err(e) => {
                return Err(e);
            },
        };
        let mh = match self.module_handle(fh.module) {
            Ok(mh) => mh,
            Err(e) => {
                return Err(e);
            },
        };
        let slot = match module_slot(&self.modules, &mh) {
            Some(s) => s,
            None => {
                return Err(MoveError::ModuleMissing);
            },
        };
        let name = match self.identifier_resolve(fh.name) {
            Ok(n) => n,
            Err(e) => {
                return Err(e);
            },
        };
        let module = &self.modules[slot].1;
        assert(module.deep_view() == self@.modules[slot as int].1);
        match find_def_in(module, &name) {
            Err(e) => Err(e),
            Ok(None) => Err(MoveError::ModuleMissing),
            Ok(Some(d)) => match &module.function_defs[d].code {
                Some(c) => Ok(c.duplicate()),
                None => Err(MoveError::InvalidModule),
            },
        }
    }

    /// Extracts the flat byte string of a constant already known to
    /// encode a non-empty vector of bytes; `None` for every other
    /// shape or a malformed payload.
    pub fn const_to_vec8(&self, c: Constant) -> (r: Option<Vec<u8>>)
        ensures
            match r {
                Some(v) => const_bytes_spec(c.deep_view()) == Some(v.deep_view()),
                None => const_bytes_spec(c.deep_view()) is None,
            },
    {
        if !matches!(c.tag, ConstantTag::VectorU8) {
            return None;
        }
        let (n, j) = match uleb_read(&c.data, 0) {
            Some(p) => p,
            None => {
                return None;
            },
        };
        if n == 0 {
            return None;
        }
        let remaining = c.data.len() - j;
        if (n as usize as u64) != n || (n as usize) != remaining {
            return None;
        }
        let mut out: Vec<u8> = Vec::new();
        let len = c.data.len();
        let mut k: usize = j;
        while k < len
            invariant
                j <= k <= len,
                len == c.data@.len(),
                out.deep_view() =~= c.data.deep_view().subrange(j as int, k as int),
            decreases len - k,
        {
            let ghost pre = out.deep_view();
            out.push(c.data[k]);
            assert(out.deep_view() =~= pre.push(c.data.deep_view()[k as int]));
            k = k + 1;
        }
        assert(out.deep_view() =~= c.data.deep_view().skip(j as int));
        Some(out)
    }

    /// Finds the position of the mapping entry keyed by `mh`.
    pub(crate) fn module_slot_of(&self, mh: &ModuleHandle) -> (r: Option<usize>)
        ensures
            match r {
                Some(i) => i < self@.modules.len() && assoc_slot(self@.modules, *mh) == Some(
                    i as int,
                ),
                None => assoc_slot(self@.modules, *mh) is None,
            },
    {
        module_slot(&self.modules, mh)
    }

    /// The supplied module stored at position `i` of the mapping.
    pub(crate) fn module_at(&self, i: usize) -> (r: &CompiledModule)
        requires
            i < self@.modules.len(),
        ensures
            r.deep_view() == self@.modules[i as int].1,
    {
        &self.modules[i].1
    }

    /// Hands back the script's own code unit.
    pub fn disassemble_script(self) -> (r: CodeUnit)
        ensures
            r.deep_view() == self@.script.code,
    {
        self.script.code
    }
}

} // verus!
