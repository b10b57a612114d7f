use vstd::prelude::*;

verus! {

// The object model of the bytecode format, as plain values.
//
// Every cross-reference is a small integer index into a pool owned by
// the same binary; no reference ever crosses from one binary's pools
// into another's.  Identifiers and address identifiers are byte
// strings; two handles denote the same module exactly when their
// resolved address bytes and name bytes are equal, never merely
// because their pool indices coincide.

/// A module handle: a pair of pool indices inside its owning binary.
#[derive(Clone, Copy, Debug, PartialEq, Eq, Structural)]
pub struct ModuleHandle {
    /// Index into the owning binary's address identifier pool.
    pub address: u16,
    /// Index into the owning binary's identifier pool.
    pub name: u16,
}

/// A function handle: the owning module handle index plus the index of
/// the function's name, both inside the same binary's pools.
#[derive(Clone, Copy, Debug, PartialEq, Eq, Structural)]
pub struct FunctionHandle {
    /// Index into the owning binary's module handle table.
    pub module: u16,
    /// Index into the owning binary's identifier pool.
    pub name: u16,
}

/// One bytecode instruction of the source format.
///
/// Only the instructions that the linker, the disassembler and the
/// lowering pass inspect are distinguished; every other opcode is
/// carried through opaquely as `Other` with its opcode byte.
#[derive(Clone, Copy, Debug, PartialEq, Eq, Structural)]
pub enum Bytecode {
    /// Call of the function handle at the given index.
    Call(u16),
    /// Load an unsigned 64-bit literal.
    LdU64(u64),
    /// Load the constant at the given constant pool index.
    LdConst(u16),
    /// Copy a local onto the stack.
    CopyLoc(u8),
    /// Move a local onto the stack.
    MoveLoc(u8),
    /// Store the top of the stack into a local.
    StLoc(u8),
    /// Discard the top of the stack.
    Pop,
    /// Return from the current function.
    Ret,
    /// Pack the struct definition at the given index.
    Pack(u16),
    /// Unpack the struct definition at the given index.
    Unpack(u16),
    /// Mutably borrow the global at the given struct definition index.
    MutBorrowGlobal(u16),
    /// Immutably borrow the global at the given struct definition index.
    ImmBorrowGlobal(u16),
    /// Existence check for the global at the given struct definition index.
    Exists(u16),
    /// Move the global at the given struct definition index out of storage.
    MoveFrom(u16),
    /// Move the top of the stack into the global at the given struct
    /// definition index.
    MoveTo(u16),
    /// Any other instruction, carried by its opcode byte.
    Other(u8),
}

impl DeepView for ModuleHandle {
    type V = ModuleHandle;

    open spec fn deep_view(&self) -> ModuleHandle {
        *self
    }
}

impl DeepView for FunctionHandle {
    type V = FunctionHandle;

    open spec fn deep_view(&self) -> FunctionHandle {
        *self
    }
}

impl DeepView for Bytecode {
    type V = Bytecode;

    open spec fn deep_view(&self) -> Bytecode {
        *self
    }
}

/// An ordered instruction sequence: a script or function body.
#[derive(Debug, PartialEq, Eq)]
pub struct CodeUnit {
    /// The instructions, in execution order.
    pub code: Vec<Bytecode>,
}

impl DeepView for CodeUnit {
    type V = Seq<Bytecode>;

    open spec fn deep_view(&self) -> Seq<Bytecode> {
        self.code.deep_view()
    }
}

/// The mathematical shape of a function definition.
pub struct FunctionDefinitionV {
    /// Index into the owning module's function handle table.
    pub function: u16,
    /// The body, absent for native stubs.
    pub code: Option<Seq<Bytecode>>,
}

/// A function definition inside a module: the handle it implements and
/// an optional body (native stubs have none).
#[derive(Debug, PartialEq, Eq)]
pub struct FunctionDefinition {
    /// Index into the owning module's function handle table.
    pub function: u16,
    /// The body, absent for native stubs.
    pub code: Option<CodeUnit>,
}

impl DeepView for FunctionDefinition {
    type V = FunctionDefinitionV;

    open spec fn deep_view(&self) -> FunctionDefinitionV {
        FunctionDefinitionV { function: self.function, code: self.code.deep_view() }
    }
}

/// The mathematical shape of a struct field layout.
pub enum FieldInfoV {
    /// The struct is native; its layout is opaque.
    Native,
    /// The declared fields, each named by an identifier pool index in
    /// the owning module.
    Declared(Seq<u16>),
}

/// The field layout of a struct definition.
#[derive(Debug, PartialEq, Eq)]
pub enum FieldInfo {
    /// The struct is native; its layout is opaque.
    Native,
    /// The declared fields, each named by an identifier pool index in
    /// the owning module.
    Declared(Vec<u16>),
}

impl DeepView for FieldInfo {
    type V = FieldInfoV;

    open spec fn deep_view(&self) -> FieldInfoV {
        match self {
            FieldInfo::Native => FieldInfoV::Native,
            FieldInfo::Declared(fields) => FieldInfoV::Declared(fields.deep_view()),
        }
    }
}

/// The mathematical shape of a struct definition.
pub struct StructDefinitionV {
    /// The field layout.
    pub field_information: FieldInfoV,
}

/// A struct definition owned by a module, referenced from instructions
/// by its index in the module's struct definition table.
#[derive(Debug, PartialEq, Eq)]
pub struct StructDefinition {
    /// The field layout.
    pub field_information: FieldInfo,
}

impl DeepView for StructDefinition {
    type V = StructDefinitionV;

    open spec fn deep_view(&self) -> StructDefinitionV {
        StructDefinitionV { field_information: self.field_information.deep_view() }
    }
}

/// The value shape a constant claims to encode.
#[derive(Clone, Copy, Debug, PartialEq, Eq, Structural)]
pub enum ConstantTag {
    /// A boolean.
    Bool,
    /// An unsigned 8-bit integer.
    U8,
    /// An unsigned 64-bit integer.
    U64,
    /// An unsigned 128-bit integer.
    U128,
    /// An account address.
    Address,
    /// A vector of unsigned 8-bit integers.
    VectorU8,
    /// Any other shape; its payload is opaque to this crate.
    OtherShape,
}

/// The mathematical shape of a constant.
pub struct ConstantV {
    /// The claimed value shape.
    pub tag: ConstantTag,
    /// The serialized payload.
    pub data: Seq<u8>,
}

/// A constant from a binary's constant pool: a tagged, serialized value.
///
/// The payload of a `VectorU8` constant is a length prefix in base-128
/// (each byte holds seven value bits, high bit set on all but the last
/// byte, least significant group first) followed by exactly that many
/// element bytes.
#[derive(Debug, PartialEq, Eq)]
pub struct Constant {
    /// The claimed value shape.
    pub tag: ConstantTag,
    /// The serialized payload.
    pub data: Vec<u8>,
}

impl DeepView for Constant {
    type V = ConstantV;

    open spec fn deep_view(&self) -> ConstantV {
        ConstantV { tag: self.tag, data: self.data.deep_view() }
    }
}

/// The mathematical shape of a compiled script.
pub struct CompiledScriptV {
    /// Every external module the script references.
    pub module_handles: Seq<ModuleHandle>,
    /// The identifier pool: name byte strings.
    pub identifiers: Seq<Seq<u8>>,
    /// The address identifier pool: address byte strings.
    pub address_identifiers: Seq<Seq<u8>>,
    /// The function handle table.
    pub function_handles: Seq<FunctionHandle>,
    /// The constant pool.
    pub constant_pool: Seq<ConstantV>,
    /// The script body.
    pub code: Seq<Bytecode>,
}

/// A compiled script: its own pools, a module handle table enumerating
/// every external module it references, and exactly one code unit.
#[derive(Debug)]
pub struct CompiledScript {
    /// Every external module the script references.
    pub module_handles: Vec<ModuleHandle>,
    /// The identifier pool: name byte strings.
    pub identifiers: Vec<Vec<u8>>,
    /// The address identifier pool: address byte strings.
    pub address_identifiers: Vec<Vec<u8>>,
    /// The function handle table.
    pub function_handles: Vec<FunctionHandle>,
    /// The constant pool.
    pub constant_pool: Vec<Constant>,
    /// The script body.
    pub code: CodeUnit,
}

impl DeepView for CompiledScript {
    type V = CompiledScriptV;

    open spec fn deep_view(&self) -> CompiledScriptV {
        CompiledScriptV {
            module_handles: self.module_handles.deep_view(),
            identifiers: self.identifiers.deep_view(),
            address_identifiers: self.address_identifiers.deep_view(),
            function_handles: self.function_handles.deep_view(),
            constant_pool: self.constant_pool.deep_view(),
            code: self.code.deep_view(),
        }
    }
}

/// The mathematical shape of a compiled module.
pub struct CompiledModuleV {
    /// Index of the module's own identity in its module handle table.
    pub self_module_handle_idx: u16,
    /// The module handle table.
    pub module_handles: Seq<ModuleHandle>,
    /// The identifier pool: name byte strings.
    pub identifiers: Seq<Seq<u8>>,
    /// The address identifier pool: address byte strings.
    pub address_identifiers: Seq<Seq<u8>>,
    /// The function handle table.
    pub function_handles: Seq<FunctionHandle>,
    /// The function definition table.
    pub function_defs: Seq<FunctionDefinitionV>,
    /// The struct definition table.
    pub struct_defs: Seq<StructDefinitionV>,
}

/// A compiled module: its own pools, handle tables, function
/// definitions and struct definitions.  One of its module handles,
/// distinguished by `self_module_handle_idx`, declares the module's own
/// identity.
#[derive(Debug)]
pub struct CompiledModule {
    /// Index of the module's own identity in its module handle table.
    pub self_module_handle_idx: u16,
    /// The module handle table.
    pub module_handles: Vec<ModuleHandle>,
    /// The identifier pool: name byte strings.
    pub identifiers: Vec<Vec<u8>>,
    /// The address identifier pool: address byte strings.
    pub address_identifiers: Vec<Vec<u8>>,
    /// The function handle table.
    pub function_handles: Vec<FunctionHandle>,
    /// The function definition table.
    pub function_defs: Vec<FunctionDefinition>,
    /// The struct definition table.
    pub struct_defs: Vec<StructDefinition>,
}

impl DeepView for CompiledModule {
    type V = CompiledModuleV;

    open spec fn deep_view(&self) -> CompiledModuleV {
        CompiledModuleV {
            self_module_handle_idx: self.self_module_handle_idx,
            module_handles: self.module_handles.deep_view(),
            identifiers: self.identifiers.deep_view(),
            address_identifiers: self.address_identifiers.deep_view(),
            function_handles: self.function_handles.deep_view(),
            function_defs: self.function_defs.deep_view(),
            struct_defs: self.struct_defs.deep_view(),
        }
    }
}

/// Compares two byte strings by content.
pub fn bytes_eq(a: &Vec<u8>, b: &Vec<u8>) -> (r: bool)
    ensures
        r == (a.deep_view() == b.deep_view()),
{
    if a.len() != b.len() {
        assert(a.deep_view().len() != b.deep_view().len());
        return false;
    }
    let n = a.len();
    let mut i: usize = 0;
    while i < n
        invariant
            i <= n,
            n == a@.len(),
            n == b@.len(),
            forall|j: int| 0 <= j < i ==> a@[j] == b@[j],
        decreases n - i,
    {
        if a[i] != b[i] {
            assert(a.deep_view()[i as int] != b.deep_view()[i as int]);
            return false;
        }
        i = i + 1;
    }
    assert(a.deep_view() =~= b.deep_view());
    true
}

/// Copies a vector of plain values.
pub fn copy_flat<T: Copy>(a: &Vec<T>) -> (r: Vec<T>)
    ensures
        r@ == a@,
{
    let n = a.len();
    let mut r: Vec<T> = Vec::new();
    let mut i: usize = 0;
    while i < n
        invariant
            i <= n,
            n == a@.len(),
            r@ =~= a@.subrange(0, i as int),
        decreases n - i,
    {
        r.push(a[i]);
        i = i + 1;
    }
    assert(r@ =~= a@);
    r
}

/// Copies a byte string.
pub fn copy_bytes(a: &Vec<u8>) -> (r: Vec<u8>)
    ensures
        r.deep_view() == a.deep_view(),
        r@ == a@,
{
    let r = copy_flat(a);
    assert(r.deep_view() =~= a.deep_view());
    r
}

/// Copies a pool of byte strings.
pub fn copy_byte_pool(a: &Vec<Vec<u8>>) -> (r: Vec<Vec<u8>>)
    ensures
        r.deep_view() == a.deep_view(),
{
    let n = a.len();
    let mut r: Vec<Vec<u8>> = Vec::new();
    let mut i: usize = 0;
    while i < n
        invariant
            i <= n,
            n == a@.len(),
            r.deep_view() =~= a.deep_view().subrange(0, i as int),
        decreases n - i,
    {
        let ghost pre = r.deep_view();
        let b = copy_bytes(&a[i]);
        r.push(b);
        assert(r.deep_view() =~= pre.push(b.deep_view()));
        i = i + 1;
    }
    assert(r.deep_view() =~= a.deep_view());
    r
}

impl CodeUnit {
    /// Copies the code unit.
    pub fn duplicate(&self) -> (r: CodeUnit)
        ensures
            r.deep_view() == self.deep_view(),
    {
        let r = CodeUnit { code: copy_flat(&self.code) };
        assert(r.deep_view() =~= self.deep_view());
        r
    }
}

impl FunctionDefinition {
    /// Copies the function definition.
    pub fn duplicate(&self) -> (r: FunctionDefinition)
        ensures
            r.deep_view() == self.deep_view(),
    {
        let code = match &self.code {
            Some(c) => Some(c.duplicate()),
            None => None,
        };
        FunctionDefinition { function: self.function, code }
    }
}

impl StructDefinition {
    /// Copies the struct definition.
    pub fn duplicate(&self) -> (r: StructDefinition)
        ensures
            r.deep_view() == self.deep_view(),
    {
        let field_information = match &self.field_information {
            FieldInfo::Native => FieldInfo::Native,
            FieldInfo::Declared(fields) => {
                let f = copy_flat(fields);
                assert(f.deep_view() =~= fields.deep_view());
                FieldInfo::Declared(f)
            },
        };
        StructDefinition { field_information }
    }
}

impl Constant {
    /// Copies the constant.
    pub fn duplicate(&self) -> (r: Constant)
        ensures
            r.deep_view() == self.deep_view(),
    {
        Constant { tag: self.tag, data: copy_bytes(&self.data) }
    }
}

impl CompiledModule {
    /// Copies the module.
    pub fn duplicate(&self) -> (r: CompiledModule)
        ensures
            r.deep_view() == self.deep_view(),
    {
        let module_handles = copy_flat(&self.module_handles);
        assert(module_handles.deep_view() =~= self.module_handles.deep_view());
        let function_handles = copy_flat(&self.function_handles);
        assert(function_handles.deep_view() =~= self.function_handles.deep_view());
        let n_defs = self.function_defs.len();
        let mut function_defs: Vec<FunctionDefinition> = Vec::new();
        let mut i: usize = 0;
        while i < n_defs
            invariant
                i <= n_defs,
                n_defs == self.function_defs@.len(),
                function_defs.deep_view() =~= self.function_defs.deep_view().subrange(
                    0,
                    i as int,
                ),
            decreases n_defs - i,
        {
            let ghost pre = function_defs.deep_view();
            let d = self.function_defs[i].duplicate();
            function_defs.push(d);
            assert(function_defs.deep_view() =~= pre.push(d.deep_view()));
            i = i + 1;
        }
        assert(function_defs.deep_view() =~= self.function_defs.deep_view());
        let n_structs = self.struct_defs.len();
        let mut struct_defs: Vec<StructDefinition> = Vec::new();
        let mut j: usize = 0;
        while j < n_structs
            invariant
                j <= n_structs,
                n_structs == self.struct_defs@.len(),
                struct_defs.deep_view() =~= self.struct_defs.deep_view().subrange(0, j as int),
            decreases n_structs - j,
        {
            let ghost pre = struct_defs.deep_view();
            let s = self.struct_defs[j].duplicate();
            struct_defs.push(s);
            assert(struct_defs.deep_view() =~= pre.push(s.deep_view()));
            j = j + 1;
        }
        assert(struct_defs.deep_view() =~= self.struct_defs.deep_view());
        CompiledModule {
            self_module_handle_idx: self.self_module_handle_idx,
            module_handles,
            identifiers: copy_byte_pool(&self.identifiers),
            address_identifiers: copy_byte_pool(&self.address_identifiers),
            function_handles,
            function_defs,
            struct_defs,
        }
    }
}

} // verus!
