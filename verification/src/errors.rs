use vstd::prelude::*;

verus! {

/// Errors raised while linking, querying or lowering a script.
///
/// `ModuleMissing` and `InvalidModule` are deliberately distinct: the
/// first tells the caller to supply a missing module file, the second
/// that the module was supplied but the requested function cannot be
/// disassembled.  `IndexOutOfRange` marks a malformed binary whose pool
/// indices fall outside their pools; it is surfaced as an error rather
/// than a panic.  `UnimplementedOpcode` and `CyclicCall` are raised only
/// by the lowering pass.
#[derive(Clone, Copy, Debug, PartialEq, Eq, Structural)]
pub enum MoveError {
    /// A call target's owning module has no entry in the resolved
    /// module mapping, or the named function was not found in it.
    ModuleMissing,
    /// The owning module was resolved but the named function carries no
    /// code unit (for example a native stub).
    InvalidModule,
    /// A pool index in the binary falls outside its pool's bounds.
    IndexOutOfRange,
    /// The lowering pass met an instruction it has no rule for.
    UnimplementedOpcode,
    /// The lowering pass detected a cyclic call graph.
    CyclicCall,
}

/// Errors raised while turning a hexadecimal string into bytes.
#[derive(Clone, Copy, Debug, PartialEq, Eq, Structural)]
pub enum HexError {
    /// The digit string has odd length.
    OddLength,
    /// A character outside `0-9`, `a-f`, `A-F` occurs among the digits.
    InvalidHexCharacter,
}

} // verus!
