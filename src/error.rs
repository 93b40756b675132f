use vstd::prelude::*;

verus! {

/// Every failure that decoding, store construction or execution can report.
#[derive(Debug, Clone, Copy, PartialEq, Eq, Structural)]
pub enum Error {
    /// The input does not start with the module magic tag.
    BadMagic,
    /// A read or a length-delimited region runs past the end of its input.
    UnexpectedEnd,
    /// A variable-length integer is truncated or does not fit its width.
    BadInteger,
    /// A section code that the format does not define.
    UnknownSection(u8),
    /// A section code that the format defines but this decoder does not handle.
    UnsupportedSection(u8),
    /// A value type byte other than the two known ones.
    UnknownValueType(u8),
    /// An opcode byte outside the supported instruction set.
    UnknownOpcode(u8),
    /// An export name that is not valid UTF-8.
    InvalidUtf8,
    /// An export kind other than a function export.
    UnsupportedExportKind(u8),
    /// A function refers to a signature that the type section does not hold.
    FuncTypeNotFound,
    /// The function and code sections have different lengths.
    FunctionCountMismatch,
    /// A call names an export that the module does not have.
    ExportNotFound,
    /// An export refers to a function index outside the function space.
    FuncNotFound,
    /// A local index outside the current frame's locals.
    LocalNotFound,
    /// An instruction or a call needs more operands than the stack holds.
    StackUnderflow,
    /// An addition on operands whose types do not match the instruction.
    TypeMismatch,
    /// A function with a result left no value on the stack.
    NoReturnValue,
}

} // verus!
