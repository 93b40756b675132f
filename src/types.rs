use vstd::prelude::*;

verus! {

/// The type of a local, a parameter or a result.
#[derive(Debug, Clone, Copy, PartialEq, Eq, Structural)]
pub enum ValueType {
    I32,
    I64,
}

/// The value type that a type byte denotes, if any.
pub open spec fn value_type_of(b: u8) -> Option<ValueType> {
    if b == 0x7F {
        Some(ValueType::I32)
    } else if b == 0x7E {
        Some(ValueType::I64)
    } else {
        None
    }
}

impl ValueType {
    pub fn from_byte(b: u8) -> (r: Option<ValueType>)
        ensures
            r == value_type_of(b),
    {
        if b == 0x7F {
            Some(ValueType::I32)
        } else if b == 0x7E {
            Some(ValueType::I64)
        } else {
            None
        }
    }
}

/// A function signature.
#[derive(Debug, Clone, PartialEq, Eq, Default)]
pub struct FuncType {
    pub params: Vec<ValueType>,
    pub results: Vec<ValueType>,
}

pub struct FuncTypeModel {
    pub params: Seq<ValueType>,
    pub results: Seq<ValueType>,
}

impl View for FuncType {
    type V = FuncTypeModel;

    open spec fn view(&self) -> FuncTypeModel {
        FuncTypeModel { params: self.params@, results: self.results@ }
    }
}

/// A run of `type_count` locals that all have type `value_type`.
#[derive(Debug, Clone, Copy, PartialEq, Eq, Structural)]
pub struct FunctionLocal {
    pub type_count: u32,
    pub value_type: ValueType,
}

/// The instructions of the supported subset.
#[derive(Debug, Clone, Copy, PartialEq, Eq, Structural)]
pub enum Instruction {
    End,
    LocalGet(u32),
    I64Const(i64),
    I32Add,
    I64Add,
}

/// The opcode bytes of the supported subset.
#[derive(Debug, Clone, Copy, PartialEq, Eq, Structural)]
pub enum Opcode {
    End,
    LocalGet,
    I64Const,
    I32Add,
    I64Add,
}

pub open spec fn opcode_of(b: u8) -> Option<Opcode> {
    if b == 0x0B {
        Some(Opcode::End)
    } else if b == 0x20 {
        Some(Opcode::LocalGet)
    } else if b == 0x42 {
        Some(Opcode::I64Const)
    } else if b == 0x6A {
        Some(Opcode::I32Add)
    } else if b == 0x7C {
        Some(Opcode::I64Add)
    } else {
        None
    }
}

impl Opcode {
    pub fn from_byte(b: u8) -> (r: Option<Opcode>)
        ensures
            r == opcode_of(b),
    {
        if b == 0x0B {
            Some(Opcode::End)
        } else if b == 0x20 {
            Some(Opcode::LocalGet)
        } else if b == 0x42 {
            Some(Opcode::I64Const)
        } else if b == 0x6A {
            Some(Opcode::I32Add)
        } else if b == 0x7C {
            Some(Opcode::I64Add)
        } else {
            None
        }
    }
}

/// The section codes of the binary format.
#[derive(Debug, Clone, Copy, PartialEq, Eq, Structural)]
pub enum SectionCode {
    Custom,
    Type,
    Import,
    Function,
    Table,
    Memory,
    Global,
    Export,
    Start,
    Element,
    Code,
    Data,
}

pub open spec fn section_code_of(b: u8) -> Option<SectionCode> {
    if b == 0 {
        Some(SectionCode::Custom)
    } else if b == 1 {
        Some(SectionCode::Type)
    } else if b == 2 {
        Some(SectionCode::Import)
    } else if b == 3 {
        Some(SectionCode::Function)
    } else if b == 4 {
        Some(SectionCode::Table)
    } else if b == 5 {
        Some(SectionCode::Memory)
    } else if b == 6 {
        Some(SectionCode::Global)
    } else if b == 7 {
        Some(SectionCode::Export)
    } else if b == 8 {
        Some(SectionCode::Start)
    } else if b == 9 {
        Some(SectionCode::Element)
    } else if b == 10 {
        Some(SectionCode::Code)
    } else if b == 11 {
        Some(SectionCode::Data)
    } else {
        None
    }
}

impl SectionCode {
    pub fn from_byte(b: u8) -> (r: Option<SectionCode>)
        ensures
            r == section_code_of(b),
    {
        if b == 0 {
            Some(SectionCode::Custom)
        } else if b == 1 {
            Some(SectionCode::Type)
        } else if b == 2 {
            Some(SectionCode::Import)
        } else if b == 3 {
            Some(SectionCode::Function)
        } else if b == 4 {
            Some(SectionCode::Table)
        } else if b == 5 {
            Some(SectionCode::Memory)
        } else if b == 6 {
            Some(SectionCode::Global)
        } else if b == 7 {
            Some(SectionCode::Export)
        } else if b == 8 {
            Some(SectionCode::Start)
        } else if b == 9 {
            Some(SectionCode::Element)
        } else if b == 10 {
            Some(SectionCode::Code)
        } else if b == 11 {
            Some(SectionCode::Data)
        } else {
            None
        }
    }
}

/// A decoded function body: its local runs and its instructions.
#[derive(Debug, Clone, PartialEq, Eq, Default)]
pub struct Function {
    pub locals: Vec<FunctionLocal>,
    pub code: Vec<Instruction>,
}

pub struct FunctionModel {
    pub locals: Seq<FunctionLocal>,
    pub code: Seq<Instruction>,
}

impl View for Function {
    type V = FunctionModel;

    open spec fn view(&self) -> FunctionModel {
        FunctionModel { locals: self.locals@, code: self.code@ }
    }
}

/// What an export refers to: only functions, by index.
#[derive(Debug, Clone, Copy, PartialEq, Eq, Structural)]
pub enum ExportDesc {
    Func(u32),
}

/// A named export of a module.
#[derive(Debug, Clone, PartialEq, Eq)]
pub struct Export {
    pub name: String,
    pub desc: ExportDesc,
}

pub struct ExportModel {
    pub name: Seq<char>,
    pub desc: ExportDesc,
}

impl View for Export {
    type V = ExportModel;

    open spec fn view(&self) -> ExportModel {
        ExportModel { name: self.name@, desc: self.desc }
    }
}

} // verus!
