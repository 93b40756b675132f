use vstd::prelude::*;
use vstd::slice::slice_subrange;
use crate::decode::{
    code_item, counted, decode_code_section, decode_export_section, decode_function_section,
    decode_type_section, export_item, func_type_item, read_u32, read_u8, u32_at, u32_item, u8_at,
};
use crate::error::Error;
use crate::types::{
    section_code_of, Export, ExportModel, FuncType, FuncTypeModel, Function, FunctionModel,
    SectionCode,
};

verus! {

/// A decoded module. A section is `None` until its code is seen in the input.
#[derive(Debug, PartialEq, Eq)]
pub struct Module {
    pub magic: String,
    pub version: u32,
    pub type_section: Option<Vec<FuncType>>,
    pub function_section: Option<Vec<u32>>,
    pub code_section: Option<Vec<Function>>,
    pub export_section: Option<Vec<Export>>,
}

pub struct ModuleModel {
    pub magic: Seq<char>,
    pub version: u32,
    pub types: Option<Seq<FuncTypeModel>>,
    pub funcs: Option<Seq<u32>>,
    pub code: Option<Seq<FunctionModel>>,
    pub exports: Option<Seq<ExportModel>>,
}

pub open spec fn types_view(o: Option<Vec<FuncType>>) -> Option<Seq<FuncTypeModel>> {
    match o {
        Some(v) => Some(v@.map_values(|t: FuncType| t@)),
        None => None,
    }
}

pub open spec fn code_view(o: Option<Vec<Function>>) -> Option<Seq<FunctionModel>> {
    match o {
        Some(v) => Some(v@.map_values(|f: Function| f@)),
        None => None,
    }
}

pub open spec fn exports_view(o: Option<Vec<Export>>) -> Option<Seq<ExportModel>> {
    match o {
        Some(v) => Some(v@.map_values(|e: Export| e@)),
        None => None,
    }
}

pub open spec fn funcs_view(o: Option<Vec<u32>>) -> Option<Seq<u32>> {
    match o {
        Some(v) => Some(v@),
        None => None,
    }
}

impl View for Module {
    type V = ModuleModel;

    open spec fn view(&self) -> ModuleModel {
        ModuleModel {
            magic: self.magic@,
            version: self.version,
            types: types_view(self.type_section),
            funcs: funcs_view(self.function_section),
            code: code_view(self.code_section),
            exports: exports_view(self.export_section),
        }
    }
}

/// The text of the magic tag.
pub open spec fn magic_text() -> Seq<char> {
    seq!['\0', 'a', 's', 'm']
}

/// A module with the given version and no sections.
pub open spec fn empty_module(version: u32) -> ModuleModel {
    ModuleModel {
        magic: magic_text(),
        version,
        types: None,
        funcs: None,
        code: None,
        exports: None,
    }
}

/// The input starts with the four bytes of the magic tag.
pub open spec fn has_magic(s: Seq<u8>) -> bool {
    s.len() >= 4 && s[0] == 0x00 && s[1] == 0x61 && s[2] == 0x73 && s[3] == 0x6D
}

/// The little-endian 32-bit integer in the four bytes from `p`.
pub open spec fn le_u32_at(s: Seq<u8>, p: int) -> u32 {
    (s[p] as int + s[p + 1] as int * 0x100 + s[p + 2] as int * 0x10000 + s[p + 3] as int
        * 0x1000000) as u32
}

/// The module after a section with code byte `b` (read as `c`) and payload
/// `payload` is read. A later section of a kind replaces an earlier one.
pub open spec fn apply_section(m: ModuleModel, b: u8, c: SectionCode, payload: Seq<u8>) -> Result<
    ModuleModel,
    Error,
> {
    match c {
        SectionCode::Type => match counted(payload, func_type_item(payload)) {
            Ok(ts) => Ok(ModuleModel { types: Some(ts), ..m }),
            Err(e) => Err(e),
        },
        SectionCode::Function => match counted(payload, u32_item(payload)) {
            Ok(xs) => Ok(ModuleModel { funcs: Some(xs), ..m }),
            Err(e) => Err(e),
        },
        SectionCode::Code => match counted(payload, code_item(payload)) {
            Ok(fs) => Ok(ModuleModel { code: Some(fs), ..m }),
            Err(e) => Err(e),
        },
        SectionCode::Export => match counted(payload, export_item(payload)) {
            Ok(es) => Ok(ModuleModel { exports: Some(es), ..m }),
            Err(e) => Err(e),
        },
        _ => Err(Error::UnsupportedSection(b)),
    }
}

/// The sections from position `p` to the end of `s`, applied in order to `m`.
pub open spec fn sections(s: Seq<u8>, p: int, m: ModuleModel) -> Result<ModuleModel, Error>
    decreases s.len() - p,
{
    if p < 0 || p >= s.len() {
        Ok(m)
    } else {
        match u8_at(s, p) {
            Ok((b, p1)) => match u32_at(s, p1) {
                Ok((n, p2)) => match section_code_of(b) {
                    Some(c) => if p2 + n > s.len() {
                        Err(Error::UnexpectedEnd)
                    } else if p2 + n <= p {
                        Err(Error::BadInteger)
                    } else {
                        match apply_section(m, b, c, s.subrange(p2, p2 + n)) {
                            Ok(m2) => sections(s, p2 + n, m2),
                            Err(e) => Err(e),
                        }
                    },
                    None => Err(Error::UnknownSection(b)),
                },
                Err(e) => Err(e),
            },
            Err(e) => Err(e),
        }
    }
}

/// What decoding the whole input gives.
pub open spec fn decode_module(s: Seq<u8>) -> Result<ModuleModel, Error> {
    if !has_magic(s) {
        Err(Error::BadMagic)
    } else if s.len() < 8 {
        Err(Error::UnexpectedEnd)
    } else {
        sections(s, 8, empty_module(le_u32_at(s, 4)))
    }
}

impl Default for Module {
    fn default() -> (r: Module)
        ensures
            r@ == empty_module(1),
    {
        Module::empty(1)
    }
}

impl Module {
    /// A module with the given version and no sections.
    pub fn empty(version: u32) -> (r: Module)
        ensures
            r@ == empty_module(version),
    {
        let magic = String::from_str("\0asm");
        proof {
            reveal_strlit("\0asm");
        }
        assert(magic@ == magic_text());
        Module {
            magic,
            version,
            type_section: None,
            function_section: None,
            code_section: None,
            export_section: None,
        }
    }

    /// Decodes a whole module from its bytes.
    pub fn new(input: &[u8]) -> (r: Result<Module, Error>)
        ensures
            match decode_module(input@) {
                Ok(m) => r matches Ok(v) && v@ == m,
                Err(e) => r == Err::<Module, Error>(e),
            },
    {
        let s = input;
        if s.len() < 4 || s[0] != 0x00 || s[1] != 0x61 || s[2] != 0x73 || s[3] != 0x6D {
            return Err(Error::BadMagic);
        }
        if s.len() < 8 {
            return Err(Error::UnexpectedEnd);
        }
        let version: u32 = s[4] as u32 + s[5] as u32 * 0x100 + s[6] as u32 * 0x10000 + s[7] as u32
            * 0x1000000;
        let mut module = Module::empty(version);
        let mut p: usize = 8;
        while p < s.len()
            invariant
                8 <= p <= s@.len(),
                s@ == input@,
                decode_module(s@) == sections(s@, p as int, module@),
            decreases s@.len() - p,
        {
            let (b, p1) = read_u8(s, p)?;
            let (n, p2) = read_u32(s, p1)?;
            let code = match SectionCode::from_byte(b) {
                Some(c) => c,
                None => return Err(Error::UnknownSection(b)),
            };
            if n as usize > s.len() - p2 {
                return Err(Error::UnexpectedEnd);
            }
            let end = p2 + n as usize;
            let payload = slice_subrange(s, p2, end);
            let ghost before = module@;
            match code {
                SectionCode::Type => {
                    module.type_section = Some(decode_type_section(payload)?);
                },
                SectionCode::Function => {
                    module.function_section = Some(decode_function_section(payload)?);
                },
                SectionCode::Code => {
                    module.code_section = Some(decode_code_section(payload)?);
                },
                SectionCode::Export => {
                    module.export_section = Some(decode_export_section(payload)?);
                },
                _ => return Err(Error::UnsupportedSection(b)),
            }
            assert(apply_section(before, b, code, payload@) == Ok::<ModuleModel, Error>(module@));
            p = end;
        }
        Ok(module)
    }
}

/// An input made of the magic tag and a version, with no section after
/// them, decodes to a module with that version and every section absent.
pub proof fn lemma_no_sections(s: Seq<u8>)
    requires
        has_magic(s),
        s.len() == 8,
    ensures
        decode_module(s) == Ok::<ModuleModel, Error>(empty_module(le_u32_at(s, 4))),
        s[4] == 1 && s[5] == 0 && s[6] == 0 && s[7] == 0 ==> decode_module(s) == Ok::<
            ModuleModel,
            Error,
        >(empty_module(1)),
{
}

/// A section whose declared length runs past the end of the input makes the
/// whole decoding fail, with no module.
pub proof fn lemma_truncated_section(s: Seq<u8>, p: int, m: ModuleModel, n: u32, q: int)
    requires
        0 <= p < s.len(),
        section_code_of(s[p]) is Some,
        u32_at(s, p + 1) == Ok::<(u32, int), Error>((n, q)),
        q + n > s.len(),
    ensures
        sections(s, p, m) == Err::<ModuleModel, Error>(Error::UnexpectedEnd),
        has_magic(s) && p == 8 ==> decode_module(s) == Err::<ModuleModel, Error>(
            Error::UnexpectedEnd,
        ),
{
}

} // verus!
