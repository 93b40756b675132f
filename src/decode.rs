use vstd::prelude::*;
use vstd::slice::slice_subrange;
use crate::error::Error;
use crate::leb::{leb128_i64_of, leb128_u32_of, leb_i64, leb_u32, utf8_text, utf8_text_of};
use crate::types::{
    opcode_of, section_code_of, value_type_of, Export, ExportDesc, ExportModel, FuncType,
    FuncTypeModel, Function, FunctionLocal, FunctionModel, Instruction, Opcode, SectionCode,
    ValueType,
};

verus! {

/// What a reader at a position gives: a value and the position after it.
pub type Parsed<T> = Result<(T, int), Error>;

/// An executable reading result agrees with its specification.
pub open spec fn agrees<T>(r: Result<(T, usize), Error>, m: Parsed<T>) -> bool {
    match r {
        Ok((v, q)) => m == Ok::<(T, int), Error>((v, q as int)),
        Err(e) => m == Err::<(T, int), Error>(e),
    }
}

/// An executable reading result agrees with its specification, through views.
pub open spec fn agrees_view<T: View>(r: Result<(T, usize), Error>, m: Parsed<T::V>) -> bool {
    match r {
        Ok((v, q)) => m == Ok::<(T::V, int), Error>((v@, q as int)),
        Err(e) => m == Err::<(T::V, int), Error>(e),
    }
}

pub open spec fn u8_at(s: Seq<u8>, p: int) -> Parsed<u8> {
    if 0 <= p < s.len() {
        Ok((s[p], p + 1))
    } else {
        Err(Error::UnexpectedEnd)
    }
}

pub open spec fn u32_at(s: Seq<u8>, p: int) -> Parsed<u32> {
    match leb128_u32_of(s.subrange(p, s.len() as int)) {
        Some((v, n)) => if 1 <= n <= s.len() - p {
            Ok((v, p + n))
        } else {
            Err(Error::BadInteger)
        },
        None => Err(Error::BadInteger),
    }
}

pub open spec fn i64_at(s: Seq<u8>, p: int) -> Parsed<i64> {
    match leb128_i64_of(s.subrange(p, s.len() as int)) {
        Some((v, n)) => if 1 <= n <= s.len() - p {
            Ok((v, p + n))
        } else {
            Err(Error::BadInteger)
        },
        None => Err(Error::BadInteger),
    }
}

/// `n` items read one after another from position `p` by `item`.
pub open spec fn repeat<T>(item: spec_fn(int) -> Parsed<T>, p: int, n: nat) -> Parsed<Seq<T>>
    decreases n,
{
    if n == 0 {
        Ok((Seq::empty(), p))
    } else {
        match repeat(item, p, (n - 1) as nat) {
            Ok((xs, q)) => match item(q) {
                Ok((x, q2)) => Ok((xs.push(x), q2)),
                Err(e) => Err(e),
            },
            Err(e) => Err(e),
        }
    }
}

/// Once a repetition fails, every longer one fails the same way.
pub proof fn lemma_repeat_err<T>(item: spec_fn(int) -> Parsed<T>, p: int, i: nat, n: nat)
    requires
        i <= n,
        repeat(item, p, i) is Err,
    ensures
        repeat(item, p, n) == repeat(item, p, i),
    decreases n,
{
    if n > i {
        lemma_repeat_err(item, p, i, (n - 1) as nat);
    }
}

/// One value type per byte, in order.
pub open spec fn value_types(b: Seq<u8>) -> Result<Seq<ValueType>, Error>
    decreases b.len(),
{
    if b.len() == 0 {
        Ok(Seq::empty())
    } else {
        match value_types(b.drop_last()) {
            Ok(ts) => match value_type_of(b.last()) {
                Some(t) => Ok(ts.push(t)),
                None => Err(Error::UnknownValueType(b.last())),
            },
            Err(e) => Err(e),
        }
    }
}

/// A length followed by that many value type bytes.
pub open spec fn value_type_vec_at(s: Seq<u8>, p: int) -> Parsed<Seq<ValueType>> {
    match u32_at(s, p) {
        Ok((n, q)) => if q + n > s.len() {
            Err(Error::UnexpectedEnd)
        } else {
            match value_types(s.subrange(q, q + n)) {
                Ok(ts) => Ok((ts, q + n)),
                Err(e) => Err(e),
            }
        },
        Err(e) => Err(e),
    }
}

/// One signature: a form byte, the parameter types and the result types.
pub open spec fn func_type_at(s: Seq<u8>, p: int) -> Parsed<FuncTypeModel> {
    match u8_at(s, p) {
        Ok((_, p1)) => match value_type_vec_at(s, p1) {
            Ok((params, p2)) => match value_type_vec_at(s, p2) {
                Ok((results, p3)) => Ok((FuncTypeModel { params, results }, p3)),
                Err(e) => Err(e),
            },
            Err(e) => Err(e),
        },
        Err(e) => Err(e),
    }
}

pub open spec fn func_type_item(s: Seq<u8>) -> spec_fn(int) -> Parsed<FuncTypeModel> {
    |p: int| func_type_at(s, p)
}

pub open spec fn u32_item(s: Seq<u8>) -> spec_fn(int) -> Parsed<u32> {
    |p: int| u32_at(s, p)
}

/// A count, then that many items; what follows them in the payload is ignored.
pub open spec fn counted<T>(s: Seq<u8>, item: spec_fn(int) -> Parsed<T>) -> Result<Seq<T>, Error> {
    match u32_at(s, 0) {
        Ok((n, q)) => match repeat(item, q, n as nat) {
            Ok((xs, _)) => Ok(xs),
            Err(e) => Err(e),
        },
        Err(e) => Err(e),
    }
}

/// Reads the form byte of a signature and its two type lists.
fn read_value_types(s: &[u8], p: usize) -> (r: Result<(Vec<ValueType>, usize), Error>)
    requires
        p <= s@.len(),
    ensures
        match r {
            Ok((ts, q)) => value_type_vec_at(s@, p as int) == Ok::<(Seq<ValueType>, int), Error>(
                (ts@, q as int),
            ) && q <= s@.len(),
            Err(e) => value_type_vec_at(s@, p as int) == Err::<(Seq<ValueType>, int), Error>(e),
        },
{
    let (n, q) = read_u32(s, p)?;
    if n as usize > s.len() - q {
        return Err(Error::UnexpectedEnd);
    }
    let end = q + n as usize;
    let b = slice_subrange(s, q, end);
    let mut ts: Vec<ValueType> = Vec::new();
    let mut i: usize = 0;
    while i < b.len()
        invariant
            i <= b@.len(),
            q <= end <= s@.len(),
            end == q + n,
            u32_at(s@, p as int) == Ok::<(u32, int), Error>((n, q as int)),
            b@ == s@.subrange(q as int, end as int),
            value_types(b@.subrange(0, i as int)) == Ok::<Seq<ValueType>, Error>(ts@),
        decreases b@.len() - i,
    {
        assert(b@.subrange(0, i + 1).drop_last() == b@.subrange(0, i as int));
        match ValueType::from_byte(b[i]) {
            Some(t) => ts.push(t),
            None => {
                proof {
                    assert(value_types(b@.subrange(0, i + 1)) == Err::<Seq<ValueType>, Error>(
                        Error::UnknownValueType(b@[i as int]),
                    ));
                    lemma_value_types_err(b@, (i + 1) as nat);
                    assert(value_types(b@) == Err::<Seq<ValueType>, Error>(
                        Error::UnknownValueType(b@[i as int]),
                    ));
                }
                return Err(Error::UnknownValueType(b[i]));
            },
        }
        i = i + 1;
    }
    assert(b@.subrange(0, i as int) == b@);
    Ok((ts, end))
}

/// A failure in the first `i` bytes is the failure of the whole list.
proof fn lemma_value_types_err(b: Seq<u8>, i: nat)
    requires
        i <= b.len(),
        value_types(b.subrange(0, i as int)) is Err,
    ensures
        value_types(b) == value_types(b.subrange(0, i as int)),
    decreases b.len() - i,
{
    if i < b.len() {
        assert(b.subrange(0, (i + 1) as int).drop_last() == b.subrange(0, i as int));
        lemma_value_types_err(b, i + 1);
    } else {
        assert(b.subrange(0, i as int) == b);
    }
}

pub(crate) fn read_u8(s: &[u8], p: usize) -> (r: Result<(u8, usize), Error>)
    ensures
        agrees(r, u8_at(s@, p as int)),
        r matches Ok((_, q)) ==> q <= s@.len(),
{
    if p < s.len() {
        Ok((s[p], p + 1))
    } else {
        Err(Error::UnexpectedEnd)
    }
}

pub(crate) fn read_u32(s: &[u8], p: usize) -> (r: Result<(u32, usize), Error>)
    requires
        p <= s@.len(),
    ensures
        agrees(r, u32_at(s@, p as int)),
        r matches Ok((_, q)) ==> p < q <= s@.len(),
{
    match leb_u32(s, p) {
        Some((v, rest)) => Ok((v, s.len() - rest)),
        None => Err(Error::BadInteger),
    }
}

fn read_i64(s: &[u8], p: usize) -> (r: Result<(i64, usize), Error>)
    requires
        p <= s@.len(),
    ensures
        agrees(r, i64_at(s@, p as int)),
        r matches Ok((_, q)) ==> p < q <= s@.len(),
{
    match leb_i64(s, p) {
        Some((v, rest)) => Ok((v, s.len() - rest)),
        None => Err(Error::BadInteger),
    }
}

fn read_func_type(s: &[u8], p: usize) -> (r: Result<(FuncType, usize), Error>)
    requires
        p <= s@.len(),
    ensures
        agrees_view(r, func_type_at(s@, p as int)),
        r matches Ok((_, q)) ==> q <= s@.len(),
{
    let (_, p1) = read_u8(s, p)?;
    let (params, p2) = read_value_types(s, p1)?;
    let (results, p3) = read_value_types(s, p2)?;
    Ok((FuncType { params, results }, p3))
}

/// Decodes the payload of a type section.
pub fn decode_type_section(s: &[u8]) -> (r: Result<Vec<FuncType>, Error>)
    ensures
        match counted(s@, func_type_item(s@)) {
            Ok(ts) => r matches Ok(v) && v@.map_values(|t: FuncType| t@) == ts,
            Err(e) => r == Err::<Vec<FuncType>, Error>(e),
        },
{
    let (n, q) = read_u32(s, 0)?;
    let mut out: Vec<FuncType> = Vec::new();
    let mut p = q;
    assert(out@.map_values(|t: FuncType| t@) == Seq::<FuncTypeModel>::empty());
    let mut i: u32 = 0;
    while i < n
        invariant
            p <= s@.len(),
            i <= n,
            u32_at(s@, 0) == Ok::<(u32, int), Error>((n, q as int)),
            repeat(func_type_item(s@), q as int, i as nat) == Ok::<(Seq<FuncTypeModel>, int), Error>(
                (out@.map_values(|t: FuncType| t@), p as int),
            ),
        decreases n - i,
    {
        let ghost prev = out@;
        match read_func_type(s, p) {
            Ok((t, p2)) => {
                out.push(t);
                p = p2;
                assert(out@.map_values(|t: FuncType| t@) == prev.map_values(|t: FuncType| t@).push(t@));
            },
            Err(e) => {
                proof {
                    lemma_repeat_err(func_type_item(s@), q as int, (i + 1) as nat, n as nat);
                }
                return Err(e);
            },
        }
        i = i + 1;
    }
    Ok(out)
}

/// Decodes the payload of a function section: one type index per function.
pub fn decode_function_section(s: &[u8]) -> (r: Result<Vec<u32>, Error>)
    ensures
        match counted(s@, u32_item(s@)) {
            Ok(xs) => r matches Ok(v) && v@ == xs,
            Err(e) => r == Err::<Vec<u32>, Error>(e),
        },
{
    let (n, q) = read_u32(s, 0)?;
    let mut out: Vec<u32> = Vec::new();
    let mut p = q;
    let mut i: u32 = 0;
    while i < n
        invariant
            p <= s@.len(),
            i <= n,
            u32_at(s@, 0) == Ok::<(u32, int), Error>((n, q as int)),
            repeat(u32_item(s@), q as int, i as nat) == Ok::<(Seq<u32>, int), Error>(
                (out@, p as int),
            ),
        decreases n - i,
    {
        match read_u32(s, p) {
            Ok((x, p2)) => {
                out.push(x);
                p = p2;
            },
            Err(e) => {
                proof {
                    lemma_repeat_err(u32_item(s@), q as int, (i + 1) as nat, n as nat);
                }
                return Err(e);
            },
        }
        i = i + 1;
    }
    Ok(out)
}


/// One instruction: an opcode byte and its immediate, if it has one.
pub open spec fn instruction_at(s: Seq<u8>, p: int) -> Parsed<Instruction> {
    match u8_at(s, p) {
        Ok((b, p1)) => match opcode_of(b) {
            Some(Opcode::End) => Ok((Instruction::End, p1)),
            Some(Opcode::LocalGet) => match u32_at(s, p1) {
                Ok((i, p2)) => Ok((Instruction::LocalGet(i), p2)),
                Err(e) => Err(e),
            },
            Some(Opcode::I64Const) => match i64_at(s, p1) {
                Ok((v, p2)) => Ok((Instruction::I64Const(v), p2)),
                Err(e) => Err(e),
            },
            Some(Opcode::I32Add) => Ok((Instruction::I32Add, p1)),
            Some(Opcode::I64Add) => Ok((Instruction::I64Add, p1)),
            None => Err(Error::UnknownOpcode(b)),
        },
        Err(e) => Err(e),
    }
}

/// The instructions from position `p` to the end of `s`, after those in `acc`.
pub open spec fn instructions(s: Seq<u8>, p: int, acc: Seq<Instruction>) -> Result<
    Seq<Instruction>,
    Error,
>
    decreases s.len() - p,
{
    if p < 0 || p >= s.len() {
        Ok(acc)
    } else {
        match instruction_at(s, p) {
            Ok((i, q)) => if q > p {
                instructions(s, q, acc.push(i))
            } else {
                Err(Error::UnexpectedEnd)
            },
            Err(e) => Err(e),
        }
    }
}

/// One run of locals: a repeat count and a type byte.
pub open spec fn local_at(s: Seq<u8>, p: int) -> Parsed<FunctionLocal> {
    match u32_at(s, p) {
        Ok((n, p1)) => match u8_at(s, p1) {
            Ok((b, p2)) => match value_type_of(b) {
                Some(t) => Ok((FunctionLocal { type_count: n, value_type: t }, p2)),
                None => Err(Error::UnknownValueType(b)),
            },
            Err(e) => Err(e),
        },
        Err(e) => Err(e),
    }
}

pub open spec fn local_item(s: Seq<u8>) -> spec_fn(int) -> Parsed<FunctionLocal> {
    |p: int| local_at(s, p)
}

/// A function body: the counted runs of locals, then instructions up to its end.
pub open spec fn function_body(s: Seq<u8>) -> Result<FunctionModel, Error> {
    match u32_at(s, 0) {
        Ok((n, q)) => match repeat(local_item(s), q, n as nat) {
            Ok((locals, q2)) => match instructions(s, q2, Seq::empty()) {
                Ok(code) => Ok(FunctionModel { locals, code }),
                Err(e) => Err(e),
            },
            Err(e) => Err(e),
        },
        Err(e) => Err(e),
    }
}

/// A length-delimited function body.
pub open spec fn code_at(s: Seq<u8>, p: int) -> Parsed<FunctionModel> {
    match u32_at(s, p) {
        Ok((n, q)) => if q + n > s.len() {
            Err(Error::UnexpectedEnd)
        } else {
            match function_body(s.subrange(q, q + n)) {
                Ok(f) => Ok((f, q + n)),
                Err(e) => Err(e),
            }
        },
        Err(e) => Err(e),
    }
}

pub open spec fn code_item(s: Seq<u8>) -> spec_fn(int) -> Parsed<FunctionModel> {
    |p: int| code_at(s, p)
}

/// One export: a length-delimited UTF-8 name, a kind byte and an index.
pub open spec fn export_at(s: Seq<u8>, p: int) -> Parsed<ExportModel> {
    match u32_at(s, p) {
        Ok((n, q)) => if q + n > s.len() {
            Err(Error::UnexpectedEnd)
        } else {
            match utf8_text_of(s.subrange(q, q + n)) {
                Some(name) => match u8_at(s, q + n) {
                    Ok((kind, p2)) => match u32_at(s, p2) {
                        Ok((idx, p3)) => if kind == 0 {
                            Ok((ExportModel { name, desc: ExportDesc::Func(idx) }, p3))
                        } else {
                            Err(Error::UnsupportedExportKind(kind))
                        },
                        Err(e) => Err(e),
                    },
                    Err(e) => Err(e),
                },
                None => Err(Error::InvalidUtf8),
            }
        },
        Err(e) => Err(e),
    }
}

pub open spec fn export_item(s: Seq<u8>) -> spec_fn(int) -> Parsed<ExportModel> {
    |p: int| export_at(s, p)
}

fn read_instruction(s: &[u8], p: usize) -> (r: Result<(Instruction, usize), Error>)
    requires
        p <= s@.len(),
    ensures
        agrees(r, instruction_at(s@, p as int)),
        r matches Ok((_, q)) ==> p < q <= s@.len(),
{
    let (b, p1) = read_u8(s, p)?;
    match Opcode::from_byte(b) {
        Some(Opcode::End) => Ok((Instruction::End, p1)),
        Some(Opcode::LocalGet) => {
            let (i, p2) = read_u32(s, p1)?;
            Ok((Instruction::LocalGet(i), p2))
        },
        Some(Opcode::I64Const) => {
            let (v, p2) = read_i64(s, p1)?;
            Ok((Instruction::I64Const(v), p2))
        },
        Some(Opcode::I32Add) => Ok((Instruction::I32Add, p1)),
        Some(Opcode::I64Add) => Ok((Instruction::I64Add, p1)),
        None => Err(Error::UnknownOpcode(b)),
    }
}

fn read_local(s: &[u8], p: usize) -> (r: Result<(FunctionLocal, usize), Error>)
    requires
        p <= s@.len(),
    ensures
        agrees(r, local_at(s@, p as int)),
        r matches Ok((_, q)) ==> q <= s@.len(),
{
    let (n, p1) = read_u32(s, p)?;
    let (b, p2) = read_u8(s, p1)?;
    match ValueType::from_byte(b) {
        Some(t) => Ok((FunctionLocal { type_count: n, value_type: t }, p2)),
        None => Err(Error::UnknownValueType(b)),
    }
}

/// Decodes one function body: its runs of locals, then its instructions up to
/// the end of `s`.
pub fn decode_function_body(s: &[u8]) -> (r: Result<Function, Error>)
    ensures
        match function_body(s@) {
            Ok(f) => r matches Ok(v) && v@ == f,
            Err(e) => r == Err::<Function, Error>(e),
        },
{
    let (n, q) = read_u32(s, 0)?;
    let mut locals: Vec<FunctionLocal> = Vec::new();
    let mut p = q;
    let mut i: u32 = 0;
    while i < n
        invariant
            p <= s@.len(),
            i <= n,
            u32_at(s@, 0) == Ok::<(u32, int), Error>((n, q as int)),
            repeat(local_item(s@), q as int, i as nat) == Ok::<(Seq<FunctionLocal>, int), Error>(
                (locals@, p as int),
            ),
        decreases n - i,
    {
        match read_local(s, p) {
            Ok((l, p2)) => {
                locals.push(l);
                p = p2;
            },
            Err(e) => {
                proof {
                    lemma_repeat_err(local_item(s@), q as int, (i + 1) as nat, n as nat);
                }
                return Err(e);
            },
        }
        i = i + 1;
    }
    let ghost start = p as int;
    let mut code: Vec<Instruction> = Vec::new();
    while p < s.len()
        invariant
            start <= p <= s@.len(),
            u32_at(s@, 0) == Ok::<(u32, int), Error>((n, q as int)),
            repeat(local_item(s@), q as int, n as nat) == Ok::<(Seq<FunctionLocal>, int), Error>(
                (locals@, start),
            ),
            instructions(s@, start, Seq::empty()) == instructions(s@, p as int, code@),
        decreases s@.len() - p,
    {
        let (inst, p2) = read_instruction(s, p)?;
        code.push(inst);
        p = p2;
    }
    Ok(Function { locals, code })
}

fn read_code(s: &[u8], p: usize) -> (r: Result<(Function, usize), Error>)
    requires
        p <= s@.len(),
    ensures
        agrees_view(r, code_at(s@, p as int)),
        r matches Ok((_, q)) ==> q <= s@.len(),
{
    let (n, q) = read_u32(s, p)?;
    if n as usize > s.len() - q {
        return Err(Error::UnexpectedEnd);
    }
    let end = q + n as usize;
    let body = decode_function_body(slice_subrange(s, q, end))?;
    Ok((body, end))
}

fn read_export(s: &[u8], p: usize) -> (r: Result<(Export, usize), Error>)
    requires
        p <= s@.len(),
    ensures
        agrees_view(r, export_at(s@, p as int)),
        r matches Ok((_, q)) ==> q <= s@.len(),
{
    let (n, q) = read_u32(s, p)?;
    if n as usize > s.len() - q {
        return Err(Error::UnexpectedEnd);
    }
    let end = q + n as usize;
    let name = match utf8_text(slice_subrange(s, q, end)) {
        Some(name) => name,
        None => return Err(Error::InvalidUtf8),
    };
    let (kind, p2) = read_u8(s, end)?;
    let (idx, p3) = read_u32(s, p2)?;
    if kind == 0 {
        Ok((Export { name, desc: ExportDesc::Func(idx) }, p3))
    } else {
        Err(Error::UnsupportedExportKind(kind))
    }
}

/// Decodes the payload of a code section.
pub fn decode_code_section(s: &[u8]) -> (r: Result<Vec<Function>, Error>)
    ensures
        match counted(s@, code_item(s@)) {
            Ok(fs) => r matches Ok(v) && v@.map_values(|f: Function| f@) == fs,
            Err(e) => r == Err::<Vec<Function>, Error>(e),
        },
{
    let (n, q) = read_u32(s, 0)?;
    let mut out: Vec<Function> = Vec::new();
    let mut p = q;
    let mut i: u32 = 0;
    assert(out@.map_values(|f: Function| f@) == Seq::<FunctionModel>::empty());
    while i < n
        invariant
            p <= s@.len(),
            i <= n,
            u32_at(s@, 0) == Ok::<(u32, int), Error>((n, q as int)),
            repeat(code_item(s@), q as int, i as nat) == Ok::<(Seq<FunctionModel>, int), Error>(
                (out@.map_values(|f: Function| f@), p as int),
            ),
        decreases n - i,
    {
        let ghost prev = out@;
        match read_code(s, p) {
            Ok((f, p2)) => {
                out.push(f);
                p = p2;
                assert(out@.map_values(|f: Function| f@) == prev.map_values(|f: Function| f@).push(f@));
            },
            Err(e) => {
                proof {
                    lemma_repeat_err(code_item(s@), q as int, (i + 1) as nat, n as nat);
                }
                return Err(e);
            },
        }
        i = i + 1;
    }
    Ok(out)
}

/// Decodes the payload of an export section.
pub fn decode_export_section(s: &[u8]) -> (r: Result<Vec<Export>, Error>)
    ensures
        match counted(s@, export_item(s@)) {
            Ok(es) => r matches Ok(v) && v@.map_values(|e: Export| e@) == es,
            Err(e) => r == Err::<Vec<Export>, Error>(e),
        },
{
    let (n, q) = read_u32(s, 0)?;
    let mut out: Vec<Export> = Vec::new();
    let mut p = q;
    let mut i: u32 = 0;
    assert(out@.map_values(|e: Export| e@) == Seq::<ExportModel>::empty());
    while i < n
        invariant
            p <= s@.len(),
            i <= n,
            u32_at(s@, 0) == Ok::<(u32, int), Error>((n, q as int)),
            repeat(export_item(s@), q as int, i as nat) == Ok::<(Seq<ExportModel>, int), Error>(
                (out@.map_values(|e: Export| e@), p as int),
            ),
        decreases n - i,
    {
        let ghost prev = out@;
        match read_export(s, p) {
            Ok((x, p2)) => {
                out.push(x);
                p = p2;
                assert(out@.map_values(|e: Export| e@) == prev.map_values(|e: Export| e@).push(x@));
            },
            Err(e) => {
                proof {
                    lemma_repeat_err(export_item(s@), q as int, (i + 1) as nat, n as nat);
                }
                return Err(e);
            },
        }
        i = i + 1;
    }
    Ok(out)
}

/// The instructions that are encoded as their opcode byte alone.
pub open spec fn is_plain(i: Instruction) -> bool {
    i is End || i is I32Add || i is I64Add
}

/// The opcode byte of an instruction without an immediate.
pub open spec fn plain_opcode(i: Instruction) -> u8 {
    match i {
        Instruction::End => 0x0B,
        Instruction::I32Add => 0x6A,
        _ => 0x7C,
    }
}

/// The encoding of a sequence of instructions without immediates.
pub open spec fn encode_plain(is: Seq<Instruction>) -> Seq<u8> {
    is.map_values(|i: Instruction| plain_opcode(i))
}

/// Decoding the encoding of a sequence of instructions without immediates
/// gives back the same instructions in the same order.
pub proof fn lemma_plain_round_trip(is: Seq<Instruction>)
    requires
        forall|k: int| 0 <= k < is.len() ==> is_plain(#[trigger] is[k]),
    ensures
        instructions(encode_plain(is), 0, Seq::empty()) == Ok::<Seq<Instruction>, Error>(is),
{
    lemma_plain_suffix(is, 0, Seq::empty());
    assert(Seq::<Instruction>::empty() + is.subrange(0, is.len() as int) == is);
}

proof fn lemma_plain_suffix(is: Seq<Instruction>, p: int, acc: Seq<Instruction>)
    requires
        0 <= p <= is.len(),
        forall|k: int| 0 <= k < is.len() ==> is_plain(#[trigger] is[k]),
    ensures
        instructions(encode_plain(is), p, acc) == Ok::<Seq<Instruction>, Error>(
            acc + is.subrange(p, is.len() as int),
        ),
    decreases is.len() - p,
{
    let s = encode_plain(is);
    if p < is.len() {
        assert(is_plain(is[p]));
        assert(s[p] == plain_opcode(is[p]));
        assert(instruction_at(s, p) == Ok::<(Instruction, int), Error>((is[p], p + 1)));
        lemma_plain_suffix(is, p + 1, acc.push(is[p]));
        assert(acc.push(is[p]) + is.subrange(p + 1, is.len() as int) == acc + is.subrange(
            p,
            is.len() as int,
        ));
    } else {
        assert(acc + is.subrange(p, is.len() as int) == acc);
    }
}

} // verus!
