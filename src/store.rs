use vstd::prelude::*;
use crate::error::Error;
use crate::module::{Module, ModuleModel};
use crate::types::{
    ExportDesc, ExportModel, FuncType, FuncTypeModel, Function, FunctionLocal, FunctionModel,
    Instruction, ValueType,
};

verus! {

/// A function's flat list of declared local types and its instructions.
#[derive(Debug, Clone)]
pub struct Func {
    pub locals: Vec<ValueType>,
    pub body: Vec<Instruction>,
}

/// A function of the store: its signature and its code.
#[derive(Debug, Clone)]
pub struct InternalFuncInst {
    pub func_type: FuncType,
    pub code: Func,
}

#[derive(Debug, Clone)]
pub enum FuncInst {
    Internal(InternalFuncInst),
}

/// What a store holds of one function.
pub struct FuncModel {
    pub func_type: FuncTypeModel,
    pub locals: Seq<ValueType>,
    pub body: Seq<Instruction>,
}

impl View for InternalFuncInst {
    type V = FuncModel;

    open spec fn view(&self) -> FuncModel {
        FuncModel {
            func_type: self.func_type@,
            locals: self.code.locals@,
            body: self.code.body@,
        }
    }
}

impl View for FuncInst {
    type V = FuncModel;

    open spec fn view(&self) -> FuncModel {
        match self {
            FuncInst::Internal(f) => f@,
        }
    }
}

/// One export of an instantiated module.
#[derive(Debug)]
pub struct ExportInst {
    pub name: String,
    pub desc: ExportDesc,
}

impl View for ExportInst {
    type V = ExportModel;

    open spec fn view(&self) -> ExportModel {
        ExportModel { name: self.name@, desc: self.desc }
    }
}

/// The exports of an instantiated module, in the order they were declared.
/// A later export with a name shadows every earlier one with that name.
#[derive(Debug)]
pub struct ModuleInst {
    pub exports: Vec<ExportInst>,
}

/// The name-to-descriptor mapping that a list of exports defines; later
/// entries overwrite earlier ones.
pub open spec fn export_map(es: Seq<ExportModel>) -> Map<Seq<char>, ExportDesc>
    decreases es.len(),
{
    if es.len() == 0 {
        Map::empty()
    } else {
        export_map(es.drop_last()).insert(es.last().name, es.last().desc)
    }
}

impl ModuleInst {
    pub open spec fn entries(&self) -> Seq<ExportModel> {
        self.exports@.map_values(|e: ExportInst| e@)
    }

    /// The export mapping of this module instance.
    pub open spec fn export_view(&self) -> Map<Seq<char>, ExportDesc> {
        export_map(self.entries())
    }

    /// An instance with no exports.
    pub fn empty() -> (r: ModuleInst)
        ensures
            r.export_view() == Map::<Seq<char>, ExportDesc>::empty(),
    {
        let r = ModuleInst { exports: Vec::new() };
        assert(r.entries().len() == 0);
        r
    }

    /// Looks up an export by name: the last one declared under that name.
    pub fn find(&self, name: &str) -> (r: Option<ExportDesc>)
        ensures
            match r {
                Some(d) => self.export_view().contains_key(name@) && self.export_view()[name@] == d,
                None => !self.export_view().contains_key(name@),
            },
    {
        let key = String::from_str(name);
        let mut i = self.exports.len();
        assert(self.entries().subrange(0, i as int) == self.entries());
        while i > 0
            invariant
                i <= self.exports@.len(),
                key@ == name@,
                export_map(self.entries()).contains_key(name@) == export_map(
                    self.entries().subrange(0, i as int),
                ).contains_key(name@),
                export_map(self.entries()).contains_key(name@) ==> export_map(self.entries())[name@]
                    == export_map(self.entries().subrange(0, i as int))[name@],
            decreases i,
        {
            let ghost pre = self.entries().subrange(0, i as int);
            assert(pre.drop_last() == self.entries().subrange(0, i - 1));
            if self.exports[i - 1].name == key {
                return Some(self.exports[i - 1].desc);
            }
            i = i - 1;
        }
        assert(self.entries().subrange(0, 0).len() == 0);
        None
    }
}

/// The functions and exports of an instantiated module.
#[derive(Debug)]
pub struct Store {
    pub funcs: Vec<FuncInst>,
    pub module: ModuleInst,
}

pub struct StoreModel {
    pub funcs: Seq<FuncModel>,
    pub exports: Map<Seq<char>, ExportDesc>,
}

impl View for Store {
    type V = StoreModel;

    open spec fn view(&self) -> StoreModel {
        StoreModel {
            funcs: self.funcs@.map_values(|f: FuncInst| f@),
            exports: self.module.export_view(),
        }
    }
}

/// The flat list of local types that a list of runs declares.
pub open spec fn flatten_locals(runs: Seq<FunctionLocal>) -> Seq<ValueType>
    decreases runs.len(),
{
    if runs.len() == 0 {
        Seq::empty()
    } else {
        flatten_locals(runs.drop_last()) + Seq::new(
            runs.last().type_count as nat,
            |k: int| runs.last().value_type,
        )
    }
}

/// Every function index refers to a signature of the type section.
pub open spec fn types_resolve(types: Option<Seq<FuncTypeModel>>, idxs: Seq<u32>) -> bool {
    idxs.len() == 0 || (types is Some && forall|i: int|
        0 <= i < idxs.len() ==> idxs[i] < types.unwrap().len())
}

/// The function space that a module's type, function and code sections define.
pub open spec fn resolved_funcs(
    types: Option<Seq<FuncTypeModel>>,
    idxs: Seq<u32>,
    code: Seq<FunctionModel>,
) -> Seq<FuncModel> {
    Seq::new(
        idxs.len(),
        |i: int|
            FuncModel {
                func_type: types.unwrap()[idxs[i] as int],
                locals: flatten_locals(code[i].locals),
                body: code[i].code,
            },
    )
}

/// The function space of a module, or why it cannot be built.
pub open spec fn funcs_of(m: ModuleModel) -> Result<Seq<FuncModel>, Error> {
    match (m.funcs, m.code) {
        (Some(idxs), Some(code)) => if idxs.len() != code.len() {
            Err(Error::FunctionCountMismatch)
        } else if !types_resolve(m.types, idxs) {
            Err(Error::FuncTypeNotFound)
        } else {
            Ok(resolved_funcs(m.types, idxs, code))
        },
        _ => Ok(Seq::empty()),
    }
}

/// The export mapping of a module.
pub open spec fn exports_of(m: ModuleModel) -> Map<Seq<char>, ExportDesc> {
    match m.exports {
        Some(es) => export_map(es),
        None => Map::empty(),
    }
}

/// The store that a module gives, or why it cannot be built.
pub open spec fn store_of(m: ModuleModel) -> Result<StoreModel, Error> {
    match funcs_of(m) {
        Ok(funcs) => Ok(StoreModel { funcs, exports: exports_of(m) }),
        Err(e) => Err(e),
    }
}

/// A copy of a vector of plain values.
pub(crate) fn copy_vec<T: Copy>(v: &Vec<T>) -> (r: Vec<T>)
    ensures
        r@ == v@,
{
    let mut r: Vec<T> = Vec::new();
    let mut i: usize = 0;
    while i < v.len()
        invariant
            i <= v@.len(),
            r@ == v@.subrange(0, i as int),
        decreases v@.len() - i,
    {
        r.push(v[i]);
        i = i + 1;
        assert(r@ == v@.subrange(0, i as int));
    }
    assert(v@.subrange(0, v@.len() as int) == v@);
    r
}

/// Expands runs of locals into one type per local, in order.
fn expand_locals(runs: &Vec<FunctionLocal>) -> (r: Vec<ValueType>)
    ensures
        r@ == flatten_locals(runs@),
{
    let mut out: Vec<ValueType> = Vec::new();
    let mut i: usize = 0;
    while i < runs.len()
        invariant
            i <= runs@.len(),
            out@ == flatten_locals(runs@.subrange(0, i as int)),
        decreases runs@.len() - i,
    {
        let run = runs[i];
        let ghost base = out@;
        let mut j: u32 = 0;
        while j < run.type_count
            invariant
                j <= run.type_count,
                out@ == base + Seq::new(j as nat, |k: int| run.value_type),
            decreases run.type_count - j,
        {
            out.push(run.value_type);
            j = j + 1;
            assert(out@ == base + Seq::new(j as nat, |k: int| run.value_type));
        }
        assert(runs@.subrange(0, i + 1).drop_last() == runs@.subrange(0, i as int));
        i = i + 1;
    }
    assert(runs@.subrange(0, runs@.len() as int) == runs@);
    out
}

impl Store {
    /// An empty store: no functions and no exports.
    pub fn empty() -> (r: Store)
        ensures
            r@.funcs.len() == 0,
            r@.exports == Map::<Seq<char>, ExportDesc>::empty(),
    {
        Store { funcs: Vec::new(), module: ModuleInst::empty() }
    }

    /// Builds the store of a decoded module: each function body paired with
    /// its signature and its locals expanded, and the export mapping.
    pub fn new(module: Module) -> (r: Result<Store, Error>)
        ensures
            match store_of(module@) {
                Ok(sm) => r matches Ok(st) && st@ == sm,
                Err(e) => r == Err::<Store, Error>(e),
            },
    {
        let mut funcs: Vec<FuncInst> = Vec::new();
        assert(funcs@.map_values(|f: FuncInst| f@) == Seq::<FuncModel>::empty());
        match (&module.function_section, &module.code_section) {
            (Some(idxs), Some(code)) => {
                if idxs.len() != code.len() {
                    return Err(Error::FunctionCountMismatch);
                }
                let ghost mtypes = crate::module::types_view(module.type_section);
                let ghost code_m = code@.map_values(|f: Function| f@);
                let mut i: usize = 0;
                while i < idxs.len()
                    invariant
                        i <= idxs@.len(),
                        idxs@.len() == code@.len(),
                        module@.funcs == Some(idxs@),
                        module@.code == Some(code_m),
                        code_m == code@.map_values(|f: Function| f@),
                        mtypes == module@.types,
                        i > 0 ==> mtypes is Some,
                        forall|k: int| 0 <= k < i ==> (mtypes is Some && idxs@[k] < mtypes.unwrap().len()),
                        funcs@.map_values(|f: FuncInst| f@) == resolved_funcs(
                            mtypes,
                            idxs@,
                            code_m,
                        ).subrange(0, i as int),
                    decreases idxs@.len() - i,
                {
                    let types = match &module.type_section {
                        Some(ts) => ts,
                        None => {
                            assert(module@.types is None);
                            assert(!types_resolve(module@.types, idxs@));
                            return Err(Error::FuncTypeNotFound);
                        },
                    };
                    let ti = idxs[i] as usize;
                    if ti >= types.len() {
                        assert(!(module@.types is Some && idxs@[i as int]
                            < module@.types.unwrap().len()));
                        assert(!types_resolve(module@.types, idxs@));
                        return Err(Error::FuncTypeNotFound);
                    }
                    let ft = &types[ti];
                    let body = &code[i];
                    let f = FuncInst::Internal(
                        InternalFuncInst {
                            func_type: FuncType {
                                params: copy_vec(&ft.params),
                                results: copy_vec(&ft.results),
                            },
                            code: Func { locals: expand_locals(&body.locals), body: copy_vec(&body.code) },
                        },
                    );
                    let ghost prev = funcs@;
                    funcs.push(f);
                    assert(funcs@.map_values(|f: FuncInst| f@) == prev.map_values(|f: FuncInst| f@).push(f@));
                    i = i + 1;
                    assert(funcs@.map_values(|f: FuncInst| f@) == resolved_funcs(
                        mtypes,
                        idxs@,
                        code_m,
                    ).subrange(0, i as int));
                }
                assert(resolved_funcs(mtypes, idxs@, code_m).subrange(0, i as int) == resolved_funcs(
                    mtypes,
                    idxs@,
                    code_m,
                ));
                assert(types_resolve(mtypes, idxs@));
                assert(funcs_of(module@) == Ok::<Seq<FuncModel>, Error>(funcs@.map_values(|f: FuncInst| f@)));
            },
            _ => {
                assert(funcs_of(module@) == Ok::<Seq<FuncModel>, Error>(funcs@.map_values(|f: FuncInst| f@)));
            },
        }
        let mut mi = ModuleInst { exports: Vec::new() };
        match &module.export_section {
            Some(es) => {
                let ghost es_m = es@.map_values(|e: crate::types::Export| e@);
                let mut i: usize = 0;
                assert(mi.entries() == es_m.subrange(0, 0));
                while i < es.len()
                    invariant
                        i <= es@.len(),
                        es_m == es@.map_values(|e: crate::types::Export| e@),
                        mi.entries() == es_m.subrange(0, i as int),
                    decreases es@.len() - i,
                {
                    let ghost prev = mi.entries();
                    let x = ExportInst { name: es[i].name.clone(), desc: es[i].desc };
                    assert(x@ == es_m[i as int]);
                    mi.exports.push(x);
                    assert(mi.entries() == prev.push(x@));
                    i = i + 1;
                    assert(mi.entries() == es_m.subrange(0, i as int));
                }
                assert(es_m.subrange(0, i as int) == es_m);
                assert(mi.export_view() == exports_of(module@));
            },
            None => {
                assert(mi.entries() == Seq::<ExportModel>::empty());
                assert(mi.export_view() == exports_of(module@));
            },
        }
        Ok(Store { funcs, module: mi })
    }
}

} // verus!
