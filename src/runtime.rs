use vstd::prelude::*;
use crate::error::Error;
use crate::module::{decode_module, Module};
use crate::store::{copy_vec, store_of, FuncInst, FuncModel, Store, StoreModel};
use crate::types::{ExportDesc, Instruction};
use crate::value::{value_sum, zero_of, Value};

verus! {

/// One activation record.
pub struct Frame {
    /// Index of the instruction last executed; -1 before the first one.
    pub pc: isize,
    /// Depth of the operand stack below this call's values.
    pub sp: usize,
    pub insts: Vec<Instruction>,
    /// Number of results the function declares.
    pub arity: usize,
    pub locals: Vec<Value>,
}

pub struct FrameModel {
    pub pc: int,
    pub sp: int,
    pub insts: Seq<Instruction>,
    pub arity: int,
    pub locals: Seq<Value>,
}

impl View for Frame {
    type V = FrameModel;

    open spec fn view(&self) -> FrameModel {
        FrameModel {
            pc: self.pc as int,
            sp: self.sp as int,
            insts: self.insts@,
            arity: self.arity as int,
            locals: self.locals@,
        }
    }
}

pub open spec fn frames_view(cs: Seq<Frame>) -> Seq<FrameModel> {
    cs.map_values(|f: Frame| f@)
}

/// Every frame's counter stands before the end of its instructions, and the
/// counter can reach that end.
pub open spec fn frames_ok(fs: Seq<FrameModel>) -> bool {
    forall|i: int|
        0 <= i < fs.len() ==> -1 <= #[trigger] fs[i].pc < fs[i].insts.len() <= isize::MAX
}

/// The operand stack after a frame with stack pointer `sp` and `arity`
/// results ends: the top value, if a result is declared, on the stack cut
/// back to `sp`.
pub open spec fn unwind(stack: Seq<Value>, sp: int, arity: int) -> Result<Seq<Value>, Error> {
    if arity > 0 {
        if stack.len() == 0 {
            Err(Error::NoReturnValue)
        } else if sp > stack.len() - 1 {
            Err(Error::StackUnderflow)
        } else {
            Ok(stack.subrange(0, sp).push(stack.last()))
        }
    } else if sp > stack.len() {
        Err(Error::StackUnderflow)
    } else {
        Ok(stack.subrange(0, sp))
    }
}

/// The sum that an add instruction of the given width pushes.
pub open spec fn typed_sum(wide: bool, lhs: Value, rhs: Value) -> Option<Value> {
    match value_sum(lhs, rhs) {
        Some(v) => if (v is I64) == wide {
            Some(v)
        } else {
            None
        },
        None => None,
    }
}

/// The stack after an add instruction: the two top values replaced by their sum.
pub open spec fn add_top(stack: Seq<Value>, wide: bool) -> Result<Seq<Value>, Error> {
    if stack.len() < 2 {
        Err(Error::StackUnderflow)
    } else {
        match typed_sum(wide, stack[stack.len() - 2], stack.last()) {
            Some(v) => Ok(stack.subrange(0, stack.len() - 2).push(v)),
            None => Err(Error::TypeMismatch),
        }
    }
}

/// How many instructions the top frame has left.
pub open spec fn top_left(fs: Seq<FrameModel>) -> int {
    if fs.len() == 0 || fs.last().pc >= fs.last().insts.len() {
        0
    } else {
        fs.last().insts.len() - fs.last().pc
    }
}

/// Runs the frames to completion: the final operand stack and frame stack,
/// or the first error. A frame whose instructions are used up without an
/// `End` stops the run and stays where it is.
pub open spec fn run(stack: Seq<Value>, fs: Seq<FrameModel>) -> Result<
    (Seq<Value>, Seq<FrameModel>),
    Error,
>
    decreases fs.len(), top_left(fs),
{
    if fs.len() == 0 {
        Ok((stack, fs))
    } else {
        let f = fs.last();
        let pc = f.pc + 1;
        let fs2 = fs.drop_last().push(FrameModel { pc, ..f });
        if pc < 0 || pc >= f.insts.len() {
            Ok((stack, fs))
        } else {
            match f.insts[pc] {
                Instruction::End => match unwind(stack, f.sp, f.arity) {
                    Ok(s) => run(s, fs.drop_last()),
                    Err(e) => Err(e),
                },
                Instruction::LocalGet(i) => if i < f.locals.len() {
                    run(stack.push(f.locals[i as int]), fs2)
                } else {
                    Err(Error::LocalNotFound)
                },
                Instruction::I64Const(v) => run(stack.push(Value::I64(v)), fs2),
                Instruction::I32Add => match add_top(stack, false) {
                    Ok(s) => run(s, fs2),
                    Err(e) => Err(e),
                },
                Instruction::I64Add => match add_top(stack, true) {
                    Ok(s) => run(s, fs2),
                    Err(e) => Err(e),
                },
            }
        }
    }
}

/// Unwinds the operand stack at the end of a frame. On failure the stack is
/// left as it was.
pub fn stack_unwind(stack: &mut Vec<Value>, sp: usize, arity: usize) -> (r: Result<(), Error>)
    ensures
        match unwind(old(stack)@, sp as int, arity as int) {
            Ok(s) => r is Ok && final(stack)@ == s,
            Err(e) => r == Err::<(), Error>(e) && final(stack)@ == old(stack)@,
        },
{
    if arity > 0 {
        if stack.len() == 0 {
            return Err(Error::NoReturnValue);
        }
        if sp > stack.len() - 1 {
            return Err(Error::StackUnderflow);
        }
        let value = stack.pop().unwrap();
        stack.truncate(sp);
        stack.push(value);
    } else {
        if sp > stack.len() {
            return Err(Error::StackUnderflow);
        }
        stack.truncate(sp);
    }
    Ok(())
}

fn add_in_place(stack: &mut Vec<Value>, wide: bool) -> (r: Result<(), Error>)
    ensures
        match add_top(old(stack)@, wide) {
            Ok(s) => r is Ok && final(stack)@ == s,
            Err(e) => r == Err::<(), Error>(e),
        },
{
    if stack.len() < 2 {
        return Err(Error::StackUnderflow);
    }
    let rhs = stack.pop().unwrap();
    let lhs = stack.pop().unwrap();
    match lhs.add(rhs) {
        Some(v) => {
            let is_wide = match v {
                Value::I64(_) => true,
                Value::I32(_) => false,
            };
            if is_wide != wide {
                return Err(Error::TypeMismatch);
            }
            stack.push(v);
            Ok(())
        },
        None => Err(Error::TypeMismatch),
    }
}

/// The operand stack and frame for entering a function whose arguments are
/// the top values of `stack`.
pub open spec fn entry(stack: Seq<Value>, f: FuncModel) -> (Seq<Value>, FrameModel) {
    let bottom = stack.len() - f.func_type.params.len();
    (
        stack.subrange(0, bottom),
        FrameModel {
            pc: -1,
            sp: bottom,
            insts: f.body,
            arity: f.func_type.results.len() as int,
            locals: stack.subrange(bottom, stack.len() as int) + f.locals.map_values(
                |t: crate::types::ValueType| zero_of(t),
            ),
        },
    )
}

/// Invoking `f` with its arguments on top of `stack`: its result, if it
/// declares one, and the final operand stack and frame stack. A body longer
/// than a frame's counter can address cannot be entered.
pub open spec fn invoke(stack: Seq<Value>, fs: Seq<FrameModel>, f: FuncModel) -> Result<
    (Option<Value>, Seq<Value>, Seq<FrameModel>),
    Error,
> {
    if stack.len() < f.func_type.params.len() {
        Err(Error::StackUnderflow)
    } else if f.body.len() > isize::MAX {
        Err(Error::FuncNotFound)
    } else {
        let (s1, fr) = entry(stack, f);
        match run(s1, fs.push(fr)) {
            Ok((s2, fs2)) => if f.func_type.results.len() > 0 {
                if s2.len() == 0 {
                    Err(Error::NoReturnValue)
                } else {
                    Ok((Some(s2.last()), s2.drop_last(), fs2))
                }
            } else {
                Ok((None, s2, fs2))
            },
            Err(e) => Err(e),
        }
    }
}

/// Calling the export `name` with `args`.
pub open spec fn call_result(
    st: StoreModel,
    stack: Seq<Value>,
    fs: Seq<FrameModel>,
    name: Seq<char>,
    args: Seq<Value>,
) -> Result<(Option<Value>, Seq<Value>, Seq<FrameModel>), Error> {
    if !st.exports.contains_key(name) {
        Err(Error::ExportNotFound)
    } else {
        match st.exports[name] {
            ExportDesc::Func(idx) => if idx >= st.funcs.len() {
                Err(Error::FuncNotFound)
            } else {
                invoke(stack + args, fs, st.funcs[idx as int])
            },
        }
    }
}

/// The engine: a store, an operand stack and a frame stack.
pub struct Runtime {
    pub store: Store,
    pub stack: Vec<Value>,
    pub call_stack: Vec<Frame>,
}

impl Runtime {
    /// The frame stack is one that execution can resume.
    pub open spec fn wf(&self) -> bool {
        frames_ok(frames_view(self.call_stack@))
    }

    /// The state after a fatal error: nothing left to run or to call.
    pub open spec fn is_reset(&self) -> bool {
        &&& self.stack@.len() == 0
        &&& self.call_stack@.len() == 0
        &&& self.store@.funcs.len() == 0
        &&& self.store@.exports == Map::<Seq<char>, ExportDesc>::empty()
    }

    /// Decodes a module and builds its runtime.
    pub fn instantiate(wasm: &[u8]) -> (r: Result<Runtime, Error>)
        ensures
            match decode_module(wasm@) {
                Ok(m) => match store_of(m) {
                    Ok(sm) => r matches Ok(rt) && rt.store@ == sm && rt.stack@.len() == 0
                        && rt.call_stack@.len() == 0 && rt.wf(),
                    Err(e) => r == Err::<Runtime, Error>(e),
                },
                Err(e) => r == Err::<Runtime, Error>(e),
            },
    {
        let module = Module::new(wasm)?;
        let store = Store::new(module)?;
        Ok(Runtime { store, stack: Vec::new(), call_stack: Vec::new() })
    }

    fn execute(&mut self) -> (r: Result<(), Error>)
        requires
            old(self).wf(),
        ensures
            final(self).store == old(self).store,
            match run(old(self).stack@, frames_view(old(self).call_stack@)) {
                Ok((s, fs)) => r is Ok && final(self).stack@ == s && frames_view(
                    final(self).call_stack@,
                ) == fs && final(self).wf(),
                Err(e) => r == Err::<(), Error>(e),
            },
    {
        let ghost result = run(self.stack@, frames_view(self.call_stack@));
        let ghost store0 = self.store;
        loop
            invariant
                self.wf(),
                self.store == store0,
                store0 == old(self).store,
                result == run(old(self).stack@, frames_view(old(self).call_stack@)),
                result == run(self.stack@, frames_view(self.call_stack@)),
            decreases self.call_stack@.len(), top_left(frames_view(self.call_stack@)),
        {
            let ghost fs0 = frames_view(self.call_stack@);
            let mut frame = match self.call_stack.pop() {
                Some(f) => f,
                None => {
                    return Ok(());
                },
            };
            assert(frames_view(self.call_stack@) == fs0.drop_last());
            assert(fs0.last() == frame@);
            assert(-1 <= fs0[fs0.len() - 1].pc < fs0[fs0.len() - 1].insts.len());
            if (frame.pc + 1) as usize >= frame.insts.len() {
                self.call_stack.push(frame);
                assert(frames_view(self.call_stack@) == fs0);
                return Ok(());
            }
            frame.pc = frame.pc + 1;
            let ghost fs2 = fs0.drop_last().push(frame@);
            let inst = frame.insts[frame.pc as usize];
            match inst {
                Instruction::End => {
                    stack_unwind(&mut self.stack, frame.sp, frame.arity)?;
                    assert(frames_ok(frames_view(self.call_stack@))) by {
                        assert forall|i: int| 0 <= i < frames_view(self.call_stack@).len() implies
                            -1 <= #[trigger] frames_view(self.call_stack@)[i].pc < frames_view(
                            self.call_stack@)[i].insts.len() <= isize::MAX by {
                            assert(fs0[i] == frames_view(self.call_stack@)[i]);
                        }
                    }
                    continue;
                },
                Instruction::LocalGet(i) => {
                    if i as usize >= frame.locals.len() {
                        return Err(Error::LocalNotFound);
                    }
                    self.stack.push(frame.locals[i as usize]);
                },
                Instruction::I64Const(v) => {
                    self.stack.push(Value::I64(v));
                },
                Instruction::I32Add => {
                    add_in_place(&mut self.stack, false)?;
                },
                Instruction::I64Add => {
                    add_in_place(&mut self.stack, true)?;
                },
            }
            self.call_stack.push(frame);
            assert(frames_view(self.call_stack@) == fs2);
            assert(frames_ok(fs2)) by {
                assert forall|i: int| 0 <= i < fs2.len() implies -1 <= #[trigger] fs2[i].pc
                    < fs2[i].insts.len() <= isize::MAX by {
                    if i < fs2.len() - 1 {
                        assert(fs0[i] == fs2[i]);
                    }
                }
            }
        }
    }

    /// Enters function `idx` with its arguments on top of the operand stack
    /// and runs it. Any failure resets the runtime.
    fn invoke_internal(&mut self, idx: usize) -> (r: Result<Option<Value>, Error>)
        requires
            old(self).wf(),
            idx < old(self).store.funcs@.len(),
        ensures
            final(self).wf(),
            match invoke(old(self).stack@, frames_view(old(self).call_stack@), old(self).store@.funcs[idx as int]) {
                Ok((v, s, fs)) => r == Ok::<Option<Value>, Error>(v) && final(self).stack@ == s
                    && frames_view(final(self).call_stack@) == fs && final(self).store
                    == old(self).store,
                Err(e) => r == Err::<Option<Value>, Error>(e) && final(self).is_reset(),
            },
    {
        let ghost fm = self.store@.funcs[idx as int];
        let (nparams, nresults, body, local_types) = match &self.store.funcs[idx] {
            FuncInst::Internal(f) => (
                f.func_type.params.len(),
                f.func_type.results.len(),
                copy_vec(&f.code.body),
                copy_vec(&f.code.locals),
            ),
        };
        if self.stack.len() < nparams {
            self.cleanup();
            return Err(Error::StackUnderflow);
        }
        if body.len() > isize::MAX as usize {
            self.cleanup();
            return Err(Error::FuncNotFound);
        }
        let ghost s0 = self.stack@;
        let bottom = self.stack.len() - nparams;
        let mut locals = self.stack.split_off(bottom);
        let ghost args = locals@;
        let mut i: usize = 0;
        while i < local_types.len()
            invariant
                i <= local_types@.len(),
                locals@ == args + local_types@.subrange(0, i as int).map_values(
                    |t: crate::types::ValueType| zero_of(t),
                ),
            decreases local_types@.len() - i,
        {
            locals.push(Value::zero(local_types[i]));
            i = i + 1;
            assert(local_types@.subrange(0, i as int).map_values(
                |t: crate::types::ValueType| zero_of(t),
            ) == local_types@.subrange(0, i - 1).map_values(
                |t: crate::types::ValueType| zero_of(t),
            ).push(zero_of(local_types@[i - 1])));
        }
        assert(local_types@.subrange(0, i as int) == local_types@);
        let frame = Frame { pc: -1, sp: self.stack.len(), insts: body, arity: nresults, locals };
        assert(entry(s0, fm) == (self.stack@, frame@));
        let ghost fs_in = frames_view(self.call_stack@);
        self.call_stack.push(frame);
        assert(frames_view(self.call_stack@) == fs_in.push(frame@));
        assert(frames_ok(frames_view(self.call_stack@))) by {
            let fs = frames_view(self.call_stack@);
            assert forall|k: int| 0 <= k < fs.len() implies -1 <= #[trigger] fs[k].pc
                < fs[k].insts.len() <= isize::MAX by {
                if k < fs.len() - 1 {
                    assert(fs[k] == fs_in[k]);
                }
            }
        }
        match self.execute() {
            Ok(()) => {},
            Err(e) => {
                self.cleanup();
                return Err(e);
            },
        }
        if nresults > 0 {
            match self.stack.pop() {
                Some(v) => Ok(Some(v)),
                None => {
                    self.cleanup();
                    Err(Error::NoReturnValue)
                },
            }
        } else {
            Ok(None)
        }
    }

    /// Calls the export `name` with `args`: its result, if it declares one.
    /// Any failure resets the runtime to an empty state, in which every
    /// later call fails.
    pub fn call(&mut self, name: &str, args: Vec<Value>) -> (r: Result<Option<Value>, Error>)
        requires
            old(self).wf(),
        ensures
            final(self).wf(),
            match call_result(
                old(self).store@,
                old(self).stack@,
                frames_view(old(self).call_stack@),
                name@,
                args@,
            ) {
                Ok((v, s, fs)) => r == Ok::<Option<Value>, Error>(v) && final(self).stack@ == s
                    && frames_view(final(self).call_stack@) == fs && final(self).store
                    == old(self).store,
                Err(e) => r == Err::<Option<Value>, Error>(e) && final(self).is_reset(),
            },
    {
        let desc = match self.store.module.find(name) {
            Some(d) => d,
            None => {
                self.cleanup();
                return Err(Error::ExportNotFound);
            },
        };
        let idx = match desc {
            ExportDesc::Func(idx) => idx as usize,
        };
        if idx >= self.store.funcs.len() {
            self.cleanup();
            return Err(Error::FuncNotFound);
        }
        let ghost s0 = self.stack@;
        let mut i: usize = 0;
        while i < args.len()
            invariant
                i <= args@.len(),
                self.stack@ == s0 + args@.subrange(0, i as int),
                self.wf(),
                idx < self.store.funcs@.len(),
                self.store == old(self).store,
                self.call_stack == old(self).call_stack,
            decreases args@.len() - i,
        {
            self.stack.push(args[i]);
            i = i + 1;
            assert(self.stack@ == s0 + args@.subrange(0, i as int));
        }
        assert(args@.subrange(0, i as int) == args@);
        self.invoke_internal(idx)
    }

    /// Drops every operand, frame, function and export.
    fn cleanup(&mut self)
        ensures
            final(self).is_reset(),
            final(self).wf(),
    {
        self.stack = Vec::new();
        self.call_stack = Vec::new();
        self.store = Store::empty();
        assert(frames_view(self.call_stack@).len() == 0);
    }
}

/// Once a runtime has been reset by a failure, every call fails: no export
/// is left to call.
pub proof fn lemma_reset_runtime_refuses_calls(rt: Runtime, name: Seq<char>, args: Seq<Value>)
    requires
        rt.is_reset(),
    ensures
        call_result(rt.store@, rt.stack@, frames_view(rt.call_stack@), name, args) == Err::<
            (Option<Value>, Seq<Value>, Seq<FrameModel>),
            Error,
        >(Error::ExportNotFound),
{
}

/// Adding values of different widths never coerces one of them: the sum is
/// undefined, and an add instruction on such operands fails with a type
/// mismatch whatever its width.
pub proof fn lemma_mismatched_add_fails(stack: Seq<Value>, wide: bool)
    requires
        stack.len() >= 2,
        (stack[stack.len() - 2] is I32) != (stack.last() is I32),
    ensures
        value_sum(stack[stack.len() - 2], stack.last()) is None,
        add_top(stack, wide) == Err::<Seq<Value>, Error>(Error::TypeMismatch),
{
}

} // verus!
