use vstd::prelude::*;
use crate::value::Value;
use crate::memory::Memory;

verus! {

/// The abstract value of a call frame.
pub struct FrameView {
    /// Where execution resumes when the frame returns.
    pub return_address: usize,
    /// The frame's local variables.
    pub locals: Map<Seq<char>, Value>,
}

/// One invocation: where to return to, and its private local variables.
pub struct CallFrame {
    return_address: usize,
    locals: Memory,
}

impl View for CallFrame {
    type V = FrameView;

    closed spec fn view(&self) -> FrameView {
        FrameView { return_address: self.return_address, locals: self.locals@ }
    }
}

impl CallFrame {
    pub closed spec fn wf(&self) -> bool {
        self.locals.wf()
    }

    /// A frame that returns to `return_address`, with no locals.
    pub fn new_solution(return_address: usize) -> (r: CallFrame)
        ensures
            r.wf(),
            r@ == (FrameView { return_address, locals: Map::empty() }),
    {
        CallFrame { return_address, locals: Memory::new_solution() }
    }

    /// Sets the local `name` to `value`.
    pub fn store_local_solution(&mut self, name: String, value: Value)
        requires
            old(self).wf(),
        ensures
            final(self).wf(),
            final(self)@ == (FrameView {
                locals: old(self)@.locals.insert(name@, value),
                ..old(self)@
            }),
    {
        self.locals.store_solution(name, value);
    }

    /// The value of the local `name`, if it is set.
    pub fn load_local_solution(&self, name: &str) -> (r: Option<Value>)
        requires
            self.wf(),
        ensures
            r == (if self@.locals.contains_key(name@) {
                Some(self@.locals[name@])
            } else {
                None
            }),
    {
        self.locals.lookup(name)
    }

    /// Where execution resumes when this frame returns.
    pub fn return_address(&self) -> (r: usize)
        ensures
            r == self@.return_address,
    {
        self.return_address
    }
}

} // verus!
