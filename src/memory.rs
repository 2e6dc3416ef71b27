use vstd::prelude::*;
use crate::value::Value;
use crate::error::{VMError, Fault, result_view};

verus! {

/// A store of variables keyed by name; the global variables of a run, and
/// the locals of each call frame.
pub struct Memory {
    /// Each name at most once.
    entries: Vec<(String, Value)>,
    contents: Ghost<Map<Seq<char>, Value>>,
}

impl View for Memory {
    type V = Map<Seq<char>, Value>;

    closed spec fn view(&self) -> Map<Seq<char>, Value> {
        self.contents@
    }
}

impl Memory {
    /// The entries hold each name once, and exactly the variables of the view.
    pub closed spec fn wf(&self) -> bool {
        &&& forall|i: int, j: int|
            0 <= i < j < self.entries@.len() ==> #[trigger] self.entries@[i].0@
                != #[trigger] self.entries@[j].0@
        &&& forall|i: int|
            0 <= i < self.entries@.len() ==> {
                &&& self.contents@.contains_key(#[trigger] self.entries@[i].0@)
                &&& self.contents@[self.entries@[i].0@] == self.entries@[i].1
            }
        &&& forall|k: Seq<char>|
            #[trigger] self.contents@.contains_key(k) ==> exists|i: int|
                0 <= i < self.entries@.len() && self.entries@[i].0@ == k
    }

    /// An empty store.
    pub fn new_solution() -> (r: Memory)
        ensures
            r.wf(),
            r@ == Map::<Seq<char>, Value>::empty(),
    {
        Memory { entries: Vec::new(), contents: Ghost(Map::empty()) }
    }

    /// The position of `name` among the entries, if it is there.
    fn position(&self, name: &String) -> (r: Option<usize>)
        requires
            self.wf(),
        ensures
            r matches Some(i) ==> i < self.entries@.len() && self.entries@[i as int].0@ == name@,
            r is None ==> !self@.contains_key(name@),
    {
        let mut i: usize = 0;
        while i < self.entries.len()
            invariant
                self.wf(),
                i <= self.entries@.len(),
                forall|j: int| 0 <= j < i ==> self.entries@[j].0@ != name@,
            decreases self.entries@.len() - i,
        {
            if self.entries[i].0 == *name {
                return Some(i);
            }
            i = i + 1;
        }
        None
    }

    /// Sets `name` to `value`, adding the variable or overwriting it.
    pub fn store_solution(&mut self, name: String, value: Value)
        requires
            old(self).wf(),
        ensures
            final(self).wf(),
            final(self)@ == old(self)@.insert(name@, value),
    {
        let ghost key = name@;
        match self.position(&name) {
            Some(i) => {
                self.entries.set(i, (name, value));
            },
            None => {
                self.entries.push((name, value));
            },
        }
        self.contents = Ghost(self.contents@.insert(key, value));
        assert forall|k: Seq<char>| #[trigger] self.contents@.contains_key(k) implies exists|i: int|
            0 <= i < self.entries@.len() && self.entries@[i].0@ == k by {
            if k != key {
                assert(old(self).contents@.contains_key(k));
                let j = choose|j: int|
                    0 <= j < old(self).entries@.len() && old(self).entries@[j].0@ == k;
                assert(self.entries@[j].0@ == k);
            } else {
                let ghost p = if old(self)@.contains_key(key) {
                    choose|j: int| 0 <= j < old(self).entries@.len() && old(self).entries@[j].0@ == key
                } else {
                    old(self).entries@.len() as int
                };
                assert(self.entries@[p].0@ == k);
            }
        }
    }

    /// The value of `name`, if the store holds it.
    pub fn lookup(&self, name: &str) -> (r: Option<Value>)
        requires
            self.wf(),
        ensures
            r == (if self@.contains_key(name@) {
                Some(self@[name@])
            } else {
                None
            }),
    {
        let key = name.to_owned();
        match self.position(&key) {
            Some(i) => Some(self.entries[i].1),
            None => None,
        }
    }

    /// The value of `name`; fails with `UndefinedVariable(name)` where the
    /// store does not hold it.
    pub fn load_solution(&self, name: &str) -> (r: Result<Value, VMError>)
        requires
            self.wf(),
        ensures
            result_view(r) == (if self@.contains_key(name@) {
                Ok(self@[name@])
            } else {
                Err(Fault::UndefinedVariable(name@))
            }),
    {
        match self.lookup(name) {
            Some(v) => Ok(v),
            None => Err(VMError::UndefinedVariable(name.to_owned())),
        }
    }
}

} // verus!
