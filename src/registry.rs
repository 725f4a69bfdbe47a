//! The registry of task handlers: which handler a task type goes to.

use vstd::prelude::*;

verus! {

/// Whether `names` holds `name` at some index.
pub open spec fn holds_name(names: Seq<String>, name: Seq<char>) -> bool {
    exists|i: int| 0 <= i < names.len() && names[i]@ == name
}

/// The slot of the handler for a task type: the one registered under that
/// exact name, else the first that accepts it, else none.
pub open spec fn chosen_slot(names: Seq<String>, name: Seq<char>, accepts: Seq<bool>) -> Option<int> {
    if holds_name(names, name) {
        Some(choose|i: int| 0 <= i < names.len() && names[i]@ == name
            && forall|k: int| 0 <= k < i ==> names[k]@ != name)
    } else if exists|i: int| 0 <= i < accepts.len() && accepts[i] {
        Some(choose|i: int| 0 <= i < accepts.len() && accepts[i]
            && forall|k: int| 0 <= k < i ==> !accepts[k])
    } else {
        None
    }
}

/// The names under which handlers were registered, one slot each, in the
/// order of registration. Whoever runs the handlers keeps them by slot.
pub struct TaskHandlerRegistry {
    names: Vec<String>,
}

impl View for TaskHandlerRegistry {
    type V = Seq<String>;

    closed spec fn view(&self) -> Seq<String> {
        self.names@
    }
}

impl TaskHandlerRegistry {
    /// Whether no name is registered twice.
    pub open spec fn wf(&self) -> bool {
        forall|i: int, j: int| 0 <= i < j < self@.len() ==> self@[i]@ != self@[j]@
    }

    /// An empty registry.
    pub fn new() -> (r: Self)
        ensures
            r@ == Seq::<String>::empty(),
    {
        TaskHandlerRegistry { names: Vec::new() }
    }

    /// The number of slots.
    pub fn len(&self) -> (r: usize)
        ensures
            r == self@.len(),
    {
        self.names.len()
    }

    /// The slot registered under exactly `name`.
    pub fn find_exact(&self, name: &str) -> (r: Option<usize>)
        ensures
            match r {
                Some(i) => i < self@.len() && self@[i as int]@ == name@
                    && forall|k: int| 0 <= k < i ==> self@[k]@ != name@,
                None => !holds_name(self@, name@),
            },
    {
        let n = String::from_str(name);
        let mut i: usize = 0;
        while i < self.names.len()
            invariant
                n@ == name@,
                i <= self.names@.len(),
                forall|k: int| 0 <= k < i ==> self.names@[k]@ != name@,
            decreases self.names@.len() - i,
        {
            if self.names[i] == n {
                return Some(i);
            }
            i = i + 1;
        }
        None
    }

    /// Registers a handler under `name`; the slot is the existing one for
    /// that name (whose handler is replaced) or a new last one.
    pub fn register(&mut self, name: String) -> (r: usize)
        requires
            old(self).wf(),
        ensures
            final(self).wf(),
            holds_name(old(self)@, name@) ==> final(self)@ == old(self)@ && r < old(self)@.len()
                && old(self)@[r as int]@ == name@,
            !holds_name(old(self)@, name@) ==> final(self)@ == old(self)@.push(name)
                && r == old(self)@.len(),
    {
        match self.find_exact(name.as_str()) {
            Some(i) => i,
            None => {
                let r = self.names.len();
                self.names.push(name);
                r
            },
        }
    }

    /// The slot of the handler for task type `name`, given for each slot
    /// whether its handler accepts that type: the exact registration first,
    /// else the first slot that accepts it.
    pub fn select(&self, name: &str, accepts: &Vec<bool>) -> (r: Option<usize>)
        requires
            accepts@.len() == self@.len(),
        ensures
            match r {
                Some(i) => chosen_slot(self@, name@, accepts@) == Some(i as int),
                None => chosen_slot(self@, name@, accepts@) is None,
            },
    {
        match self.find_exact(name) {
            Some(i) => {
                proof {
                    let c = choose|j: int| 0 <= j < self@.len() && self@[j]@ == name@
                        && forall|k: int| 0 <= k < j ==> self@[k]@ != name@;
                    assert(c == i as int) by {
                        if c < i as int {
                        } else if c > i as int {
                        }
                    }
                }
                Some(i)
            },
            None => {
                let mut i: usize = 0;
                while i < accepts.len()
                    invariant
                        i <= accepts@.len(),
                        accepts@.len() == self@.len(),
                        !holds_name(self@, name@),
                        forall|k: int| 0 <= k < i ==> !accepts@[k],
                    decreases accepts@.len() - i,
                {
                    if accepts[i] {
                        proof {
                            let c = choose|j: int| 0 <= j < accepts@.len() && accepts@[j]
                                && forall|k: int| 0 <= k < j ==> !accepts@[k];
                            assert(c == i as int) by {
                                if c < i as int {
                                } else if c > i as int {
                                }
                            }
                        }
                        return Some(i);
                    }
                    i = i + 1;
                }
                None
            },
        }
    }
}

} // verus!
