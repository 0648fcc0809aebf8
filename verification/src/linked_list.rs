//! A singly linked list of integers, represented as an enum: a node
//! carries a value and a boxed tail, and the empty list is its own variant.

use vstd::prelude::*;
use vstd::string::StringExecFns;

use crate::decimal::{int_rep, i64_to_string};

verus! {

/// An enum-shaped linked list.
#[derive(Debug)]
pub enum LinkedList {
    Node(i32, Box<LinkedList>),
    Nil,
}

/// The rendering of a list: its values front to back, joined by arrows,
/// and nothing at all for the empty list.
pub open spec fn list_rep(s: Seq<i32>) -> Seq<char>
    decreases s.len(),
{
    if s.len() == 0 {
        Seq::empty()
    } else if s.len() == 1 {
        int_rep(s[0] as int)
    } else {
        int_rep(s[0] as int) + " -> "@ + list_rep(s.skip(1))
    }
}

impl LinkedList {
    /// The sequence of values held, head first.
    pub open spec fn elems(self) -> Seq<i32>
        decreases self,
    {
        match self {
            LinkedList::Node(v, next) => seq![v] + next.elems(),
            LinkedList::Nil => Seq::empty(),
        }
    }

    /// A new, empty list.
    pub fn new() -> (r: LinkedList)
        ensures
            r.elems() == Seq::<i32>::empty(),
    {
        LinkedList::Nil
    }

    /// Pushes a value at the head, taking ownership of the list.
    pub fn push(self, val: i32) -> (r: LinkedList)
        ensures
            r.elems() == seq![val] + self.elems(),
    {
        LinkedList::Node(val, Box::new(self))
    }

    /// Pops the head value, handing back the rest of the list; the empty
    /// list stays empty and yields nothing.
    pub fn pop(self) -> (r: (LinkedList, Option<i32>))
        ensures
            self.elems().len() == 0 ==> r.0.elems() == self.elems() && r.1 == None::<i32>,
            self.elems().len() > 0 ==> r.0.elems() == self.elems().skip(1) && r.1 == Some(
                self.elems()[0],
            ),
    {
        match self {
            LinkedList::Nil => (self, None),
            LinkedList::Node(v, next) => {
                proof {
                    assert((seq![v] + next.elems()).skip(1) =~= next.elems());
                }
                (*next, Some(v))
            },
        }
    }

    /// The number of values held.
    pub fn len(&self) -> (r: usize)
        requires
            self.elems().len() <= usize::MAX,
        ensures
            r == self.elems().len(),
        decreases *self,
    {
        match self {
            LinkedList::Node(_, next) => 1 + next.len(),
            LinkedList::Nil => 0,
        }
    }

    /// Looks a value up, returning a reference to its first occurrence.
    pub fn find(&self, val: i32) -> (r: Option<&i32>)
        ensures
            match r {
                Some(v) => *v == val && self.elems().contains(val),
                None => !self.elems().contains(val),
            },
        decreases *self,
    {
        match self {
            LinkedList::Node(v, next) => {
                if *v == val {
                    proof {
                        assert(self.elems()[0] == val);
                    }
                    Some(v)
                } else {
                    let r = next.find(val);
                    proof {
                        if next.elems().contains(val) {
                            let i = choose|i: int|
                                0 <= i < next.elems().len() && next.elems()[i] == val;
                            assert(self.elems()[i + 1] == val);
                        } else if self.elems().contains(val) {
                            let i = choose|i: int|
                                0 <= i < self.elems().len() && self.elems()[i] == val;
                            assert(i > 0);
                            assert(next.elems()[i - 1] == val);
                        }
                    }
                    r
                }
            },
            LinkedList::Nil => None,
        }
    }

    /// Renders the list.
    pub fn to_string(&self) -> (s: String)
        ensures
            s@ == list_rep(self.elems()),
        decreases *self,
    {
        match self {
            LinkedList::Nil => String::new(),
            LinkedList::Node(v, next) => {
                let mut s = i64_to_string(*v as i64);
                match &**next {
                    LinkedList::Nil => {
                        proof {
                            assert((**next).elems() =~= Seq::<i32>::empty());
                            assert(self.elems() =~= seq![*v]);
                        }
                        s
                    },
                    _ => {
                        s.append(" -> ");
                        let rest = next.to_string();
                        s.append(rest.as_str());
                        proof {
                            assert(next.elems().len() > 0);
                            assert(self.elems().skip(1) =~= next.elems());
                            assert(self.elems()[0] == *v);
                        }
                        s
                    },
                }
            },
        }
    }
}

} // verus!
