//! The lexical environment: names bound to values, innermost scope first.

use vstd::prelude::*;
use crate::num::Number;
use crate::value::Value;

verus! {

/// A chain of scopes. A name is looked up in the innermost scope first, and
/// in the enclosing one on a miss. Within one scope the binding made last is
/// the one that counts.
#[derive(Debug)]
pub struct Scope<N> {
    /// The bindings of this scope, oldest first.
    pub bindings: Vec<(String, Value<N>)>,
    /// The enclosing scope.
    pub parent: Option<Box<Scope<N>>>,
}

impl<N: Number> Scope<N> {
    /// The value that the last binding of `name` in `bindings` gives it.
    pub open spec fn latest(bindings: Seq<(String, Value<N>)>, name: Seq<char>) -> Option<Value<N>>
        decreases bindings.len(),
    {
        if bindings.len() == 0 {
            None
        } else if bindings.last().0@ == name {
            Some(bindings.last().1)
        } else {
            Self::latest(bindings.drop_last(), name)
        }
    }

    /// The value that `name` is bound to: by this scope, or else by the
    /// nearest enclosing scope that binds it.
    pub open spec fn lookup(self, name: Seq<char>) -> Option<Value<N>>
        decreases self,
    {
        match Self::latest(self.bindings@, name) {
            Some(v) => Some(v),
            None => match self.parent {
                Some(outer) => (*outer).lookup(name),
                None => None,
            },
        }
    }

    /// A scope that binds nothing and has no enclosing scope.
    pub fn new() -> (r: Self)
        ensures
            r.bindings@.len() == 0,
            r.parent is None,
            forall|name: Seq<char>| r.lookup(name) is None,
    {
        Scope { bindings: Vec::new(), parent: None }
    }

    /// A scope that binds nothing itself and is enclosed by `outer`.
    pub fn with_parent(outer: Scope<N>) -> (r: Self)
        ensures
            r.bindings@.len() == 0,
            r.parent == Some(Box::new(outer)),
            forall|name: Seq<char>| r.lookup(name) == outer.lookup(name),
    {
        Scope { bindings: Vec::new(), parent: Some(Box::new(outer)) }
    }

    /// Binds `name` to `value` in this scope. An earlier binding of the name,
    /// here or in an enclosing scope, is shadowed; other names keep their
    /// values.
    pub fn insert(&mut self, name: String, value: Value<N>)
        ensures
            final(self).bindings@ == old(self).bindings@.push((name, value)),
            final(self).parent == old(self).parent,
            final(self).lookup(name@) == Some(value),
            forall|other: Seq<char>|
                other != name@ ==> final(self).lookup(other) == old(self).lookup(other),
    {
        let ghost before = self.bindings@;
        self.bindings.push((name, value));
        proof {
            assert(self.bindings@.drop_last() =~= before);
            assert(self.bindings@.last() == (name, value));
        }
    }

    /// Looks `name` up, innermost scope first. The scope is only read.
    pub fn get(&self, name: &String) -> (r: Option<Value<N>>)
        ensures
            r == self.lookup(name@),
        decreases self,
    {
        let mut i: usize = self.bindings.len();
        proof {
            assert(self.bindings@.take(i as int) =~= self.bindings@);
        }
        while i > 0
            invariant
                i <= self.bindings.len(),
                Self::latest(self.bindings@, name@) == Self::latest(
                    self.bindings@.take(i as int),
                    name@,
                ),
            decreases i,
        {
            i = i - 1;
            proof {
                let prefix = self.bindings@.take(i + 1);
                assert(prefix.last() == self.bindings@[i as int]);
                assert(prefix.drop_last() =~= self.bindings@.take(i as int));
            }
            if self.bindings[i].0 == *name {
                return Some(self.bindings[i].1.duplicate());
            }
        }
        match &self.parent {
            Some(outer) => outer.get(name),
            None => None,
        }
    }
}

} // verus!
