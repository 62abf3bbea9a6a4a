//! The header collection of a guest-visible HTTP object: an ordered mapping from name to
//! value in which a later write to a name replaces the earlier one.

use vstd::prelude::*;
use crate::assoc::{
    distinct, lemma_position, lemma_position_is, lemma_position_none, lemma_put, lookup, position,
    put, Pairs,
};
use crate::value::str_eq;

verus! {

/// Headers as guest code holds them. Names are compared exactly as written.
#[derive(Debug)]
pub struct JsHeaders {
    entries: Vec<(String, String)>,
}

impl View for JsHeaders {
    type V = Pairs<Seq<char>>;

    closed spec fn view(&self) -> Pairs<Seq<char>> {
        self.entries@.map_values(|e: (String, String)| (e.0@, e.1@))
    }
}

impl JsHeaders {
    /// No name occurs twice. Holds of every collection built with [`JsHeaders::new`] and
    /// [`JsHeaders::insert`].
    pub open spec fn wf(&self) -> bool {
        distinct(self@)
    }

    /// The empty collection.
    pub fn new() -> (r: JsHeaders)
        ensures
            r@ == Pairs::<Seq<char>>::empty(),
            r.wf(),
    {
        let r = JsHeaders { entries: Vec::new() };
        assert(r@ =~= Pairs::<Seq<char>>::empty());
        r
    }

    /// Number of headers.
    pub fn len(&self) -> (n: usize)
        ensures
            n == self@.len(),
    {
        self.entries.len()
    }

    /// The `i`-th header in insertion order, or `None` past the end.
    pub fn entry(&self, i: usize) -> (r: Option<(&String, &String)>)
        ensures
            r is Some <==> i < self@.len(),
            r matches Some(e) ==> e.0@ == self@[i as int].0 && e.1@ == self@[i as int].1,
    {
        if i < self.entries.len() {
            let e = &self.entries[i];
            Some((&e.0, &e.1))
        } else {
            None
        }
    }

    fn find(&self, name: &str) -> (r: Option<usize>)
        ensures
            r matches Some(i) ==> position(self@, name@) == Some(i as int),
            r is None ==> position(self@, name@) is None,
    {
        let mut i: usize = 0;
        while i < self.entries.len()
            invariant
                i <= self.entries.len(),
                forall|j: int| 0 <= j < i ==> (#[trigger] self@[j]).0 != name@,
            decreases self.entries.len() - i,
        {
            if str_eq(self.entries[i].0.as_str(), name) {
                proof {
                    lemma_position_is(self@, name@, i as int);
                }
                return Some(i);
            }
            i = i + 1;
        }
        proof {
            lemma_position_none(self@, name@);
        }
        None
    }

    /// The value stored under `name`.
    pub fn get(&self, name: &str) -> (r: Option<&String>)
        ensures
            r is Some <==> lookup(self@, name@) is Some,
            r matches Some(v) ==> lookup(self@, name@) == Some(v@),
    {
        match self.find(name) {
            Some(i) => {
                proof {
                    lemma_position(self@, name@);
                }
                Some(&self.entries[i].1)
            },
            None => None,
        }
    }

    /// Stores `value` under `name`, replacing what was stored there before.
    pub fn insert(&mut self, name: String, value: String)
        ensures
            final(self)@ == put(old(self)@, name@, value@),
            old(self).wf() ==> final(self).wf(),
            lookup(final(self)@, name@) == Some(value@),
    {
        proof {
            lemma_put(self@, name@, value@);
            lemma_position(self@, name@);
        }
        match self.find(name.as_str()) {
            Some(i) => {
                self.entries.set(i, (name, value));
                assert(self@ =~= put(old(self)@, name@, value@));
            },
            None => {
                self.entries.push((name, value));
                assert(self@ =~= put(old(self)@, name@, value@));
            },
        }
    }
}

} // verus!
