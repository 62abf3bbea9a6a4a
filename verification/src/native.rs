//! Plain-data model of the host's HTTP messages: what the codec reads from a native request
//! or response and what it hands back for the host to build one.

use vstd::prelude::*;
use crate::assoc::{
    distinct, lemma_position, lemma_position_is, lemma_position_none, lemma_put, lemma_replace,
    lookup, position, put, replace, without, Pairs,
};
use crate::value::str_eq;

verus! {

/// The body of a native message.
pub enum NativeBody {
    /// No payload.
    Empty,
    /// A host-owned byte stream, named by its handle.
    Handle(u32),
    /// A payload held in memory.
    Inline(Vec<u8>),
}

/// Mathematical counterpart of [`NativeBody`].
pub ghost enum BodyModel {
    Empty,
    Handle(u32),
    Inline(Seq<u8>),
}

impl View for NativeBody {
    type V = BodyModel;

    open spec fn view(&self) -> BodyModel {
        match self {
            NativeBody::Empty => BodyModel::Empty,
            NativeBody::Handle(h) => BodyModel::Handle(*h),
            NativeBody::Inline(b) => BodyModel::Inline(b@),
        }
    }
}

impl NativeBody {
    /// A stream body never carries the handle 0, which means "no stream".
    pub open spec fn wf(&self) -> bool {
        self matches NativeBody::Handle(h) ==> *h != 0
    }
}

/// Header lines of a native message, in order. A name may occur more than once.
pub struct NativeHeaders {
    entries: Vec<(String, Vec<u8>)>,
}

impl View for NativeHeaders {
    type V = Pairs<Seq<u8>>;

    closed spec fn view(&self) -> Pairs<Seq<u8>> {
        self.entries@.map_values(|e: (String, Vec<u8>)| (e.0@, e.1@))
    }
}

impl NativeHeaders {
    /// The empty collection.
    pub fn new() -> (r: NativeHeaders)
        ensures
            r@ == Pairs::<Seq<u8>>::empty(),
    {
        let r = NativeHeaders { entries: Vec::new() };
        assert(r@ =~= Pairs::<Seq<u8>>::empty());
        r
    }

    /// Number of header lines.
    pub fn len(&self) -> (n: usize)
        ensures
            n == self@.len(),
    {
        self.entries.len()
    }

    /// The `i`-th header line, or `None` past the end.
    pub fn entry(&self, i: usize) -> (r: Option<(&String, &Vec<u8>)>)
        ensures
            r is Some <==> i < self@.len(),
            r matches Some(e) ==> e.0@ == self@[i as int].0 && e.1@ == self@[i as int].1,
    {
        if i < self.entries.len() {
            let e = &self.entries[i];
            Some((&e.0, &e.1))
        } else {
            None
        }
    }

    /// Adds a header line after the existing ones, whatever their names.
    pub fn append(&mut self, name: String, value: Vec<u8>)
        ensures
            final(self)@ == old(self)@.push((name@, value@)),
    {
        self.entries.push((name, value));
        assert(self@ =~= old(self)@.push((name@, value@)));
    }

    fn find(&self, name: &str) -> (r: Option<usize>)
        ensures
            r matches Some(i) ==> position(self@, name@) == Some(i as int),
            r is None ==> position(self@, name@) is None,
    {
        let mut i: usize = 0;
        while i < self.entries.len()
            invariant
                i <= self.entries.len(),
                forall|j: int| 0 <= j < i ==> (#[trigger] self@[j]).0 != name@,
            decreases self.entries.len() - i,
        {
            if str_eq(self.entries[i].0.as_str(), name) {
                proof {
                    lemma_position_is(self@, name@, i as int);
                }
                return Some(i);
            }
            i = i + 1;
        }
        proof {
            lemma_position_none(self@, name@);
        }
        None
    }

    /// The value of the first header line named `name`.
    pub fn get(&self, name: &str) -> (r: Option<&Vec<u8>>)
        ensures
            r is Some <==> lookup(self@, name@) is Some,
            r matches Some(v) ==> lookup(self@, name@) == Some(v@),
    {
        match self.find(name) {
            Some(i) => {
                proof {
                    lemma_position(self@, name@);
                }
                Some(&self.entries[i].1)
            },
            None => None,
        }
    }

    /// Writes `value` under `name`, as `http::HeaderMap::insert` does: the first line of
    /// that name is overwritten and every other line of that name is removed; where there is
    /// none the line is added at the end.
    pub fn insert(&mut self, name: String, value: Vec<u8>)
        ensures
            final(self)@ == replace(old(self)@, name@, value@),
            lookup(final(self)@, name@) == Some(value@),
            forall|j: int|
                0 <= j < final(self)@.len() && (#[trigger] final(self)@[j]).0 == name@
                    ==> position(final(self)@, name@) == Some(j),
            distinct(old(self)@) ==> final(self)@ == put(old(self)@, name@, value@) && distinct(
                final(self)@,
            ),
    {
        let ghost before = self@;
        proof {
            lemma_replace(before, name@, value@);
            lemma_put(before, name@, value@);
            lemma_position(before, name@);
        }
        match self.find(name.as_str()) {
            Some(i) => {
                let ghost tail = before.skip(i + 1);
                let ghost mut done: int = 0;
                proof {
                    lemma_position(before, name@);
                    assert(0 <= i < before.len());
                    assert(before.len() == self.entries@.len());
                }
                let count = self.entries.len();
                assert(i < count);
                let mut j: usize = i + 1;
                assert(tail.take(0) =~= Seq::empty());
                assert(self@ =~= before.take(i + 1) + without(tail.take(0), name@) + tail.skip(0));
                while j < self.entries.len()
                    invariant
                        i < j <= self.entries.len(),
                        0 <= done <= tail.len(),
                        tail == before.skip(i + 1),
                        i < before.len(),
                        self@ == before.take(i + 1) + without(tail.take(done), name@) + tail.skip(
                            done,
                        ),
                        j == i + 1 + without(tail.take(done), name@).len(),
                    decreases tail.len() - done,
                {
                    let ghost kept = without(tail.take(done), name@);
                    proof {
                        assert(self@.len() == i + 1 + kept.len() + (tail.len() - done));
                        assert(self@[j as int] == tail.skip(done)[0]);
                        assert(tail.take(done + 1).drop_last() =~= tail.take(done));
                        assert(tail.take(done + 1).last() == tail[done]);
                    }
                    if str_eq(self.entries[j].0.as_str(), name.as_str()) {
                        let ghost current = self@;
                        self.entries.remove(j);
                        proof {
                            assert(self@ =~= current.remove(j as int));
                            assert(self@ =~= before.take(i + 1) + kept + tail.skip(done + 1));
                        }
                    } else {
                        proof {
                            assert(self@ =~= before.take(i + 1) + kept.push(tail[done]) + tail.skip(
                                done + 1,
                            ));
                        }
                        j = j + 1;
                    }
                    proof {
                        done = done + 1;
                    }
                }
                let ghost kept = without(tail, name@);
                proof {
                    assert(tail.take(done) =~= tail);
                    assert(tail.skip(done) =~= Seq::empty());
                    assert(self@ =~= before.take(i + 1) + kept);
                }
                let ghost mid = self@;
                self.entries.set(i, (name, value));
                proof {
                    assert(position(before, name@) == Some(i as int));
                    assert(self@ =~= mid.update(i as int, (name@, value@)));
                    assert(self@ =~= before.take(i as int).push((name@, value@)) + kept);
                }
            },
            None => {
                self.entries.push((name, value));
                assert(self@ =~= replace(before, name@, value@));
            },
        }
    }
}

/// A native HTTP request.
pub struct NativeRequest {
    pub method: String,
    pub uri: String,
    pub headers: NativeHeaders,
    pub body: NativeBody,
}

/// Mathematical counterpart of [`NativeRequest`].
pub ghost struct RequestModel {
    pub method: Seq<char>,
    pub uri: Seq<char>,
    pub headers: Pairs<Seq<u8>>,
    pub body: BodyModel,
}

impl View for NativeRequest {
    type V = RequestModel;

    open spec fn view(&self) -> RequestModel {
        RequestModel {
            method: self.method@,
            uri: self.uri@,
            headers: self.headers@,
            body: self.body@,
        }
    }
}

/// A native HTTP response.
pub struct NativeResponse {
    pub status: u16,
    pub headers: NativeHeaders,
    pub body: NativeBody,
}

/// Mathematical counterpart of [`NativeResponse`].
pub ghost struct ResponseModel {
    pub status: u16,
    pub headers: Pairs<Seq<u8>>,
    pub body: BodyModel,
}

impl View for NativeResponse {
    type V = ResponseModel;

    open spec fn view(&self) -> ResponseModel {
        ResponseModel { status: self.status, headers: self.headers@, body: self.body@ }
    }
}

} // verus!
