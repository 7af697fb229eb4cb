use vstd::prelude::*;

verus! {

/// What a callback is registered for.
#[derive(Debug, Clone, Copy, PartialEq, Eq, Hash)]
pub enum FruitCallbackKey {
    /// A native selector, such as `"handleEvent:withReplyEvent:"`.
    Method(&'static str),
    /// A particular native object, by its handle.
    Object(u64),
}

/// A `FruitCallbackKey` as values.
pub enum CallbackKeyView {
    Method(Seq<char>),
    Object(u64),
}

impl View for FruitCallbackKey {
    type V = CallbackKeyView;

    open spec fn view(&self) -> CallbackKeyView {
        match self {
            FruitCallbackKey::Method(s) => CallbackKeyView::Method(s@),
            FruitCallbackKey::Object(o) => CallbackKeyView::Object(*o),
        }
    }
}

/// Whether two keys name the same callback.
pub fn same_key(a: &FruitCallbackKey, b: &FruitCallbackKey) -> (r: bool)
    ensures
        r == (a@ == b@),
{
    match (*a, *b) {
        (FruitCallbackKey::Method(x), FruitCallbackKey::Method(y)) => x.to_owned() == y.to_owned(),
        (FruitCallbackKey::Object(x), FruitCallbackKey::Object(y)) => x == y,
        _ => false,
    }
}

/// The callbacks of an application: at most one handler for each key.
pub struct CallbackTable<H> {
    entries: Vec<(FruitCallbackKey, H)>,
}

impl<H> CallbackTable<H> {
    /// No two entries share a key.
    pub closed spec fn wf(&self) -> bool {
        forall|i: int, j: int|
            0 <= i < j < self.entries@.len() ==> (#[trigger] self.entries@[i]).0@
                != (#[trigger] self.entries@[j]).0@
    }

    /// The handler registered for each key.
    pub closed spec fn view(&self) -> Map<CallbackKeyView, H> {
        Map::new(
            |k: CallbackKeyView| exists|i: int| 0 <= i < self.entries@.len() && #[trigger] self.entries@[i].0@ == k,
            |k: CallbackKeyView|
                self.entries@[choose|i: int| 0 <= i < self.entries@.len() && #[trigger] self.entries@[i].0@ == k].1,
        )
    }

    proof fn lemma_lookup(&self, i: int)
        requires
            self.wf(),
            0 <= i < self.entries@.len(),
        ensures
            self.view().contains_key(self.entries@[i].0@),
            self.view()[self.entries@[i].0@] == self.entries@[i].1,
    {
        let k = self.entries@[i].0@;
        let j = choose|j: int| 0 <= j < self.entries@.len() && #[trigger] self.entries@[j].0@ == k;
        if j != i {
            if j < i {
                assert(self.entries@[j].0@ != self.entries@[i].0@);
            } else {
                assert(self.entries@[i].0@ != self.entries@[j].0@);
            }
        }
    }

    /// An empty table.
    pub fn new() -> (r: CallbackTable<H>)
        ensures
            r.wf(),
            r.view() == Map::<CallbackKeyView, H>::empty(),
    {
        let r = CallbackTable { entries: Vec::new() };
        assert(r.view() =~= Map::<CallbackKeyView, H>::empty());
        r
    }

    /// Where the handler for `key` stands, if there is one.
    fn find(&self, key: &FruitCallbackKey) -> (r: Option<usize>)
        requires
            self.wf(),
        ensures
            match r {
                Some(i) => i < self.entries@.len() && self.entries@[i as int].0@ == key@,
                None => !self.view().contains_key(key@),
            },
    {
        let mut i: usize = 0;
        while i < self.entries.len()
            invariant
                0 <= i <= self.entries@.len(),
                forall|j: int| 0 <= j < i ==> (#[trigger] self.entries@[j]).0@ != key@,
            decreases self.entries.len() - i,
        {
            if same_key(&self.entries[i].0, key) {
                return Some(i);
            }
            i = i + 1;
        }
        None
    }

    /// Registers `handler` for `key`, replacing any handler registered for
    /// it before.
    pub fn register(&mut self, key: FruitCallbackKey, handler: H)
        requires
            old(self).wf(),
        ensures
            final(self).wf(),
            final(self).view() == old(self).view().insert(key@, handler),
    {
        let ghost old_entries = self.entries@;
        let ghost k = key@;
        match self.find(&key) {
            Some(i) => {
                self.entries.set(i, (key, handler));
                proof {
                    let new_entries = self.entries@;
                    assert forall|a: int, b: int| 0 <= a < b < new_entries.len() implies (#[trigger] new_entries[a]).0@
                        != (#[trigger] new_entries[b]).0@ by {
                        assert(old_entries[a].0@ != old_entries[b].0@);
                    }
                    assert forall|c: CallbackKeyView| #[trigger] self.view().contains_key(c) == old(self).view().insert(k, handler).contains_key(c) by {
                        if c != k && self.view().contains_key(c) {
                            let j = choose|j: int| 0 <= j < new_entries.len() && #[trigger] new_entries[j].0@ == c;
                            assert(old_entries[j].0@ == c);
                        }
                        if c != k && old(self).view().contains_key(c) {
                            let j = choose|j: int| 0 <= j < old_entries.len() && #[trigger] old_entries[j].0@ == c;
                            assert(new_entries[j].0@ == c);
                        }
                        if c == k {
                            assert(new_entries[i as int].0@ == c);
                        }
                    }
                    assert forall|c: CallbackKeyView| #[trigger] self.view().contains_key(c) implies self.view()[c]
                        == old(self).view().insert(k, handler)[c] by {
                        let j = choose|j: int| 0 <= j < new_entries.len() && #[trigger] new_entries[j].0@ == c;
                        self.lemma_lookup(j);
                        if c != k {
                            assert(old_entries[j] == new_entries[j]);
                            old(self).lemma_lookup(j);
                        }
                    }
                    assert(self.view() =~= old(self).view().insert(k, handler));
                }
            },
            None => {
                self.entries.push((key, handler));
                proof {
                    let new_entries = self.entries@;
                    let n = old_entries.len() as int;
                    assert forall|a: int, b: int| 0 <= a < b < new_entries.len() implies (#[trigger] new_entries[a]).0@
                        != (#[trigger] new_entries[b]).0@ by {
                        if b == n {
                            assert(new_entries[a] == old_entries[a]);
                            assert(old(self).view().contains_key(old_entries[a].0@));
                        } else {
                            assert(old_entries[a].0@ != old_entries[b].0@);
                        }
                    }
                    assert forall|c: CallbackKeyView| #[trigger] self.view().contains_key(c) == old(self).view().insert(k, handler).contains_key(c) by {
                        if c != k && self.view().contains_key(c) {
                            let j = choose|j: int| 0 <= j < new_entries.len() && #[trigger] new_entries[j].0@ == c;
                            assert(old_entries[j].0@ == c);
                        }
                        if c != k && old(self).view().contains_key(c) {
                            let j = choose|j: int| 0 <= j < old_entries.len() && #[trigger] old_entries[j].0@ == c;
                            assert(new_entries[j].0@ == c);
                        }
                        if c == k {
                            assert(new_entries[n].0@ == c);
                        }
                    }
                    assert forall|c: CallbackKeyView| #[trigger] self.view().contains_key(c) implies self.view()[c]
                        == old(self).view().insert(k, handler)[c] by {
                        let j = choose|j: int| 0 <= j < new_entries.len() && #[trigger] new_entries[j].0@ == c;
                        self.lemma_lookup(j);
                        if c != k {
                            assert(j < n);
                            assert(old_entries[j] == new_entries[j]);
                            old(self).lemma_lookup(j);
                        }
                    }
                    assert(self.view() =~= old(self).view().insert(k, handler));
                }
            },
        }
    }

    /// The handler registered for `key`, if any.
    pub fn get(&self, key: &FruitCallbackKey) -> (r: Option<&H>)
        requires
            self.wf(),
        ensures
            r is Some == self.view().contains_key(key@),
            r is Some ==> *r->Some_0 == self.view()[key@],
    {
        match self.find(key) {
            Some(i) => {
                proof {
                    self.lemma_lookup(i as int);
                }
                Some(&self.entries[i].1)
            },
            None => None,
        }
    }

    /// The number of keys with a handler.
    pub fn len(&self) -> (r: usize)
        requires
            self.wf(),
        ensures
            r == self.view().dom().len(),
    {
        proof {
            self.lemma_dom_len();
        }
        self.entries.len()
    }

    proof fn lemma_dom_len(&self)
        requires
            self.wf(),
        ensures
            self.view().dom().len() == self.entries@.len(),
    {
        let keys = self.entries@.map_values(|e: (FruitCallbackKey, H)| e.0@);
        assert forall|i: int, j: int| 0 <= i < j < keys.len() implies keys[i] != keys[j] by {
            assert(self.entries@[i].0@ != self.entries@[j].0@);
        }
        keys.unique_seq_to_set();
        assert(self.view().dom() =~= keys.to_set()) by {
            assert forall|c: CallbackKeyView| self.view().dom().contains(c) implies keys.to_set().contains(c) by {
                let j = choose|j: int| 0 <= j < self.entries@.len() && #[trigger] self.entries@[j].0@ == c;
                assert(keys[j] == c);
            }
            assert forall|c: CallbackKeyView| keys.to_set().contains(c) implies self.view().dom().contains(c) by {
                let j = choose|j: int| 0 <= j < keys.len() && keys[j] == c;
                assert(self.entries@[j].0@ == c);
            }
        }
    }
}

} // verus!
