//! Routing of connections to servers by the server name a client asked for.
use vstd::prelude::*;

verus! {

/// The view of a route key.
pub open spec fn key_view(key: Option<String>) -> Option<Seq<char>> {
    match key {
        Some(name) => Some(name@),
        None => None,
    }
}

/// The value for `key` among `entries`: the first entry with that key.
pub open spec fn spec_find<T>(entries: Seq<(Option<String>, T)>, key: Option<Seq<char>>) -> Option<T>
    decreases entries.len(),
{
    if entries.len() == 0 {
        None
    } else if key_view(entries[0].0) == key {
        Some(entries[0].1)
    } else {
        spec_find(entries.drop_first(), key)
    }
}

/// Servers by the name clients ask for; the entry without a name takes any other name.
pub struct Router<T> {
    /// Servers by name.
    pub data: Vec<(Option<String>, T)>,
}

impl<T> Router<T> {
    /// No key occurs twice.
    pub open spec fn wf(&self) -> bool {
        forall|i: int, j: int|
            0 <= i < self.data@.len() && 0 <= j < self.data@.len() && i != j ==> key_view(
                #[trigger] self.data@[i].0,
            ) != key_view(#[trigger] self.data@[j].0)
    }

    /// The server for a key.
    pub open spec fn lookup(&self, key: Option<Seq<char>>) -> Option<T> {
        spec_find(self.data@, key)
    }

    /// The server a client asking for `name` is routed to: the one with that name, else
    /// the one without a name.
    pub open spec fn spec_route(&self, name: Seq<char>) -> Option<T> {
        match self.lookup(Some(name)) {
            Some(v) => Some(v),
            None => self.lookup(None),
        }
    }

    /// A router without servers.
    pub fn new() -> (res: Self)
        ensures
            res.wf(),
            forall|key: Option<Seq<char>>| res.lookup(key) is None,
    {
        Router { data: Vec::new() }
    }

    /// Set the server for a key, replacing the one it had.
    pub fn insert(&mut self, key: Option<String>, value: T)
        requires
            old(self).wf(),
        ensures
            final(self).wf(),
            final(self).lookup(key_view(key)) == Some(value),
            forall|k: Option<Seq<char>>| k != key_view(key) ==> final(self).lookup(k) == old(self).lookup(k),
    {
        let ghost kv = key_view(key);
        let mut i: usize = 0;
        while i < self.data.len()
            invariant
                i <= self.data@.len(),
                self.data@ == old(self).data@,
                old(self).wf(),
                kv == key_view(key),
                forall|j: int| 0 <= j < i ==> key_view(#[trigger] self.data@[j].0) != kv,
            decreases self.data.len() - i,
        {
            if same_key(&self.data[i].0, &key) {
                let ghost before = self.data@;
                self.data.set(i, (key, value));
                proof {
                    lemma_find_after_set(before, i as int, (key, value));
                    assert forall|a: int, b: int|
                        0 <= a < self.data@.len() && 0 <= b < self.data@.len() && a != b implies key_view(
                        #[trigger] self.data@[a].0,
                    ) != key_view(#[trigger] self.data@[b].0) by {
                        assert(key_view(self.data@[a].0) == key_view(before[a].0));
                        assert(key_view(self.data@[b].0) == key_view(before[b].0));
                    }
                }
                return;
            }
            i = i + 1;
        }
        let ghost before = self.data@;
        self.data.push((key, value));
        proof {
            lemma_find_after_push(before, (key, value));
            assert forall|a: int, b: int|
                0 <= a < self.data@.len() && 0 <= b < self.data@.len() && a != b implies key_view(
                #[trigger] self.data@[a].0,
            ) != key_view(#[trigger] self.data@[b].0) by {
                if a < before.len() && b < before.len() {
                    assert(self.data@[a] == before[a] && self.data@[b] == before[b]);
                } else if a < before.len() {
                    assert(self.data@[a] == before[a]);
                } else {
                    assert(self.data@[b] == before[b]);
                }
            }
        }
    }

    /// Get the server a client asking for `server_name` is routed to.
    pub fn get(&self, server_name: String) -> (res: Option<&T>)
        ensures
            res is Some <==> self.spec_route(server_name@) is Some,
            res matches Some(v) ==> *v == self.spec_route(server_name@)->Some_0,
    {
        match self.find(&Some(server_name)) {
            Some(v) => Some(v),
            None => self.find(&None),
        }
    }

    /// The server for a key.
    fn find(&self, key: &Option<String>) -> (res: Option<&T>)
        ensures
            res is Some <==> self.lookup(key_view(*key)) is Some,
            res matches Some(v) ==> *v == self.lookup(key_view(*key))->Some_0,
    {
        let mut i: usize = 0;
        proof {
            assert(self.data@.subrange(0, self.data@.len() as int) =~= self.data@);
        }
        while i < self.data.len()
            invariant
                i <= self.data@.len(),
                self.lookup(key_view(*key)) == spec_find(
                    self.data@.subrange(i as int, self.data@.len() as int),
                    key_view(*key),
                ),
            decreases self.data.len() - i,
        {
            let ghost rest = self.data@.subrange(i as int, self.data@.len() as int);
            proof {
                assert(rest.drop_first() =~= self.data@.subrange(i + 1, self.data@.len() as int));
                assert(rest[0] == self.data@[i as int]);
            }
            if same_key(&self.data[i].0, key) {
                return Some(&self.data[i].1);
            }
            i = i + 1;
        }
        None
    }
}

/// Whether two route keys are equal.
fn same_key(a: &Option<String>, b: &Option<String>) -> (res: bool)
    ensures
        res == (key_view(*a) == key_view(*b)),
{
    match (a, b) {
        (Some(x), Some(y)) => *x == *y,
        (None, None) => true,
        _ => false,
    }
}

/// Replacing an entry with one of the same key changes the value for that key only.
proof fn lemma_find_after_set<T>(entries: Seq<(Option<String>, T)>, i: int, entry: (Option<String>, T))
    requires
        0 <= i < entries.len(),
        key_view(entries[i].0) == key_view(entry.0),
        forall|j: int| 0 <= j < i ==> key_view(#[trigger] entries[j].0) != key_view(entry.0),
    ensures
        spec_find(entries.update(i, entry), key_view(entry.0)) == Some(entry.1),
        forall|k: Option<Seq<char>>|
            k != key_view(entry.0) ==> spec_find(entries.update(i, entry), k) == spec_find(entries, k),
    decreases entries.len(),
{
    let updated = entries.update(i, entry);
    if i > 0 {
        assert(key_view(entries[0].0) != key_view(entry.0));
        assert(updated.drop_first() =~= entries.drop_first().update(i - 1, entry));
        assert forall|j: int| 0 <= j < i - 1 implies key_view(
            #[trigger] entries.drop_first()[j].0,
        ) != key_view(entry.0) by {
            assert(entries.drop_first()[j] == entries[j + 1]);
        }
        lemma_find_after_set(entries.drop_first(), i - 1, entry);
        assert forall|k: Option<Seq<char>>| k != key_view(entry.0) implies spec_find(updated, k)
            == spec_find(entries, k) by {
            assert(updated[0] == entries[0]);
            if key_view(entries[0].0) != k {
                assert(spec_find(updated, k) == spec_find(updated.drop_first(), k));
                assert(spec_find(updated.drop_first(), k) == spec_find(
                    entries.drop_first().update(i - 1, entry),
                    k,
                ));
                assert(spec_find(entries.drop_first().update(i - 1, entry), k) == spec_find(entries.drop_first(), k));
                assert(spec_find(entries, k) == spec_find(entries.drop_first(), k));
            } else {
                assert(spec_find(updated, k) == Some(updated[0].1));
                assert(spec_find(entries, k) == Some(entries[0].1));
            }
        }
    } else {
        assert(updated.drop_first() =~= entries.drop_first());
        assert forall|k: Option<Seq<char>>| k != key_view(entry.0) implies spec_find(updated, k)
            == spec_find(entries, k) by {
            assert(updated[0] == entry);
        }
    }
}

/// Appending an entry with a new key sets the value for that key only.
proof fn lemma_find_after_push<T>(entries: Seq<(Option<String>, T)>, entry: (Option<String>, T))
    requires
        forall|j: int| 0 <= j < entries.len() ==> key_view(#[trigger] entries[j].0) != key_view(entry.0),
    ensures
        spec_find(entries.push(entry), key_view(entry.0)) == Some(entry.1),
        forall|k: Option<Seq<char>>|
            k != key_view(entry.0) ==> spec_find(entries.push(entry), k) == spec_find(entries, k),
    decreases entries.len(),
{
    let pushed = entries.push(entry);
    if entries.len() > 0 {
        assert(pushed.drop_first() =~= entries.drop_first().push(entry));
        assert forall|j: int| 0 <= j < entries.drop_first().len() implies key_view(
            #[trigger] entries.drop_first()[j].0,
        ) != key_view(entry.0) by {
            assert(entries.drop_first()[j] == entries[j + 1]);
        }
        lemma_find_after_push(entries.drop_first(), entry);
        assert(entries[0] == pushed[0]);
        assert forall|k: Option<Seq<char>>| k != key_view(entry.0) implies spec_find(pushed, k)
            == spec_find(entries, k) by {
            assert(pushed[0] == entries[0]);
            if key_view(entries[0].0) != k {
                assert(spec_find(pushed, k) == spec_find(pushed.drop_first(), k));
                assert(spec_find(pushed.drop_first(), k) == spec_find(entries.drop_first().push(entry), k));
                assert(spec_find(entries.drop_first().push(entry), k) == spec_find(entries.drop_first(), k));
                assert(spec_find(entries, k) == spec_find(entries.drop_first(), k));
            } else {
                assert(spec_find(pushed, k) == Some(pushed[0].1));
                assert(spec_find(entries, k) == Some(entries[0].1));
            }
        }
    } else {
        assert(pushed.drop_first() =~= entries);
        assert forall|k: Option<Seq<char>>| k != key_view(entry.0) implies spec_find(pushed, k)
            == spec_find(entries, k) by {
            assert(pushed[0] == entry);
        }
    }
}

/// A router gives back the server last set for a name.
pub proof fn lemma_route_after_insert<T>(router: Router<T>, name: String, value: T)
    requires
        router.lookup(Some(name@)) == Some(value),
    ensures
        router.spec_route(name@) == Some(value),
{
}

} // verus!
