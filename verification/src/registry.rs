//! The client registry: a bidirectional mapping between client windows and
//! the frames that wrap them. A client is "framed" exactly when it has an
//! entry. Both directions are injective: at most one entry per client and at
//! most one entry per frame.

use vstd::prelude::*;

use crate::Window;

verus! {

/// True when some client is mapped to `frame` in `m`.
pub open spec fn map_has_frame(m: Map<Window, Window>, frame: Window) -> bool {
    exists|c: Window| m.contains_key(c) && #[trigger] m[c] == frame
}

/// The abstract mapping described by a sequence of (client, frame) pairs;
/// later pairs win, though a well-formed registry never repeats a client.
pub open spec fn entries_to_map(s: Seq<(Window, Window)>) -> Map<Window, Window>
    decreases s.len(),
{
    if s.len() == 0 {
        Map::empty()
    } else {
        entries_to_map(s.drop_last()).insert(s.last().0, s.last().1)
    }
}

/// No client identifier occurs twice among the pairs.
pub open spec fn clients_unique(s: Seq<(Window, Window)>) -> bool {
    forall|i: int, j: int| 0 <= i < j < s.len() ==> (#[trigger] s[i]).0 != (#[trigger] s[j]).0
}

/// No frame identifier occurs twice among the pairs.
pub open spec fn frames_unique(s: Seq<(Window, Window)>) -> bool {
    forall|i: int, j: int| 0 <= i < j < s.len() ==> (#[trigger] s[i]).1 != (#[trigger] s[j]).1
}

pub struct Registry {
    entries: Vec<(Window, Window)>,
}

impl View for Registry {
    type V = Map<Window, Window>;

    closed spec fn view(&self) -> Map<Window, Window> {
        entries_to_map(self.entries@)
    }
}

proof fn lemma_entries_contains(s: Seq<(Window, Window)>, c: Window)
    ensures
        entries_to_map(s).contains_key(c) <==> exists|i: int|
            0 <= i < s.len() && (#[trigger] s[i]).0 == c,
    decreases s.len(),
{
    if s.len() == 0 {
    } else {
        let t = s.drop_last();
        lemma_entries_contains(t, c);
        if entries_to_map(s).contains_key(c) {
            if s.last().0 == c {
                assert(s[s.len() - 1].0 == c);
            } else {
                let i = choose|i: int| 0 <= i < t.len() && (#[trigger] t[i]).0 == c;
                assert(s[i].0 == c);
            }
        }
        if exists|i: int| 0 <= i < s.len() && (#[trigger] s[i]).0 == c {
            let i = choose|i: int| 0 <= i < s.len() && (#[trigger] s[i]).0 == c;
            if i < s.len() - 1 {
                assert(t[i].0 == c);
            }
        }
    }
}

proof fn lemma_entries_get(s: Seq<(Window, Window)>, i: int)
    requires
        clients_unique(s),
        0 <= i < s.len(),
    ensures
        entries_to_map(s).contains_key(s[i].0),
        entries_to_map(s)[s[i].0] == s[i].1,
    decreases s.len(),
{
    let t = s.drop_last();
    if i == s.len() - 1 {
    } else {
        assert(s[i].0 != s.last().0);
        lemma_entries_get(t, i);
        assert(t[i] == s[i]);
    }
}

proof fn lemma_entries_has_frame(s: Seq<(Window, Window)>, f: Window)
    requires
        clients_unique(s),
    ensures
        map_has_frame(entries_to_map(s), f) <==> exists|i: int|
            0 <= i < s.len() && (#[trigger] s[i]).1 == f,
{
    let m = entries_to_map(s);
    if map_has_frame(m, f) {
        let c = choose|c: Window| m.contains_key(c) && #[trigger] m[c] == f;
        lemma_entries_contains(s, c);
        let i = choose|i: int| 0 <= i < s.len() && (#[trigger] s[i]).0 == c;
        lemma_entries_get(s, i);
        assert(s[i].1 == f);
    }
    if exists|i: int| 0 <= i < s.len() && (#[trigger] s[i]).1 == f {
        let i = choose|i: int| 0 <= i < s.len() && (#[trigger] s[i]).1 == f;
        lemma_entries_get(s, i);
        assert(m.contains_key(s[i].0) && m[s[i].0] == f);
    }
}

proof fn lemma_entries_push(s: Seq<(Window, Window)>, c: Window, f: Window)
    ensures
        entries_to_map(s.push((c, f))) == entries_to_map(s).insert(c, f),
{
    assert(s.push((c, f)).drop_last() =~= s);
    assert(s.push((c, f)).last() == (c, f));
}

proof fn lemma_unique_remove(s: Seq<(Window, Window)>, i: int)
    requires
        clients_unique(s),
        frames_unique(s),
        0 <= i < s.len(),
    ensures
        clients_unique(s.remove(i)),
        frames_unique(s.remove(i)),
{
    let r = s.remove(i);
    assert forall|a: int, b: int| 0 <= a < b < r.len() implies (#[trigger] r[a]).0 != (
    #[trigger] r[b]).0 && r[a].1 != r[b].1 by {
        let a0 = if a < i { a } else { a + 1 };
        let b0 = if b < i { b } else { b + 1 };
        assert(r[a] == s[a0]);
        assert(r[b] == s[b0]);
    }
}

proof fn lemma_entries_remove_at(s: Seq<(Window, Window)>, i: int)
    requires
        clients_unique(s),
        0 <= i < s.len(),
    ensures
        entries_to_map(s.remove(i)) == entries_to_map(s).remove(s[i].0),
    decreases s.len(),
{
    let c = s[i].0;
    let t = s.drop_last();
    if i == s.len() - 1 {
        assert(s.remove(i) =~= t);
        lemma_entries_contains(t, c);
        assert(!entries_to_map(t).contains_key(c)) by {
            if exists|j: int| 0 <= j < t.len() && (#[trigger] t[j]).0 == c {
                let j = choose|j: int| 0 <= j < t.len() && (#[trigger] t[j]).0 == c;
                assert(s[j].0 == s[i].0);
            }
        }
        assert(entries_to_map(t).insert(c, s[i].1).remove(c) =~= entries_to_map(t));
    } else {
        assert(s[i].0 != s.last().0);
        assert(s.remove(i).drop_last() =~= t.remove(i));
        assert(s.remove(i).last() == s.last());
        lemma_entries_remove_at(t, i);
        assert(entries_to_map(t).remove(c).insert(s.last().0, s.last().1) =~= entries_to_map(
            t,
        ).insert(s.last().0, s.last().1).remove(c));
    }
}

proof fn lemma_entries_dom_len(s: Seq<(Window, Window)>)
    requires
        clients_unique(s),
    ensures
        entries_to_map(s).dom().finite(),
        entries_to_map(s).dom().len() == s.len(),
    decreases s.len(),
{
    broadcast use vstd::set::axiom_set_insert_len, vstd::set::axiom_set_insert_finite;

    if s.len() == 0 {
        assert(entries_to_map(s).dom() =~= Set::<Window>::empty());
    } else {
        let t = s.drop_last();
        lemma_entries_dom_len(t);
        lemma_entries_contains(t, s.last().0);
        assert(!entries_to_map(t).contains_key(s.last().0)) by {
            if exists|j: int| 0 <= j < t.len() && (#[trigger] t[j]).0 == s.last().0 {
                let j = choose|j: int| 0 <= j < t.len() && (#[trigger] t[j]).0 == s.last().0;
                assert(s[j].0 == s[s.len() - 1].0);
            }
        }
        assert(entries_to_map(s).dom() =~= entries_to_map(t).dom().insert(s.last().0));
    }
}

impl Registry {
    /// Both identifier columns are injective.
    pub closed spec fn wf(self) -> bool {
        clients_unique(self.entries@) && frames_unique(self.entries@)
    }

    /// A well-formed registry maps distinct clients to distinct frames.
    pub proof fn lemma_wf_frames_injective(self)
        requires
            self.wf(),
        ensures
            forall|c1: Window, c2: Window|
                self@.contains_key(c1) && self@.contains_key(c2) && c1 != c2 ==> #[trigger] self@[c1]
                    != #[trigger] self@[c2],
    {
        let s = self.entries@;
        assert forall|c1: Window, c2: Window|
            self@.contains_key(c1) && self@.contains_key(c2) && c1 != c2 implies #[trigger] self@[c1]
            != #[trigger] self@[c2] by {
            lemma_entries_contains(s, c1);
            lemma_entries_contains(s, c2);
            let i1 = choose|i: int| 0 <= i < s.len() && (#[trigger] s[i]).0 == c1;
            let i2 = choose|i: int| 0 <= i < s.len() && (#[trigger] s[i]).0 == c2;
            lemma_entries_get(s, i1);
            lemma_entries_get(s, i2);
        }
    }

    /// An empty registry: no client is framed.
    pub fn new() -> (r: Registry)
        ensures
            r.wf(),
            r@ == Map::<Window, Window>::empty(),
    {
        let r = Registry { entries: Vec::new() };
        proof {
            assert(r.entries@.len() == 0);
        }
        r
    }

    /// Whether `client` is framed.
    pub fn contains(&self, client: Window) -> (found: bool)
        ensures
            found == self@.contains_key(client),
    {
        let n = self.entries.len();
        let mut idx: usize = 0;
        while idx < n
            invariant
                n == self.entries.len(),
                0 <= idx <= n,
                forall|j: int| 0 <= j < idx ==> (#[trigger] self.entries@[j]).0 != client,
            decreases n - idx,
        {
            if self.entries[idx].0 == client {
                proof {
                    assert((self.entries@[idx as int]).0 == client);
                    lemma_entries_contains(self.entries@, client);
                }
                return true;
            }
            idx += 1;
        }
        proof {
            lemma_entries_contains(self.entries@, client);
        }
        false
    }

    /// The frame wrapping `client`, or `None` when `client` is not framed.
    pub fn frame_of(&self, client: Window) -> (frame: Option<Window>)
        requires
            self.wf(),
        ensures
            match frame {
                Some(f) => self@.contains_key(client) && self@[client] == f,
                None => !self@.contains_key(client),
            },
    {
        let n = self.entries.len();
        let mut idx: usize = 0;
        while idx < n
            invariant
                n == self.entries.len(),
                0 <= idx <= n,
                self.wf(),
                forall|j: int| 0 <= j < idx ==> (#[trigger] self.entries@[j]).0 != client,
            decreases n - idx,
        {
            if self.entries[idx].0 == client {
                proof {
                    lemma_entries_get(self.entries@, idx as int);
                }
                return Some(self.entries[idx].1);
            }
            idx += 1;
        }
        proof {
            lemma_entries_contains(self.entries@, client);
        }
        None
    }

    /// Whether some client is already wrapped by `frame`.
    pub fn frame_in_use(&self, frame: Window) -> (used: bool)
        requires
            self.wf(),
        ensures
            used == map_has_frame(self@, frame),
    {
        let n = self.entries.len();
        let mut idx: usize = 0;
        while idx < n
            invariant
                n == self.entries.len(),
                0 <= idx <= n,
                self.wf(),
                forall|j: int| 0 <= j < idx ==> (#[trigger] self.entries@[j]).1 != frame,
            decreases n - idx,
        {
            if self.entries[idx].1 == frame {
                proof {
                    assert((self.entries@[idx as int]).1 == frame);
                    lemma_entries_has_frame(self.entries@, frame);
                }
                return true;
            }
            idx += 1;
        }
        proof {
            lemma_entries_has_frame(self.entries@, frame);
        }
        false
    }

    /// The number of framed clients.
    pub fn len(&self) -> (n: usize)
        requires
            self.wf(),
        ensures
            n == self@.dom().len(),
    {
        proof {
            lemma_entries_dom_len(self.entries@);
        }
        self.entries.len()
    }

    /// Record that `client` is wrapped by `frame`. The client must not be
    /// framed yet and the frame must be fresh.
    pub fn insert(&mut self, client: Window, frame: Window)
        requires
            old(self).wf(),
            !old(self)@.contains_key(client),
            !map_has_frame(old(self)@, frame),
        ensures
            final(self).wf(),
            final(self)@ == old(self)@.insert(client, frame),
    {
        proof {
            let s = self.entries@;
            lemma_entries_contains(s, client);
            lemma_entries_has_frame(s, frame);
            lemma_entries_push(s, client, frame);
            assert forall|i: int, j: int|
                0 <= i < j < s.push((client, frame)).len() implies (#[trigger] s.push(
                (client, frame),
            )[i]).0 != (#[trigger] s.push((client, frame))[j]).0 && s.push((client, frame))[i].1
                != s.push((client, frame))[j].1 by {
                if j < s.len() {
                    assert(s.push((client, frame))[i] == s[i]);
                    assert(s.push((client, frame))[j] == s[j]);
                } else {
                    assert(s.push((client, frame))[i] == s[i]);
                    assert(s[i].0 != client && s[i].1 != frame);
                }
            }
        }
        self.entries.push((client, frame));
    }

    /// Forget `client`; a no-op when it is not framed.
    pub fn remove(&mut self, client: Window)
        requires
            old(self).wf(),
        ensures
            final(self).wf(),
            final(self)@ == old(self)@.remove(client),
    {
        let n = self.entries.len();
        let mut idx: usize = 0;
        while idx < n
            invariant
                n == self.entries.len(),
                0 <= idx <= n,
                self.wf(),
                self == old(self),
                forall|j: int| 0 <= j < idx ==> (#[trigger] self.entries@[j]).0 != client,
            decreases n - idx,
        {
            if self.entries[idx].0 == client {
                proof {
                    lemma_entries_remove_at(self.entries@, idx as int);
                    lemma_unique_remove(self.entries@, idx as int);
                }
                self.entries.remove(idx);
                return ;
            }
            idx += 1;
        }
        proof {
            lemma_entries_contains(self.entries@, client);
            assert(self@ =~= self@.remove(client));
        }
    }
}

} // verus!
