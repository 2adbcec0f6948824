use vstd::prelude::*;

use crate::path::same_text;
use crate::template::{Template, TemplateView};

verus! {

/// A keyed entry as the model sees it.
pub type EntryView = (Seq<char>, TemplateView);

/// The mapping that a list of entries denotes: later entries win.
pub open spec fn map_of(s: Seq<EntryView>) -> Map<Seq<char>, TemplateView>
    decreases s.len(),
{
    if s.len() == 0 {
        Map::empty()
    } else {
        map_of(s.drop_last()).insert(s.last().0, s.last().1)
    }
}

pub open spec fn keys_distinct(s: Seq<EntryView>) -> bool {
    forall|i: int, j: int| 0 <= i < s.len() && 0 <= j < s.len() && i != j ==> s[i].0 != s[j].0
}

proof fn lemma_map_of_dom(s: Seq<EntryView>, k: Seq<char>)
    ensures
        map_of(s).contains_key(k) <==> exists|i: int| 0 <= i < s.len() && s[i].0 == k,
    decreases s.len(),
{
    if s.len() > 0 {
        lemma_map_of_dom(s.drop_last(), k);
        if map_of(s.drop_last()).contains_key(k) {
            let i = choose|i: int| 0 <= i < s.drop_last().len() && s.drop_last()[i].0 == k;
            assert(s[i].0 == k);
        }
        if exists|i: int| 0 <= i < s.len() && s[i].0 == k {
            let i = choose|i: int| 0 <= i < s.len() && s[i].0 == k;
            if i < s.len() - 1 {
                assert(s.drop_last()[i].0 == k);
            }
        }
    }
}

proof fn lemma_map_of_value(s: Seq<EntryView>, i: int)
    requires
        keys_distinct(s),
        0 <= i < s.len(),
    ensures
        map_of(s).contains_key(s[i].0),
        map_of(s)[s[i].0] == s[i].1,
    decreases s.len(),
{
    if i < s.len() - 1 {
        assert(s.drop_last()[i] == s[i]);
        lemma_map_of_value(s.drop_last(), i);
    }
}

proof fn lemma_map_of_facts(s: Seq<EntryView>)
    requires
        keys_distinct(s),
    ensures
        forall|k: Seq<char>|
            #[trigger] map_of(s).contains_key(k) <==> exists|i: int| 0 <= i < s.len() && s[i].0 == k,
        forall|i: int| 0 <= i < s.len() ==> #[trigger] map_of(s)[s[i].0] == s[i].1,
{
    assert forall|k: Seq<char>|
        #[trigger] map_of(s).contains_key(k) <==> exists|i: int| 0 <= i < s.len() && s[i].0 == k by {
        lemma_map_of_dom(s, k);
    }
    assert forall|i: int| 0 <= i < s.len() implies #[trigger] map_of(s)[s[i].0] == s[i].1 by {
        lemma_map_of_value(s, i);
    }
}

proof fn lemma_map_of_update(s: Seq<EntryView>, i: int, v: TemplateView)
    requires
        keys_distinct(s),
        0 <= i < s.len(),
    ensures
        keys_distinct(s.update(i, (s[i].0, v))),
        map_of(s.update(i, (s[i].0, v))) == map_of(s).insert(s[i].0, v),
{
    let t = s.update(i, (s[i].0, v));
    lemma_map_of_facts(s);
    lemma_map_of_facts(t);
    assert forall|k: Seq<char>| map_of(t).contains_key(k) <==> map_of(s).insert(s[i].0, v).contains_key(k) by {
        if map_of(s).contains_key(k) {
            let j = choose|j: int| 0 <= j < s.len() && s[j].0 == k;
            assert(t[j].0 == k);
        }
        if map_of(t).contains_key(k) {
            let j = choose|j: int| 0 <= j < t.len() && t[j].0 == k;
            assert(s[j].0 == k);
        }
    }
    assert forall|k: Seq<char>| #[trigger] map_of(t).contains_key(k) implies map_of(t)[k] == map_of(s).insert(s[i].0, v)[k] by {
        let j = choose|j: int| 0 <= j < t.len() && t[j].0 == k;
        assert(map_of(t)[t[j].0] == t[j].1);
        if j != i {
            assert(map_of(s)[s[j].0] == s[j].1);
        }
    }
    assert(map_of(t) =~= map_of(s).insert(s[i].0, v));
}

proof fn lemma_map_of_remove(s: Seq<EntryView>, i: int)
    requires
        keys_distinct(s),
        0 <= i < s.len(),
    ensures
        keys_distinct(s.remove(i)),
        map_of(s.remove(i)) == map_of(s).remove(s[i].0),
{
    let t = s.remove(i);
    assert forall|a: int, b: int| 0 <= a < t.len() && 0 <= b < t.len() && a != b implies t[a].0 != t[b].0 by {
        let a2 = if a < i { a } else { a + 1 };
        let b2 = if b < i { b } else { b + 1 };
        assert(t[a] == s[a2] && t[b] == s[b2]);
    }
    lemma_map_of_facts(s);
    lemma_map_of_facts(t);
    assert forall|k: Seq<char>| map_of(t).contains_key(k) <==> map_of(s).remove(s[i].0).contains_key(k) by {
        if map_of(s).contains_key(k) && k != s[i].0 {
            let j = choose|j: int| 0 <= j < s.len() && s[j].0 == k;
            if j < i {
                assert(t[j].0 == k);
            } else {
                assert(t[j - 1].0 == k);
            }
        }
        if map_of(t).contains_key(k) {
            let j = choose|j: int| 0 <= j < t.len() && t[j].0 == k;
            let j2 = if j < i { j } else { j + 1 };
            assert(s[j2].0 == k);
        }
    }
    assert forall|k: Seq<char>| #[trigger] map_of(t).contains_key(k) implies map_of(t)[k] == map_of(s)[k] by {
        let j = choose|j: int| 0 <= j < t.len() && t[j].0 == k;
        let j2 = if j < i { j } else { j + 1 };
        assert(map_of(t)[t[j].0] == t[j].1);
        assert(s[j2] == t[j]);
        assert(map_of(s)[s[j2].0] == s[j2].1);
    }
    assert(map_of(t) =~= map_of(s).remove(s[i].0));
}

/// Templates by architecture key; each key stands once.
pub struct TemplateSet {
    pub entries: Vec<(String, Template)>,
}

impl TemplateSet {
    pub open spec fn entries_view(&self) -> Seq<EntryView> {
        self.entries@.map_values(|e: (String, Template)| (e.0@, e.1@))
    }

    pub open spec fn wf(&self) -> bool {
        keys_distinct(self.entries_view())
    }
}

impl View for TemplateSet {
    type V = Map<Seq<char>, TemplateView>;

    open spec fn view(&self) -> Map<Seq<char>, TemplateView> {
        map_of(self.entries_view())
    }
}

impl TemplateSet {
    /// The set without templates.
    pub fn new() -> (r: TemplateSet)
        ensures
            r.wf(),
            r@ == Map::<Seq<char>, TemplateView>::empty(),
    {
        let r = TemplateSet { entries: Vec::new() };
        assert(r.entries_view() =~= Seq::<EntryView>::empty());
        r
    }

    /// An equal set that owns its own templates.
    pub fn copy(&self) -> (r: TemplateSet)
        requires
            self.wf(),
        ensures
            r.wf(),
            r@ == self@,
            r.entries_view() == self.entries_view(),
    {
        let mut entries: Vec<(String, Template)> = Vec::new();
        let mut i: usize = 0;
        while i < self.entries.len()
            invariant
                i <= self.entries@.len(),
                entries@.map_values(|e: (String, Template)| (e.0@, e.1@)) =~= self.entries_view().take(i as int),
            decreases self.entries@.len() - i,
        {
            let ghost before = entries@.map_values(|e: (String, Template)| (e.0@, e.1@));
            let e = (self.entries[i].0.clone(), self.entries[i].1.copy());
            entries.push(e);
            assert(entries@.map_values(|e: (String, Template)| (e.0@, e.1@)) =~= before.push(self.entries_view()[i as int]));
            assert(self.entries_view().take(i + 1) =~= self.entries_view().take(i as int).push(self.entries_view()[i as int]));
            i += 1;
        }
        let r = TemplateSet { entries };
        assert(r.entries_view() =~= self.entries_view());
        r
    }

    /// The position of `key`, if it is present.
    pub fn find(&self, key: &str) -> (r: Option<usize>)
        requires
            self.wf(),
        ensures
            r is None <==> !self@.contains_key(key@),
            r matches Some(i) ==> i < self.entries@.len() && self.entries_view()[i as int].0 == key@,
    {
        proof { lemma_map_of_dom(self.entries_view(), key@); }
        let mut i: usize = 0;
        while i < self.entries.len()
            invariant
                self.wf(),
                i <= self.entries@.len(),
                forall|j: int| 0 <= j < i ==> self.entries_view()[j].0 != key@,
            decreases self.entries@.len() - i,
        {
            assert(self.entries_view()[i as int].0 == self.entries@[i as int].0@);
            if same_text(self.entries[i].0.as_str(), key) {
                proof { lemma_map_of_value(self.entries_view(), i as int); }
                return Some(i);
            }
            i += 1;
        }
        None
    }

    /// Whether `key` is present.
    pub fn contains_key(&self, key: &str) -> (r: bool)
        requires
            self.wf(),
        ensures
            r == self@.contains_key(key@),
    {
        self.find(key).is_some()
    }

    /// The template under `key`.
    pub fn get(&self, key: &str) -> (r: Option<&Template>)
        requires
            self.wf(),
        ensures
            r is None <==> !self@.contains_key(key@),
            r matches Some(t) ==> t@ == self@[key@],
    {
        match self.find(key) {
            Some(i) => {
                proof { lemma_map_of_value(self.entries_view(), i as int); }
                Some(&self.entries[i].1)
            },
            None => None,
        }
    }

    /// Puts `t` under `key`, replacing what stood there.
    pub fn insert(&mut self, key: String, t: Template)
        requires
            old(self).wf(),
        ensures
            final(self).wf(),
            final(self)@ == old(self)@.insert(key@, t@),
    {
        let ghost s = self.entries_view();
        match self.find(key.as_str()) {
            Some(i) => {
                proof { lemma_map_of_update(s, i as int, t@); }
                self.entries.set(i, (key, t));
                assert(self.entries_view() =~= s.update(i as int, (s[i as int].0, t@)));
            },
            None => {
                proof { lemma_map_of_facts(s); }
                self.entries.push((key, t));
                assert(self.entries_view() =~= s.push((key@, t@)));
                assert(self.entries_view().drop_last() =~= s);
            },
        }
    }

    /// Takes `key` out; tells whether it was present.
    pub fn remove(&mut self, key: &str) -> (r: bool)
        requires
            old(self).wf(),
        ensures
            final(self).wf(),
            r == old(self)@.contains_key(key@),
            final(self)@ == old(self)@.remove(key@),
    {
        let ghost s = self.entries_view();
        match self.find(key) {
            Some(i) => {
                proof { lemma_map_of_remove(s, i as int); }
                self.entries.remove(i);
                assert(self.entries_view() =~= s.remove(i as int));
                true
            },
            None => {
                assert(self@ =~= old(self)@.remove(key@));
                false
            },
        }
    }

    /// Lays every template of `top` over this set: `top` wins on shared keys.
    pub fn overlay(&mut self, top: &TemplateSet)
        requires
            old(self).wf(),
            top.wf(),
        ensures
            final(self).wf(),
            final(self)@ == old(self)@.union_prefer_right(top@),
    {
        let ghost base = self@;
        let ghost ts = top.entries_view();
        let mut i: usize = 0;
        while i < top.entries.len()
            invariant
                top.wf(),
                ts == top.entries_view(),
                i <= top.entries@.len(),
                self.wf(),
                self@ == base.union_prefer_right(map_of(ts.take(i as int))),
            decreases top.entries@.len() - i,
        {
            let key = top.entries[i].0.clone();
            let t = top.entries[i].1.copy();
            assert(ts.take(i + 1).drop_last() =~= ts.take(i as int));
            assert(ts[i as int] == (key@, t@));
            self.insert(key, t);
            assert(self@ =~= base.union_prefer_right(map_of(ts.take(i + 1))));
            i += 1;
        }
        assert(ts.take(top.entries@.len() as int) =~= ts);
    }
}

} // verus!
