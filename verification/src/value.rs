//! The generic, self-describing data model that every entity is encoded into.

use vstd::prelude::*;
use vstd::utf8::encode_utf8;
use crate::cid::{cid_text, copy_bytes, Cid, CidView};
use crate::order::{bytes_lt, compare, Order};

verus! {

/// A value of the data model. Floating point numbers are not part of it.
#[derive(Debug, PartialEq, Eq)]
pub enum Value {
    /// The absence of a value.
    Null,
    Bool(bool),
    Integer(i128),
    /// A UTF-8 string.
    String(String),
    Bytes(Vec<u8>),
    List(Vec<Value>),
    /// A map keyed by strings.
    StringMap(ValueMap),
    /// A typed link to another value, by its identifier.
    Link(Cid),
}

/// A map from string keys to values, held in ascending order of the keys'
/// UTF-8 bytes, each key once.
#[derive(Debug, PartialEq, Eq)]
pub struct ValueMap {
    pub(crate) entries: Vec<(String, Value)>,
}

/// What a value of the data model is, mathematically.
pub enum ValueView {
    Null,
    Bool(bool),
    Integer(int),
    String(Seq<char>),
    Bytes(Seq<u8>),
    List(Seq<ValueView>),
    StringMap(Map<Seq<char>, ValueView>),
    Link(CidView),
}

/// The order in which a map holds its keys.
pub open spec fn key_lt(a: Seq<char>, b: Seq<char>) -> bool {
    bytes_lt(encode_utf8(a), encode_utf8(b))
}

/// The key under which the readable form of a link holds the identifier's
/// text.
pub open spec fn link_key() -> Seq<char> {
    "/"@
}

/// The readable form of a link: a map of one key, which holds the
/// identifier's text.
pub open spec fn readable_link(cid: CidView) -> ValueView {
    ValueView::StringMap(
        Map::<Seq<char>, ValueView>::empty().insert(link_key(), ValueView::String(cid_text(cid))),
    )
}

/// The human-readable form of a value: the value with every link in it in
/// its readable form.
pub open spec fn readable(v: ValueView) -> ValueView
    decreases v,
{
    match v {
        ValueView::List(items) => ValueView::List(
            Seq::new(
                items.len(),
                |i: int|
                    if 0 <= i < items.len() {
                        readable(items[i])
                    } else {
                        ValueView::Null
                    },
            ),
        ),
        ValueView::StringMap(m) => ValueView::StringMap(
            Map::new(
                |k: Seq<char>| m.contains_key(k),
                |k: Seq<char>|
                    if m.contains_key(k) {
                        readable(m[k])
                    } else {
                        ValueView::Null
                    },
            ),
        ),
        ValueView::Link(cid) => readable_link(cid),
        _ => v,
    }
}

impl Value {
    /// What the value is.
    pub open spec fn view(&self) -> ValueView
        decreases self,
    {
        match self {
            Value::Null => ValueView::Null,
            Value::Bool(b) => ValueView::Bool(*b),
            Value::Integer(i) => ValueView::Integer(*i as int),
            Value::String(s) => ValueView::String(s@),
            Value::Bytes(b) => ValueView::Bytes(b@),
            Value::List(items) => ValueView::List(
                Seq::new(
                    items@.len(),
                    |i: int|
                        if 0 <= i < items@.len() {
                            items@[i].view()
                        } else {
                            ValueView::Null
                        },
                ),
            ),
            Value::StringMap(m) => ValueView::StringMap(m.view()),
            Value::Link(cid) => ValueView::Link(cid@),
        }
    }
}

/// Some entry of `es` has the key `key`.
spec fn seq_holds(es: Seq<(String, Value)>, key: Seq<char>) -> bool {
    exists|i: int| 0 <= i < es.len() && (#[trigger] es[i]).0@ == key
}

/// A position at which `es` has the key `key`, where it has one.
spec fn seq_position(es: Seq<(String, Value)>, key: Seq<char>) -> int {
    choose|i: int| 0 <= i < es.len() && (#[trigger] es[i]).0@ == key
}

/// The keys of `es` ascend strictly.
spec fn seq_sorted(es: Seq<(String, Value)>) -> bool {
    forall|i: int, j: int|
        #![trigger es[i], es[j]]
        0 <= i < j < es.len() ==> key_lt(es[i].0@, es[j].0@)
}

/// The map that the entries `es` stand for.
spec fn seq_view(es: Seq<(String, Value)>) -> Map<Seq<char>, ValueView> {
    Map::new(
        |key: Seq<char>| seq_holds(es, key),
        |key: Seq<char>| es[seq_position(es, key)].1.view(),
    )
}

proof fn lemma_key_lt_distinct(a: Seq<char>, b: Seq<char>)
    requires
        key_lt(a, b),
    ensures
        a != b,
{
    crate::order::lemma_lt_irreflexive(encode_utf8(a));
}

proof fn lemma_same_bytes_same_key(a: Seq<char>, b: Seq<char>)
    requires
        encode_utf8(a) == encode_utf8(b),
    ensures
        a == b,
{
    vstd::utf8::encode_utf8_decode_utf8(a);
    vstd::utf8::encode_utf8_decode_utf8(b);
}

/// In sorted entries a key is held at one position only.
proof fn lemma_position(es: Seq<(String, Value)>, i: int)
    requires
        seq_sorted(es),
        0 <= i < es.len(),
    ensures
        seq_holds(es, es[i].0@),
        seq_position(es, es[i].0@) == i,
{
    let key = es[i].0@;
    let p = seq_position(es, key);
    assert(0 <= p < es.len() && es[p].0@ == key);
    if p < i {
        lemma_key_lt_distinct(es[p].0@, es[i].0@);
    } else if i < p {
        lemma_key_lt_distinct(es[i].0@, es[p].0@);
    }
}

/// Putting a new key at its place keeps the entries sorted and adds the key
/// to the map they stand for.
proof fn lemma_insert_at(es: Seq<(String, Value)>, p: int, entry: (String, Value))
    requires
        seq_sorted(es),
        0 <= p <= es.len(),
        forall|i: int| 0 <= i < p ==> key_lt((#[trigger] es[i]).0@, entry.0@),
        forall|i: int| p <= i < es.len() ==> key_lt(entry.0@, (#[trigger] es[i]).0@),
    ensures
        seq_sorted(es.insert(p, entry)),
        seq_view(es.insert(p, entry)) == seq_view(es).insert(entry.0@, entry.1.view()),
{
    let after = es.insert(p, entry);
    assert forall|i: int, j: int| 0 <= i < j < after.len() implies key_lt(
        after[i].0@,
        after[j].0@,
    ) by {
        let oi = if i < p { i } else { i - 1 };
        let oj = if j < p { j } else { j - 1 };
        if i == p {
            assert(after[j] == es[oj]);
        } else if j == p {
            assert(after[i] == es[oi]);
        } else {
            assert(after[i] == es[oi]);
            assert(after[j] == es[oj]);
        }
    }
    assert(seq_sorted(after));
    let want = seq_view(es).insert(entry.0@, entry.1.view());
    assert forall|key: Seq<char>| seq_view(after).dom().contains(key) <==> want.dom().contains(
        key,
    ) by {
        if seq_holds(after, key) {
            let a = choose|a: int| 0 <= a < after.len() && (#[trigger] after[a]).0@ == key;
            if a != p {
                let o = if a < p { a } else { a - 1 };
                assert(after[a] == es[o]);
                assert(seq_holds(es, key));
            }
        }
        if seq_holds(es, key) {
            let o = choose|o: int| 0 <= o < es.len() && (#[trigger] es[o]).0@ == key;
            let a = if o < p { o } else { o + 1 };
            assert(after[a] == es[o]);
            assert(seq_holds(after, key));
        }
        if key == entry.0@ {
            assert(after[p] == entry);
            assert(seq_holds(after, key));
        }
    }
    assert forall|key: Seq<char>| seq_view(after).dom().contains(key) implies seq_view(after)[key]
        == want[key] by {
        let a = seq_position(after, key);
        assert(0 <= a < after.len() && after[a].0@ == key);
        lemma_position(after, a);
        if a == p {
            assert(after[p] == entry);
        } else {
            let o = if a < p { a } else { a - 1 };
            assert(after[a] == es[o]);
            lemma_position(es, o);
            if key == entry.0@ {
                if o < p {
                    lemma_key_lt_distinct(es[o].0@, entry.0@);
                } else {
                    lemma_key_lt_distinct(entry.0@, es[o].0@);
                }
            }
        }
    }
    assert(seq_view(after) =~= want);
}

/// Putting a value under a key that is held keeps the entries sorted and
/// changes the value that the map they stand for gives to the key.
proof fn lemma_replace_at(es: Seq<(String, Value)>, p: int, entry: (String, Value))
    requires
        seq_sorted(es),
        0 <= p < es.len(),
        es[p].0@ == entry.0@,
    ensures
        seq_sorted(es.update(p, entry)),
        seq_view(es.update(p, entry)) == seq_view(es).insert(entry.0@, entry.1.view()),
{
    let after = es.update(p, entry);
    assert forall|i: int, j: int| 0 <= i < j < after.len() implies key_lt(
        after[i].0@,
        after[j].0@,
    ) by {
        assert(after[i].0@ == es[i].0@);
        assert(after[j].0@ == es[j].0@);
    }
    assert(seq_sorted(after));
    let want = seq_view(es).insert(entry.0@, entry.1.view());
    assert forall|key: Seq<char>| seq_view(after).dom().contains(key) <==> want.dom().contains(
        key,
    ) by {
        if seq_holds(after, key) {
            let a = choose|a: int| 0 <= a < after.len() && (#[trigger] after[a]).0@ == key;
            assert(es[a].0@ == after[a].0@);
            assert(seq_holds(es, key));
        }
        if seq_holds(es, key) {
            let o = choose|o: int| 0 <= o < es.len() && (#[trigger] es[o]).0@ == key;
            assert(after[o].0@ == es[o].0@);
            assert(seq_holds(after, key));
        }
        if key == entry.0@ {
            assert(after[p] == entry);
            assert(seq_holds(after, key));
            assert(seq_holds(es, es[p].0@));
        }
    }
    assert forall|key: Seq<char>| seq_view(after).dom().contains(key) implies seq_view(after)[key]
        == want[key] by {
        let a = seq_position(after, key);
        assert(0 <= a < after.len() && after[a].0@ == key);
        lemma_position(after, a);
        if a != p {
            assert(after[a] == es[a]);
            lemma_position(es, a);
            lemma_position(es, p);
        }
    }
    assert(seq_view(after) =~= want);
}

/// A key that no entry has is not in the map the entries stand for; a key
/// that an entry has is, with that entry's value.
proof fn lemma_lookup(es: Seq<(String, Value)>, key: Seq<char>)
    requires
        seq_sorted(es),
    ensures
        (forall|i: int| 0 <= i < es.len() ==> (#[trigger] es[i]).0@ != key) ==> !seq_view(
            es,
        ).contains_key(key),
        forall|i: int|
            0 <= i < es.len() && (#[trigger] es[i]).0@ == key ==> seq_view(es).contains_key(key)
                && seq_view(es)[key] == es[i].1.view(),
{
    assert forall|i: int| 0 <= i < es.len() && (#[trigger] es[i]).0@ == key implies seq_view(
        es,
    ).contains_key(key) && seq_view(es)[key] == es[i].1.view() by {
        lemma_position(es, i);
    }
}

/// Entries with the same keys and values, position by position, are sorted
/// alike and stand for the same map.
proof fn lemma_same_views(a: Seq<(String, Value)>, b: Seq<(String, Value)>)
    requires
        seq_sorted(a),
        a.len() == b.len(),
        forall|i: int|
            0 <= i < a.len() ==> (#[trigger] a[i]).0@ == b[i].0@ && a[i].1.view() == b[i].1.view(),
    ensures
        seq_sorted(b),
        seq_view(a) == seq_view(b),
{
    assert forall|i: int, j: int| 0 <= i < j < b.len() implies key_lt(b[i].0@, b[j].0@) by {
        assert(a[i].0@ == b[i].0@);
        assert(a[j].0@ == b[j].0@);
    }
    assert(seq_sorted(b));
    assert forall|key: Seq<char>| seq_holds(a, key) <==> seq_holds(b, key) by {
        if seq_holds(a, key) {
            let i = choose|i: int| 0 <= i < a.len() && (#[trigger] a[i]).0@ == key;
            assert(b[i].0@ == key);
        }
        if seq_holds(b, key) {
            let i = choose|i: int| 0 <= i < b.len() && (#[trigger] b[i]).0@ == key;
            assert(a[i].0@ == key);
        }
    }
    assert forall|key: Seq<char>| seq_holds(a, key) implies seq_view(a)[key] == seq_view(b)[key] by {
        let i = seq_position(a, key);
        assert(0 <= i < a.len() && a[i].0@ == key);
        assert(b[i].0@ == key);
        lemma_position(a, i);
        lemma_position(b, i);
    }
    assert(seq_view(a) =~= seq_view(b));
}

/// Entries with the keys of `a`, each with the readable form of the value
/// that `a` has there, are sorted as `a` is and stand for the readable form
/// of the map that `a` stands for.
proof fn lemma_readable_views(a: Seq<(String, Value)>, b: Seq<(String, Value)>)
    requires
        seq_sorted(a),
        a.len() == b.len(),
        forall|i: int|
            0 <= i < a.len() ==> (#[trigger] a[i]).0@ == b[i].0@ && b[i].1.view() == readable(
                a[i].1.view(),
            ),
    ensures
        seq_sorted(b),
        ValueView::StringMap(seq_view(b)) == readable(ValueView::StringMap(seq_view(a))),
{
    assert forall|i: int, j: int| 0 <= i < j < b.len() implies key_lt(b[i].0@, b[j].0@) by {
        assert(a[i].0@ == b[i].0@);
        assert(a[j].0@ == b[j].0@);
    }
    assert(seq_sorted(b));
    assert forall|key: Seq<char>| seq_holds(a, key) <==> seq_holds(b, key) by {
        if seq_holds(a, key) {
            let i = choose|i: int| 0 <= i < a.len() && (#[trigger] a[i]).0@ == key;
            assert(b[i].0@ == key);
        }
        if seq_holds(b, key) {
            let i = choose|i: int| 0 <= i < b.len() && (#[trigger] b[i]).0@ == key;
            assert(a[i].0@ == key);
        }
    }
    let want = readable(ValueView::StringMap(seq_view(a)))->StringMap_0;
    assert forall|key: Seq<char>| seq_holds(a, key) implies seq_view(b)[key] == want[key] by {
        let i = seq_position(a, key);
        assert(0 <= i < a.len() && a[i].0@ == key);
        assert(b[i].0@ == key);
        lemma_position(a, i);
        lemma_position(b, i);
    }
    assert(seq_view(b) =~= want);
}

impl ValueMap {
    #[verifier::type_invariant]
    closed spec fn sorted(&self) -> bool {
        seq_sorted(self.entries@)
    }

    /// The map that the entries stand for.
    pub closed spec fn view(&self) -> Map<Seq<char>, ValueView>
        decreases self,
    {
        Map::new(
            |key: Seq<char>| seq_holds(self.entries@, key),
            |key: Seq<char>|
                if seq_holds(self.entries@, key) {
                    self.entries@[seq_position(self.entries@, key)].1.view()
                } else {
                    ValueView::Null
                },
        )
    }

    proof fn lemma_view(&self)
        ensures
            self.view() == seq_view(self.entries@),
    {
        assert(self.view() =~= seq_view(self.entries@));
    }

    /// A map without entries.
    pub fn new() -> (m: ValueMap)
        ensures
            m@ == Map::<Seq<char>, ValueView>::empty(),
    {
        let m = ValueMap { entries: Vec::new() };
        assert(m.view() =~= Map::<Seq<char>, ValueView>::empty());
        m
    }

    /// The value held under `key`, if any.
    pub fn get(&self, key: &str) -> (value: Option<&Value>)
        ensures
            match value {
                Some(v) => self@.contains_key(key@) && v@ == self@[key@],
                None => !self@.contains_key(key@),
            },
    {
        proof {
            use_type_invariant(self);
            self.lemma_view();
            lemma_lookup(self.entries@, key@);
        }
        let mut i: usize = 0;
        while i < self.entries.len()
            invariant
                i <= self.entries.len(),
                seq_sorted(self.entries@),
                self@ == seq_view(self.entries@),
                forall|j: int| 0 <= j < i ==> (#[trigger] self.entries@[j]).0@ != key@,
            decreases self.entries.len() - i,
        {
            let held = self.entries[i].0.as_str();
            let order = compare(held.as_bytes(), key.as_bytes());
            if order == Order::Equal {
                proof {
                    lemma_same_bytes_same_key(held@, key@);
                    lemma_lookup(self.entries@, key@);
                }
                return Some(&self.entries[i].1);
            }
            proof {
                if held@ == key@ {
                    assert(encode_utf8(held@) == encode_utf8(key@));
                }
            }
            i += 1;
        }
        None
    }

    /// Puts `value` under `key`, in place of what was held under it.
    pub fn insert(&mut self, key: String, value: Value)
        ensures
            final(self)@ == old(self)@.insert(key@, value@),
    {
        proof {
            use_type_invariant(&*self);
            self.lemma_view();
        }
        let mut entries: Vec<(String, Value)> = Vec::new();
        std::mem::swap(&mut entries, &mut self.entries);
        let ghost before = entries@;
        let mut i: usize = 0;
        let mut found = false;
        while i < entries.len()
            invariant_except_break
                !found,
            invariant
                entries@ == before,
                seq_sorted(before),
                i <= entries.len(),
                forall|j: int| 0 <= j < i ==> key_lt((#[trigger] entries@[j]).0@, key@),
            ensures
                i <= entries.len(),
                entries@ == before,
                forall|j: int| 0 <= j < i ==> key_lt((#[trigger] entries@[j]).0@, key@),
                found ==> i < entries.len() && entries@[i as int].0@ == key@,
                !found ==> forall|j: int|
                    i <= j < entries.len() ==> key_lt(key@, (#[trigger] entries@[j]).0@),
            decreases entries.len() - i,
        {
            let held = entries[i].0.as_str();
            let order = compare(held.as_bytes(), key.as_str().as_bytes());
            if order == Order::Equal {
                proof {
                    lemma_same_bytes_same_key(held@, key@);
                }
                found = true;
                break;
            }
            if order == Order::Greater {
                proof {
                    assert forall|j: int| i <= j < entries.len() implies key_lt(
                        key@,
                        (#[trigger] entries@[j]).0@,
                    ) by {
                        if i < j {
                            assert(key_lt(before[i as int].0@, before[j].0@));
                            crate::order::lemma_lt_transitive(
                                encode_utf8(key@),
                                encode_utf8(entries@[i as int].0@),
                                encode_utf8(entries@[j].0@),
                            );
                        }
                    }
                }
                break;
            }
            i += 1;
        }
        let ghost entry = (key, value);
        if found {
            proof {
                lemma_replace_at(before, i as int, entry);
            }
            entries.set(i, (key, value));
        } else {
            proof {
                lemma_insert_at(before, i as int, entry);
            }
            entries.insert(i, (key, value));
        }
        self.entries = entries;
        proof {
            self.lemma_view();
        }
    }
}

impl Clone for ValueMap {
    fn clone(&self) -> (copy: Self)
        ensures
            copy@ == self@,
        decreases self,
    {
        proof {
            use_type_invariant(self);
            self.lemma_view();
        }
        let mut entries: Vec<(String, Value)> = Vec::new();
        let mut i: usize = 0;
        while i < self.entries.len()
            invariant
                i <= self.entries.len(),
                entries@.len() == i,
                forall|j: int|
                    0 <= j < i ==> (#[trigger] self.entries@[j]).0@ == entries@[j].0@
                        && self.entries@[j].1.view() == entries@[j].1.view(),
            decreases self.entries.len() - i,
        {
            let key = self.entries[i].0.clone();
            let value = self.entries[i].1.clone();
            entries.push((key, value));
            i += 1;
        }
        proof {
            lemma_same_views(self.entries@, entries@);
        }
        let copy = ValueMap { entries };
        proof {
            copy.lemma_view();
        }
        copy
    }
}

impl Clone for Value {
    fn clone(&self) -> (copy: Self)
        ensures
            copy@ == self@,
        decreases self,
    {
        match self {
            Value::Null => Value::Null,
            Value::Bool(b) => Value::Bool(*b),
            Value::Integer(i) => Value::Integer(*i),
            Value::String(s) => Value::String(s.clone()),
            Value::Bytes(b) => Value::Bytes(copy_bytes(b)),
            Value::List(items) => {
                let mut copies: Vec<Value> = Vec::new();
                let mut i: usize = 0;
                while i < items.len()
                    invariant
                        i <= items.len(),
                        copies@.len() == i,
                        self is List && self->List_0 == *items,
                        forall|j: int| 0 <= j < i ==> (#[trigger] copies@[j]).view() == items@[j].view(),
                    decreases items.len() - i,
                {
                    proof {
                        vstd::std_specs::vec::axiom_vec_index_decreases(*items, i as int);
                        assert(decreases_to!(*self => self->List_0));
                    }
                    let item = items[i].clone();
                    copies.push(item);
                    i += 1;
                }
                let copy = Value::List(copies);
                assert(copy.view() =~= self.view()) by {
                    assert(copy.view()->List_0 =~= self.view()->List_0);
                }
                copy
            },
            Value::StringMap(m) => Value::StringMap(m.clone()),
            Value::Link(cid) => Value::Link(cid.clone()),
        }
    }
}

impl ValueMap {
    /// The keys of the map, each once, in ascending order of their bytes.
    pub fn keys(&self) -> (keys: Vec<String>)
        ensures
            forall|i: int, j: int|
                #![trigger keys@[i], keys@[j]]
                0 <= i < j < keys@.len() ==> key_lt(keys@[i]@, keys@[j]@),
            forall|k: Seq<char>|
                self@.contains_key(k) <==> exists|i: int|
                    0 <= i < keys@.len() && (#[trigger] keys@[i])@ == k,
    {
        proof {
            use_type_invariant(self);
            self.lemma_view();
        }
        let mut keys: Vec<String> = Vec::new();
        let mut i: usize = 0;
        while i < self.entries.len()
            invariant
                i <= self.entries.len(),
                keys@.len() == i,
                forall|j: int| 0 <= j < i ==> (#[trigger] keys@[j])@ == self.entries@[j].0@,
            decreases self.entries.len() - i,
        {
            keys.push(self.entries[i].0.clone());
            i += 1;
        }
        proof {
            let es = self.entries@;
            assert forall|a: int, b: int| 0 <= a < b < keys@.len() implies key_lt(
                keys@[a]@,
                keys@[b]@,
            ) by {
                assert(key_lt(es[a].0@, es[b].0@));
            }
            assert forall|k: Seq<char>| self@.contains_key(k) <==> exists|i: int|
                0 <= i < keys@.len() && (#[trigger] keys@[i])@ == k by {
                if self@.contains_key(k) {
                    let p = choose|p: int| 0 <= p < es.len() && (#[trigger] es[p]).0@ == k;
                    assert(keys@[p]@ == k);
                }
                if exists|i: int| 0 <= i < keys@.len() && (#[trigger] keys@[i])@ == k {
                    let p = choose|p: int| 0 <= p < keys@.len() && (#[trigger] keys@[p])@ == k;
                    assert(es[p].0@ == k);
                }
            }
        }
        keys
    }

    /// The map with every value in its human-readable form.
    pub fn readable(&self) -> (out: ValueMap)
        ensures
            ValueView::StringMap(out@) == readable(ValueView::StringMap(self@)),
        decreases self,
    {
        proof {
            use_type_invariant(self);
            self.lemma_view();
        }
        let mut entries: Vec<(String, Value)> = Vec::new();
        let mut i: usize = 0;
        while i < self.entries.len()
            invariant
                i <= self.entries.len(),
                entries@.len() == i,
                forall|j: int|
                    0 <= j < i ==> (#[trigger] self.entries@[j]).0@ == entries@[j].0@
                        && entries@[j].1.view() == readable(self.entries@[j].1.view()),
            decreases self.entries.len() - i,
        {
            let key = self.entries[i].0.clone();
            let value = self.entries[i].1.readable();
            entries.push((key, value));
            i += 1;
        }
        proof {
            lemma_readable_views(self.entries@, entries@);
        }
        let out = ValueMap { entries };
        proof {
            out.lemma_view();
        }
        out
    }
}

impl Value {
    /// A string value of the given text.
    pub fn text(text: &str) -> (value: Value)
        ensures
            value@ == ValueView::String(text@),
    {
        Value::String(text.to_owned())
    }

    /// The human-readable form of the value: every link in it gives way to a
    /// map of one key, `/`, which holds the textual form of the identifier.
    pub fn readable(&self) -> (out: Value)
        ensures
            out@ == readable(self@),
        decreases self,
    {
        match self {
            Value::List(items) => {
                let mut outs: Vec<Value> = Vec::new();
                let mut i: usize = 0;
                while i < items.len()
                    invariant
                        i <= items.len(),
                        outs@.len() == i,
                        self is List && self->List_0 == *items,
                        forall|j: int|
                            0 <= j < i ==> (#[trigger] outs@[j]).view() == readable(items@[j].view()),
                    decreases items.len() - i,
                {
                    proof {
                        vstd::std_specs::vec::axiom_vec_index_decreases(*items, i as int);
                        assert(decreases_to!(*self => self->List_0));
                    }
                    let item = items[i].readable();
                    outs.push(item);
                    i += 1;
                }
                let out = Value::List(outs);
                assert(out.view()->List_0 =~= readable(self.view())->List_0);
                out
            },
            Value::StringMap(m) => Value::StringMap(m.readable()),
            Value::Link(cid) => {
                let mut map = ValueMap::new();
                map.insert("/".to_owned(), Value::String(cid.to_string()));
                Value::StringMap(map)
            },
            Value::Null => Value::Null,
            Value::Bool(b) => Value::Bool(*b),
            Value::Integer(i) => Value::Integer(*i),
            Value::String(s) => Value::String(s.clone()),
            Value::Bytes(b) => Value::Bytes(copy_bytes(b)),
        }
    }
}

} // verus!
