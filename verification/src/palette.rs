//! The palette: a mapping from string keys to colors.
//!
//! Entries are held as an association list with unique keys; its view is a
//! `Map` from key characters to colors. Harmonization transforms every
//! value in place, and composition inserts the generated scheme's entries,
//! overwriting caller entries that share a key.

use vstd::prelude::*;

use crate::color::Color;
use crate::harmony::entry_transform_spec;
use crate::harmony::transform_entry;

verus! {

/// The mapping held by an association list: later entries win.
pub open spec fn map_of(s: Seq<(Seq<char>, Color)>) -> Map<Seq<char>, Color>
    decreases s.len(),
{
    if s.len() == 0 {
        Map::empty()
    } else {
        map_of(s.drop_last()).insert(s.last().0, s.last().1)
    }
}

/// The key-character view of a list of string-keyed entries.
pub open spec fn entries_view(s: Seq<(String, Color)>) -> Seq<(Seq<char>, Color)> {
    s.map_values(|e: (String, Color)| (e.0@, e.1))
}

/// A mapping from string keys to colors, mutated in place while the
/// palette is harmonized and composed.
pub struct Palette {
    pub entries: Vec<(String, Color)>,
}

impl View for Palette {
    type V = Map<Seq<char>, Color>;

    open spec fn view(&self) -> Map<Seq<char>, Color> {
        map_of(entries_view(self.entries@))
    }
}

/// A key present at some position of the list is in the mapping, and if
/// keys are unique it holds the value at that position.
proof fn lemma_map_of_index(s: Seq<(Seq<char>, Color)>, i: int)
    requires
        0 <= i < s.len(),
        forall|j: int, k: int| 0 <= j < k < s.len() ==> s[j].0 != s[k].0,
    ensures
        map_of(s).dom().contains(s[i].0),
        map_of(s)[s[i].0] == s[i].1,
    decreases s.len(),
{
    if i < s.len() - 1 {
        lemma_map_of_index(s.drop_last(), i);
    }
}

/// A key present at some position of the list is in the mapping, with no
/// assumption on the other keys.
pub proof fn lemma_map_of_contains(s: Seq<(Seq<char>, Color)>, key: Seq<char>)
    requires
        exists|i: int| 0 <= i < s.len() && (#[trigger] s[i]).0 == key,
    ensures
        map_of(s).dom().contains(key),
    decreases s.len(),
{
    if s.last().0 != key {
        let i = choose|i: int| 0 <= i < s.len() && (#[trigger] s[i]).0 == key;
        assert(s.drop_last()[i] == s[i]);
        lemma_map_of_contains(s.drop_last(), key);
    }
}

/// A key at no position of the list is not in the mapping.
proof fn lemma_map_of_absent(s: Seq<(Seq<char>, Color)>, key: Seq<char>)
    requires
        forall|j: int| 0 <= j < s.len() ==> s[j].0 != key,
    ensures
        !map_of(s).dom().contains(key),
    decreases s.len(),
{
    if s.len() > 0 {
        lemma_map_of_absent(s.drop_last(), key);
    }
}

/// Replacing the value at one position of a unique-key list is inserting
/// under that position's key.
proof fn lemma_map_of_update(s: Seq<(Seq<char>, Color)>, i: int, v: Color)
    requires
        0 <= i < s.len(),
        forall|j: int, k: int| 0 <= j < k < s.len() ==> s[j].0 != s[k].0,
    ensures
        map_of(s.update(i, (s[i].0, v))) == map_of(s).insert(s[i].0, v),
    decreases s.len(),
{
    let s2 = s.update(i, (s[i].0, v));
    if i == s.len() - 1 {
        assert(s2.drop_last() =~= s.drop_last());
        assert(map_of(s.drop_last()).insert(s[i].0, s[i].1).insert(s[i].0, v) =~= map_of(
            s.drop_last(),
        ).insert(s[i].0, v));
    } else {
        let st = s.drop_last();
        assert(s2.drop_last() =~= st.update(i, (st[i].0, v)));
        lemma_map_of_update(st, i, v);
        assert(map_of(st).insert(st[i].0, v).insert(s.last().0, s.last().1) =~= map_of(st).insert(
            s.last().0,
            s.last().1,
        ).insert(st[i].0, v));
    }
}

/// Two unique-key lists with the same keys in the same order, the second
/// holding each value of the first through `f`, map every key of the first
/// through `f`.
proof fn lemma_map_of_pointwise(
    s1: Seq<(Seq<char>, Color)>,
    s2: Seq<(Seq<char>, Color)>,
    f: spec_fn(Color) -> Color,
)
    requires
        s2.len() == s1.len(),
        forall|i: int| 0 <= i < s1.len() ==> s2[i].0 == s1[i].0 && s2[i].1 == f(s1[i].1),
    ensures
        map_of(s2).dom() =~= map_of(s1).dom(),
        forall|k: Seq<char>|
            map_of(s1).dom().contains(k) ==> map_of(s2)[k] == f(map_of(s1)[k]),
    decreases s1.len(),
{
    if s1.len() > 0 {
        lemma_map_of_pointwise(s1.drop_last(), s2.drop_last(), f);
    }
}

impl Palette {
    /// No two entries share a key.
    pub open spec fn wf(&self) -> bool {
        forall|i: int, j: int|
            0 <= i < j < self.entries@.len() ==> self.entries@[i].0@ != self.entries@[j].0@
    }

    /// The empty palette.
    pub fn new() -> (r: Palette)
        ensures
            r@ == Map::<Seq<char>, Color>::empty(),
            r.wf(),
            r.entries@.len() == 0,
    {
        Palette { entries: Vec::new() }
    }

    /// How many entries the palette holds.
    pub fn len(&self) -> (r: usize)
        ensures
            r == self.entries@.len(),
    {
        self.entries.len()
    }

    /// Binds `key` to `value`, overwriting an entry that already uses the
    /// key.
    pub fn insert(&mut self, key: String, value: Color)
        requires
            old(self).wf(),
        ensures
            final(self).wf(),
            final(self)@ == old(self)@.insert(key@, value),
    {
        let ghost s0 = entries_view(self.entries@);
        let n = self.entries.len();
        let mut i: usize = 0;
        while i < n
            invariant
                i <= n,
                n == self.entries@.len(),
                self.entries@ == old(self).entries@,
                s0 == entries_view(self.entries@),
                s0.len() == n,
                old(self).wf(),
                forall|j: int| 0 <= j < i ==> self.entries@[j].0@ != key@,
            decreases n - i,
        {
            if self.entries[i].0.eq(&key) {
                let nv = (key, value);
                proof {
                    assert(forall|j: int, k: int|
                        0 <= j < k < s0.len() ==> s0[j].0 != s0[k].0);
                    lemma_map_of_update(s0, i as int, value);
                }
                self.entries.set(i, nv);
                proof {
                    assert(entries_view(self.entries@) =~= s0.update(
                        i as int,
                        (s0[i as int].0, value),
                    ));
                }
                return ;
            }
            i = i + 1;
        }
        self.entries.push((key, value));
        proof {
            assert(entries_view(self.entries@).drop_last() =~= s0);
        }
    }

    /// The color bound to `key`, if any.
    pub fn get(&self, key: &String) -> (r: Option<Color>)
        requires
            self.wf(),
        ensures
            r == if self@.dom().contains(key@) {
                Some(self@[key@])
            } else {
                None::<Color>
            },
    {
        let n = self.entries.len();
        let mut i: usize = 0;
        while i < n
            invariant
                n == self.entries@.len(),
                self.wf(),
                forall|j: int| 0 <= j < i ==> self.entries@[j].0@ != key@,
            decreases n - i,
        {
            if self.entries[i].0.eq(key) {
                proof {
                    lemma_map_of_index(entries_view(self.entries@), i as int);
                }
                return Some(self.entries[i].1);
            }
            i = i + 1;
        }
        proof {
            lemma_map_of_absent(entries_view(self.entries@), key@);
        }
        None
    }

    /// Harmonizes every entry toward the key color and applies the
    /// foreground tone boost for the active mode: the keys stay, and each
    /// value is the transform of the old value under that key.
    pub fn harmonize_toward(
        &mut self,
        key: &Color,
        harmony: i64,
        threshold: i64,
        boost: i64,
        dark: bool,
    )
        requires
            old(self).wf(),
            0 <= harmony <= 10_000,
            0 <= threshold <= 1_800_000,
            0 <= boost <= 10_000,
        ensures
            final(self).wf(),
            final(self)@.dom() =~= old(self)@.dom(),
            forall|k: Seq<char>|
                old(self)@.dom().contains(k) ==> final(self)@[k] == entry_transform_spec(
                    old(self)@[k],
                    *key,
                    harmony as int,
                    threshold as int,
                    boost as int,
                    dark,
                ),
    {
        let ghost f = |c: Color|
            entry_transform_spec(c, *key, harmony as int, threshold as int, boost as int, dark);
        let n = self.entries.len();
        let mut i: usize = 0;
        while i < n
            invariant
                n == self.entries@.len(),
                old(self).entries@.len() == n,
                0 <= harmony <= 10_000,
                0 <= threshold <= 1_800_000,
                0 <= boost <= 10_000,
                f == (|c: Color|
                    entry_transform_spec(
                        c,
                        *key,
                        harmony as int,
                        threshold as int,
                        boost as int,
                        dark,
                    )),
                forall|j: int|
                    0 <= j < n ==> self.entries@[j].0@ == old(self).entries@[j].0@,
                forall|j: int| 0 <= j < i ==> self.entries@[j].1 == f(old(self).entries@[j].1),
                forall|j: int| i <= j < n ==> self.entries@[j].1 == old(self).entries@[j].1,
            decreases n - i,
        {
            let k = self.entries[i].0.clone();
            let v = self.entries[i].1;
            let nv = transform_entry(&v, key, harmony, threshold, boost, dark);
            self.entries.set(i, (k, nv));
            i = i + 1;
        }
        proof {
            assert(forall|i: int, j: int|
                0 <= i < j < self.entries@.len() ==> self.entries@[i].0@ != self.entries@[j].0@);
            lemma_map_of_pointwise(
                entries_view(old(self).entries@),
                entries_view(self.entries@),
                f,
            );
        }
    }

    /// Inserts every entry of the generated scheme, overwriting caller
    /// entries that share a key: the composed palette prefers the scheme.
    pub fn compose(&mut self, scheme: &Vec<(String, Color)>)
        requires
            old(self).wf(),
        ensures
            final(self).wf(),
            final(self)@ == old(self)@.union_prefer_right(map_of(entries_view(scheme@))),
    {
        let n = scheme.len();
        let mut i: usize = 0;
        proof {
            assert(entries_view(scheme@.take(0)) =~= Seq::<(Seq<char>, Color)>::empty());
            assert(self@ =~= old(self)@.union_prefer_right(
                map_of(entries_view(scheme@.take(0))),
            ));
        }
        while i < n
            invariant
                i <= n,
                n == scheme@.len(),
                self.wf(),
                self@ == old(self)@.union_prefer_right(
                    map_of(entries_view(scheme@.take(i as int))),
                ),
            decreases n - i,
        {
            let k = scheme[i].0.clone();
            let v = scheme[i].1;
            self.insert(k, v);
            proof {
                assert(entries_view(scheme@.take(i + 1 as int)).drop_last() =~= entries_view(
                    scheme@.take(i as int),
                ));
                assert(self@ =~= old(self)@.union_prefer_right(
                    map_of(entries_view(scheme@.take(i + 1 as int))),
                ));
            }
            i = i + 1;
        }
        proof {
            assert(scheme@.take(n as int) =~= scheme@);
            assert(entries_view(scheme@.take(n as int)) =~= entries_view(scheme@));
            assert(map_of(entries_view(scheme@.take(n as int))) == map_of(entries_view(scheme@)));
        }
    }
}

/// An entry of the generated scheme overwrites a caller entry that shares
/// its key: the composed palette holds the scheme's value there.
pub proof fn lemma_compose_overwrite(
    base: Map<Seq<char>, Color>,
    scheme: Map<Seq<char>, Color>,
    k: Seq<char>,
)
    requires
        scheme.dom().contains(k),
    ensures
        base.union_prefer_right(scheme).dom().contains(k),
        base.union_prefer_right(scheme)[k] == scheme[k],
{
}

} // verus!
