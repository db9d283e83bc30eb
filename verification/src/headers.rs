//! An ordered set of headers.
//!
//! Names are compared without regard to the case of ASCII letters, and no name
//! occurs twice. A header that is set again replaces the earlier one, with the
//! name as it was written the last time.

use vstd::prelude::*;
use crate::text::{ascii_lower, eq_ignore_ascii_case, same_ignoring_ascii_case};

verus! {

/// A header in contracts: its name and its value.
pub type Pair = (Seq<char>, Seq<char>);

/// True when no header of `hs` bears the name, whatever the case of its letters.
pub open spec fn absent(hs: Seq<Pair>, name: Seq<char>) -> bool {
    forall|i: int| 0 <= i < hs.len() ==> !eq_ignore_ascii_case(#[trigger] hs[i].0, name)
}

/// True when no two headers of `hs` bear the same name.
pub open spec fn unique_names(hs: Seq<Pair>) -> bool {
    forall|i: int, j: int|
        0 <= i < j < hs.len() ==> !eq_ignore_ascii_case(#[trigger] hs[i].0, #[trigger] hs[j].0)
}

/// The headers of `hs` that do not bear the name, in their order.
pub open spec fn without(hs: Seq<Pair>, name: Seq<char>) -> Seq<Pair>
    decreases hs.len(),
{
    if hs.len() == 0 {
        Seq::empty()
    } else if eq_ignore_ascii_case(hs.last().0, name) {
        without(hs.drop_last(), name)
    } else {
        without(hs.drop_last(), name).push(hs.last())
    }
}

/// `hs` with the header set: an earlier header of that name is dropped and the
/// new one comes last.
pub open spec fn inserted(hs: Seq<Pair>, name: Seq<char>, value: Seq<char>) -> Seq<Pair> {
    without(hs, name).push((name, value))
}

/// `hs` with each header of `more` set, one after the other.
pub open spec fn extended(hs: Seq<Pair>, more: Seq<Pair>) -> Seq<Pair>
    decreases more.len(),
{
    if more.len() == 0 {
        hs
    } else {
        inserted(extended(hs, more.drop_last()), more.last().0, more.last().1)
    }
}

/// The value of the first header of `hs` that bears the name.
pub open spec fn lookup(hs: Seq<Pair>, name: Seq<char>) -> Option<Seq<char>>
    decreases hs.len(),
{
    if hs.len() == 0 {
        None
    } else if eq_ignore_ascii_case(hs[0].0, name) {
        Some(hs[0].1)
    } else {
        lookup(hs.drop_first(), name)
    }
}

/// What is absent from a set of headers is absent after some are taken out.
pub proof fn lemma_without_keeps_absent(hs: Seq<Pair>, gone: Seq<char>, name: Seq<char>)
    requires
        absent(hs, name),
    ensures
        absent(without(hs, gone), name),
    decreases hs.len(),
{
    if hs.len() > 0 {
        assert forall|i: int| 0 <= i < hs.drop_last().len() implies !eq_ignore_ascii_case(
            #[trigger] hs.drop_last()[i].0,
            name,
        ) by {
            assert(hs.drop_last()[i] == hs[i]);
        }
        lemma_without_keeps_absent(hs.drop_last(), gone, name);
        assert(!eq_ignore_ascii_case(hs[hs.len() - 1].0, name));
    }
}

/// Taking a name out leaves it absent, and keeps the names unique.
pub proof fn lemma_without(hs: Seq<Pair>, name: Seq<char>)
    ensures
        absent(without(hs, name), name),
        unique_names(hs) ==> unique_names(without(hs, name)),
        without(hs, name).len() <= hs.len(),
    decreases hs.len(),
{
    if hs.len() > 0 {
        let init = hs.drop_last();
        lemma_without(init, name);
        if unique_names(hs) {
            assert forall|i: int, j: int| 0 <= i < j < init.len() implies !eq_ignore_ascii_case(
                #[trigger] init[i].0,
                #[trigger] init[j].0,
            ) by {
                assert(init[i] == hs[i] && init[j] == hs[j]);
            }
            if !eq_ignore_ascii_case(hs.last().0, name) {
                assert forall|i: int| 0 <= i < init.len() implies !eq_ignore_ascii_case(
                    #[trigger] init[i].0,
                    hs.last().0,
                ) by {
                    assert(init[i] == hs[i]);
                    assert(hs.last() == hs[hs.len() - 1]);
                }
                lemma_without_keeps_absent(init, name, hs.last().0);
            }
        }
    }
}

/// Setting a header keeps the names unique, and the header can be looked up.
pub proof fn lemma_inserted(hs: Seq<Pair>, name: Seq<char>, value: Seq<char>)
    requires
        unique_names(hs),
    ensures
        unique_names(inserted(hs, name, value)),
        inserted(hs, name, value).len() >= 1,
        inserted(hs, name, value).last() == (name, value),
{
    lemma_without(hs, name);
}

/// Setting headers with unique names one after the other on an empty set
/// gives those headers.
pub proof fn lemma_extend_from_empty(hs: Seq<Pair>)
    requires
        unique_names(hs),
    ensures
        extended(Seq::<Pair>::empty(), hs) == hs,
    decreases hs.len(),
{
    if hs.len() > 0 {
        let init = hs.drop_last();
        assert forall|i: int, j: int| 0 <= i < j < init.len() implies !eq_ignore_ascii_case(
            #[trigger] init[i].0,
            #[trigger] init[j].0,
        ) by {
            assert(init[i] == hs[i] && init[j] == hs[j]);
        }
        lemma_extend_from_empty(init);
        assert forall|i: int| 0 <= i < init.len() implies !eq_ignore_ascii_case(
            #[trigger] init[i].0,
            hs.last().0,
        ) by {
            assert(init[i] == hs[i]);
            assert(hs.last() == hs[hs.len() - 1]);
        }
        lemma_without_absent(init, hs.last().0);
        assert(init.push(hs.last()) == hs);
    }
}

/// Taking out a name that is absent changes nothing.
pub proof fn lemma_without_absent(hs: Seq<Pair>, name: Seq<char>)
    requires
        absent(hs, name),
    ensures
        without(hs, name) == hs,
    decreases hs.len(),
{
    if hs.len() > 0 {
        let init = hs.drop_last();
        assert forall|i: int| 0 <= i < init.len() implies !eq_ignore_ascii_case(
            #[trigger] init[i].0,
            name,
        ) by {
            assert(init[i] == hs[i]);
        }
        lemma_without_absent(init, name);
        assert(!eq_ignore_ascii_case(hs[hs.len() - 1].0, name));
        assert(init.push(hs.last()) == hs);
    }
}

/// Comparing names without regard to case is symmetric and transitive.
pub proof fn lemma_same_name(a: Seq<char>, b: Seq<char>, c: Seq<char>)
    ensures
        eq_ignore_ascii_case(a, b) == eq_ignore_ascii_case(b, a),
        eq_ignore_ascii_case(a, b) && eq_ignore_ascii_case(b, c) ==> eq_ignore_ascii_case(a, c),
{
    if eq_ignore_ascii_case(a, b) {
        assert forall|i: int| 0 <= i < b.len() implies ascii_lower(#[trigger] b[i])
            == ascii_lower(a[i]) by {
            assert(ascii_lower(a[i]) == ascii_lower(b[i]));
        }
        if eq_ignore_ascii_case(b, c) {
            assert forall|i: int| 0 <= i < a.len() implies ascii_lower(#[trigger] a[i])
                == ascii_lower(c[i]) by {
                assert(ascii_lower(a[i]) == ascii_lower(b[i]));
                assert(ascii_lower(b[i]) == ascii_lower(c[i]));
            }
        }
    }
    if eq_ignore_ascii_case(b, a) {
        assert forall|i: int| 0 <= i < a.len() implies ascii_lower(#[trigger] a[i])
            == ascii_lower(b[i]) by {
            assert(ascii_lower(b[i]) == ascii_lower(a[i]));
        }
    }
}

/// Looking a name up in a set with one more header at its end: the headers
/// before it come first.
pub proof fn lemma_lookup_push(hs: Seq<Pair>, last: Pair, name: Seq<char>)
    ensures
        lookup(hs.push(last), name) == match lookup(hs, name) {
            Some(v) => Some(v),
            None => if eq_ignore_ascii_case(last.0, name) {
                Some(last.1)
            } else {
                None
            },
        },
    decreases hs.len(),
{
    let all = hs.push(last);
    if hs.len() == 0 {
        assert(all.drop_first() == Seq::<Pair>::empty());
    } else {
        assert(all[0] == hs[0]);
        assert(all.drop_first() == hs.drop_first().push(last));
        lemma_lookup_push(hs.drop_first(), last, name);
    }
}

/// Taking a name out does not change what is found under a different name.
pub proof fn lemma_lookup_without(hs: Seq<Pair>, gone: Seq<char>, name: Seq<char>)
    requires
        !eq_ignore_ascii_case(gone, name),
    ensures
        lookup(without(hs, gone), name) == lookup(hs, name),
    decreases hs.len(),
{
    if hs.len() > 0 {
        let init = hs.drop_last();
        let last = hs.last();
        assert(init.push(last) == hs);
        lemma_lookup_without(init, gone, name);
        lemma_lookup_push(init, last, name);
        if eq_ignore_ascii_case(last.0, gone) {
            lemma_same_name(gone, last.0, name);
            lemma_same_name(last.0, gone, gone);
        } else {
            lemma_lookup_push(without(init, gone), last, name);
        }
    }
}

/// Nothing is found under a name that is absent.
pub proof fn lemma_lookup_absent(hs: Seq<Pair>, name: Seq<char>)
    requires
        absent(hs, name),
    ensures
        lookup(hs, name) is None,
    decreases hs.len(),
{
    if hs.len() > 0 {
        assert(!eq_ignore_ascii_case(hs[0].0, name));
        assert forall|i: int| 0 <= i < hs.drop_first().len() implies !eq_ignore_ascii_case(
            #[trigger] hs.drop_first()[i].0,
            name,
        ) by {
            assert(hs.drop_first()[i] == hs[i + 1]);
        }
        lemma_lookup_absent(hs.drop_first(), name);
    }
}

/// Later layers win. After a header was set, its value is what is found under
/// its name, in whatever case the name is written; what is found under every
/// other name is as before.
pub proof fn lemma_lookup_inserted(
    hs: Seq<Pair>,
    name: Seq<char>,
    value: Seq<char>,
    other: Seq<char>,
)
    ensures
        eq_ignore_ascii_case(name, other) ==> lookup(inserted(hs, name, value), other) == Some(
            value,
        ),
        !eq_ignore_ascii_case(name, other) ==> lookup(inserted(hs, name, value), other)
            == lookup(hs, other),
{
    let kept = without(hs, name);
    lemma_lookup_push(kept, (name, value), other);
    if eq_ignore_ascii_case(name, other) {
        lemma_without(hs, name);
        assert forall|i: int| 0 <= i < kept.len() implies !eq_ignore_ascii_case(
            #[trigger] kept[i].0,
            other,
        ) by {
            lemma_same_name(kept[i].0, other, name);
            lemma_same_name(name, other, other);
        }
        lemma_lookup_absent(kept, other);
    } else {
        lemma_lookup_without(hs, name, other);
    }
}

/// An ordered set of headers.
#[derive(Debug)]
pub struct Headers {
    entries: Vec<(String, String)>,
}

/// The headers held in a vector, as names and values.
pub open spec fn pairs_of(entries: Seq<(String, String)>) -> Seq<Pair> {
    Seq::new(entries.len(), |i: int| (entries[i].0@, entries[i].1@))
}

impl View for Headers {
    type V = Seq<Pair>;

    closed spec fn view(&self) -> Seq<Pair> {
        pairs_of(self.entries@)
    }
}

impl Headers {
    #[verifier::type_invariant]
    spec fn names_are_unique(self) -> bool {
        unique_names(pairs_of(self.entries@))
    }

    /// An empty set of headers.
    #[must_use]
    pub fn new() -> (r: Self)
        ensures
            r@ == Seq::<Pair>::empty(),
    {
        let r = Headers { entries: Vec::new() };
        proof {
            assert(pairs_of(r.entries@) == Seq::<Pair>::empty());
        }
        r
    }

    /// The number of headers.
    #[must_use]
    pub fn len(&self) -> (r: usize)
        ensures
            r == self@.len(),
    {
        self.entries.len()
    }

    /// True when there is no header.
    #[must_use]
    pub fn is_empty(&self) -> (r: bool)
        ensures
            r == (self@.len() == 0),
    {
        self.entries.len() == 0
    }

    /// The headers as pairs of name and value, in their order. No name occurs
    /// twice among them, whatever the case of its letters.
    #[must_use]
    pub fn entries(&self) -> (r: &Vec<(String, String)>)
        ensures
            pairs_of(r@) == self@,
            unique_names(self@),
    {
        proof {
            use_type_invariant(self);
        }
        &self.entries
    }

    /// The value of the header with the given name, whatever the case of its letters.
    #[must_use]
    pub fn get(&self, name: &str) -> (r: Option<&str>)
        ensures
            match lookup(self@, name@) {
                Some(v) => r is Some && r.unwrap()@ == v,
                None => r is None,
            },
    {
        let mut i: usize = 0;
        proof {
            assert(self@.skip(0) == self@);
        }
        while i < self.entries.len()
            invariant
                i <= self.entries.len(),
                lookup(self@, name@) == lookup(self@.skip(i as int), name@),
            decreases self.entries.len() - i,
        {
            proof {
                let rest = self@.skip(i as int);
                assert(rest[0] == self@[i as int]);
                assert(rest.drop_first() == self@.skip(i + 1));
            }
            if same_ignoring_ascii_case(self.entries[i].0.as_str(), name) {
                return Some(self.entries[i].1.as_str());
            }
            i += 1;
        }
        None
    }

    /// True when a header bears the given name, whatever the case of its letters.
    #[must_use]
    pub fn contains_key(&self, name: &str) -> (r: bool)
        ensures
            r == lookup(self@, name@) is Some,
    {
        self.get(name).is_some()
    }

    /// Takes the header with the given name out, if there is one.
    pub fn remove(&mut self, name: &str)
        ensures
            final(self)@ == without(old(self)@, name@),
    {
        proof {
            use_type_invariant(&*self);
        }
        let mut kept: Vec<(String, String)> = Vec::new();
        let mut i: usize = 0;
        while i < self.entries.len()
            invariant
                i <= self.entries.len(),
                pairs_of(kept@) == without(pairs_of(self.entries@).take(i as int), name@),
            decreases self.entries.len() - i,
        {
            proof {
                let all = pairs_of(self.entries@);
                assert(all.take(i + 1).drop_last() == all.take(i as int));
                assert(all.take(i + 1).last() == all[i as int]);
            }
            if !same_ignoring_ascii_case(self.entries[i].0.as_str(), name) {
                let pair = (self.entries[i].0.clone(), self.entries[i].1.clone());
                proof {
                    assert(pairs_of(kept@.push(pair)) == pairs_of(kept@).push(
                        (pair.0@, pair.1@),
                    ));
                }
                kept.push(pair);
            }
            i += 1;
        }
        proof {
            let all = pairs_of(self.entries@);
            assert(all.take(self.entries.len() as int) == all);
            lemma_without(all, name@);
        }
        self.entries = kept;
    }

    /// Sets a header. An earlier header of that name, whatever the case of its
    /// letters, is replaced.
    pub fn insert(&mut self, name: String, value: String)
        ensures
            final(self)@ == inserted(old(self)@, name@, value@),
    {
        proof {
            use_type_invariant(&*self);
            lemma_inserted(pairs_of(self.entries@), name@, value@);
        }
        let ghost before = pairs_of(self.entries@);
        let mut kept: Vec<(String, String)> = Vec::new();
        let mut i: usize = 0;
        while i < self.entries.len()
            invariant
                i <= self.entries.len(),
                before == pairs_of(self.entries@),
                pairs_of(kept@) == without(before.take(i as int), name@),
            decreases self.entries.len() - i,
        {
            proof {
                assert(before.take(i + 1).drop_last() == before.take(i as int));
                assert(before.take(i + 1).last() == before[i as int]);
            }
            if !same_ignoring_ascii_case(self.entries[i].0.as_str(), name.as_str()) {
                let pair = (self.entries[i].0.clone(), self.entries[i].1.clone());
                proof {
                    assert(pairs_of(kept@.push(pair)) == pairs_of(kept@).push(
                        (pair.0@, pair.1@),
                    ));
                }
                kept.push(pair);
            }
            i += 1;
        }
        proof {
            assert(before.take(self.entries.len() as int) == before);
            assert(pairs_of(kept@.push((name, value))) == pairs_of(kept@).push(
                (name@, value@),
            ));
        }
        kept.push((name, value));
        self.entries = kept;
    }

    /// Sets each of the given headers, one after the other.
    pub fn extend(&mut self, more: &Vec<(String, String)>)
        ensures
            final(self)@ == extended(old(self)@, pairs_of(more@)),
    {
        let mut i: usize = 0;
        while i < more.len()
            invariant
                i <= more.len(),
                self@ == extended(old(self)@, pairs_of(more@).take(i as int)),
            decreases more.len() - i,
        {
            proof {
                let all = pairs_of(more@);
                assert(all.take(i + 1).drop_last() == all.take(i as int));
                assert(all.take(i + 1).last() == all[i as int]);
            }
            self.insert(more[i].0.clone(), more[i].1.clone());
            i += 1;
        }
        proof {
            assert(pairs_of(more@).take(more.len() as int) == pairs_of(more@));
        }
    }

    /// The headers of a list of pairs, set one after the other.
    #[must_use]
    pub fn from_pairs(pairs: &Vec<(String, String)>) -> (r: Self)
        ensures
            r@ == extended(Seq::<Pair>::empty(), pairs_of(pairs@)),
    {
        let mut r = Headers::new();
        r.extend(pairs);
        r
    }
}

impl Clone for Headers {
    fn clone(&self) -> (r: Self)
        ensures
            r@ == self@,
    {
        proof {
            use_type_invariant(self);
        }
        let mut entries: Vec<(String, String)> = Vec::new();
        let mut i: usize = 0;
        while i < self.entries.len()
            invariant
                i <= self.entries.len(),
                pairs_of(entries@) == pairs_of(self.entries@).take(i as int),
            decreases self.entries.len() - i,
        {
            let pair = (self.entries[i].0.clone(), self.entries[i].1.clone());
            proof {
                assert(pairs_of(entries@.push(pair)) == pairs_of(entries@).push(
                    (pair.0@, pair.1@),
                ));
            }
            entries.push(pair);
            i += 1;
        }
        proof {
            assert(pairs_of(self.entries@).take(self.entries.len() as int) == pairs_of(
                self.entries@,
            ));
        }
        Headers { entries }
    }
}

} // verus!
