use vstd::prelude::*;
use crate::items::Category;
use crate::text::{is_prefix, starts_with, str_equal, remove_spaces, without_spaces};

verus! {

broadcast use vstd::seq_lib::group_seq_properties;

/// A table from ingredient names to the category they belong in. Later
/// entries for a name take the place of earlier ones, as an insert into a map
/// does.
pub struct CategoryDb {
    pub entries: Vec<(String, Category)>,
}

/// The entries of a table as plain values.
pub open spec fn entries_view(v: Seq<(String, Category)>) -> Seq<(Seq<char>, Category)> {
    v.map_values(|e: (String, Category)| (e.0@, e.1))
}

impl View for CategoryDb {
    type V = Seq<(Seq<char>, Category)>;

    open spec fn view(&self) -> Seq<(Seq<char>, Category)> {
        entries_view(self.entries@)
    }
}

/// The category that the table gives the name `k`: that of its last entry
/// for `k`, if there is one.
pub open spec fn lookup(s: Seq<(Seq<char>, Category)>, k: Seq<char>) -> Option<Category>
    decreases s.len(),
{
    if s.len() == 0 {
        None
    } else if s.last().0 == k {
        Some(s.last().1)
    } else {
        lookup(s.drop_last(), k)
    }
}

/// The category that the space-free form of the table gives `k`: that of the
/// last entry whose name, without its spaces, is `k`.
pub open spec fn lookup_without_spaces(s: Seq<(Seq<char>, Category)>, k: Seq<char>) -> Option<
    Category,
>
    decreases s.len(),
{
    if s.len() == 0 {
        None
    } else if without_spaces(s.last().0) == k {
        Some(s.last().1)
    } else {
        lookup_without_spaces(s.drop_last(), k)
    }
}

/// The position of the first entry whose name starts with `p`, if any.
pub open spec fn first_with_prefix(s: Seq<(Seq<char>, Category)>, p: Seq<char>) -> Option<int>
    decreases s.len(),
{
    if s.len() == 0 {
        None
    } else {
        match first_with_prefix(s.drop_last(), p) {
            Some(i) => Some(i),
            None => if is_prefix(p, s.last().0) {
                Some(s.len() - 1)
            } else {
                None
            },
        }
    }
}

/// The first entry that starts with `p` is one, and no entry before it is;
/// when there is none, no entry starts with `p`.
pub proof fn lemma_first_with_prefix(s: Seq<(Seq<char>, Category)>, p: Seq<char>)
    ensures
        match first_with_prefix(s, p) {
            Some(i) => 0 <= i < s.len() && is_prefix(p, s[i].0) && forall|m: int|
                0 <= m < i ==> !is_prefix(p, #[trigger] s[m].0),
            None => forall|m: int| 0 <= m < s.len() ==> !is_prefix(p, #[trigger] s[m].0),
        },
    decreases s.len(),
{
    if s.len() > 0 {
        let t = s.drop_last();
        lemma_first_with_prefix(t, p);
        match first_with_prefix(t, p) {
            Some(i) => {
                assert forall|m: int| 0 <= m < i implies !is_prefix(p, #[trigger] s[m].0) by {
                    assert(s[m] == t[m]);
                }
                assert(s[i] == t[i]);
            },
            None => {
                assert forall|m: int| 0 <= m < s.len() - 1 implies !is_prefix(p, #[trigger] s[m].0) by {
                    assert(s[m] == t[m]);
                }
            },
        }
    }
}

/// Once an entry starting with `p` is among the first `k`, the first such
/// entry stays the same however many entries follow.
proof fn lemma_prefix_extends(s: Seq<(Seq<char>, Category)>, p: Seq<char>, k: nat)
    requires
        k <= s.len(),
        first_with_prefix(s.take(k as int), p) is Some,
    ensures
        first_with_prefix(s, p) == first_with_prefix(s.take(k as int), p),
    decreases s.len() - k,
{
    if k < s.len() {
        assert(s.take((k + 1) as int).drop_last() =~= s.take(k as int));
        lemma_prefix_extends(s, p, k + 1);
    } else {
        assert(s.take(k as int) =~= s);
    }
}

proof fn lemma_entries_view_push(s: Seq<(String, Category)>, x: (String, Category))
    ensures
        entries_view(s.push(x)) == entries_view(s).push((x.0@, x.1)),
{
    assert(entries_view(s.push(x)) =~= entries_view(s).push((x.0@, x.1)));
}

impl CategoryDb {
    /// A table holding `entries`, in that order.
    pub fn from_entries(entries: Vec<(String, Category)>) -> (db: CategoryDb)
        ensures
            db@ == entries_view(entries@),
    {
        CategoryDb { entries }
    }

    /// The category that the table gives `key`.
    pub fn get(&self, key: &str) -> (r: Option<Category>)
        ensures
            r == lookup(self@, key@),
    {
        let mut i = self.entries.len();
        assert(self@.take(i as int) =~= self@);
        while i > 0
            invariant
                i <= self.entries.len(),
                lookup(self@, key@) == lookup(self@.take(i as int), key@),
            decreases i,
        {
            let ghost t = self@.take(i as int);
            assert(t.drop_last() =~= self@.take(i - 1));
            if str_equal(self.entries[i - 1].0.as_str(), key) {
                return Some(self.entries[i - 1].1);
            }
            i = i - 1;
        }
        None
    }

    /// Gives `key` the category `c`.
    pub fn insert(&mut self, key: String, c: Category)
        ensures
            final(self)@ == old(self)@.push((key@, c)),
            forall|k: Seq<char>|
                lookup(#[trigger] final(self)@, k) == if k == key@ {
                    Some(c)
                } else {
                    lookup(old(self)@, k)
                },
    {
        let ghost before = self.entries@;
        self.entries.push((key, c));
        proof {
            let x = self.entries@.last();
            assert(self.entries@ == before.push(x));
            lemma_entries_view_push(before, x);
            assert(self@.drop_last() =~= old(self)@);
        }
    }

    /// The same table with the spaces taken out of every name.
    pub fn without_spaces(&self) -> (r: CategoryDb)
        ensures
            forall|k: Seq<char>| lookup(#[trigger] r@, k) == lookup_without_spaces(self@, k),
    {
        let mut out: Vec<(String, Category)> = Vec::new();
        for i in 0..self.entries.len()
            invariant
                forall|k: Seq<char>|
                    lookup(#[trigger] entries_view(out@), k) == lookup_without_spaces(
                        self@.take(i as int),
                        k,
                    ),
        {
            let ghost prev = out@;
            let key = remove_spaces(self.entries[i].0.as_str());
            let c = self.entries[i].1;
            let ghost kv = key@;
            out.push((key, c));
            proof {
                let x = out@.last();
                assert(out@ == prev.push(x));
                lemma_entries_view_push(prev, x);
                assert(self@[i as int].0 == self.entries@[i as int].0@);
                assert(self@.take(i + 1).last() == self@[i as int]);
                assert(kv == without_spaces(self@[i as int].0));
                assert(self@.take(i + 1).drop_last() =~= self@.take(i as int));
                assert forall|k: Seq<char>|
                    lookup(#[trigger] entries_view(out@), k) == lookup_without_spaces(
                        self@.take(i + 1),
                        k,
                    ) by {
                    assert(entries_view(out@).drop_last() == entries_view(prev));
                    assert(entries_view(out@).last() == (kv, c));
                    assert(self@[i as int].1 == c);
                    assert(lookup(entries_view(prev), k) == lookup_without_spaces(self@.take(i as int), k));
                }
            }
        }
        assert(self@.take(self.entries.len() as int) =~= self@);
        CategoryDb { entries: out }
    }

    /// The name of the first entry that starts with `p`, if any.
    pub fn first_key_with_prefix(&self, p: &str) -> (r: Option<String>)
        ensures
            match first_with_prefix(self@, p@) {
                None => r is None,
                Some(i) => r is Some && r->0@ == self@[i].0,
            },
    {
        for i in 0..self.entries.len()
            invariant
                first_with_prefix(self@.take(i as int), p@) is None,
        {
            proof {
                assert(self@.take(i + 1).drop_last() =~= self@.take(i as int));
            }
            if starts_with(self.entries[i].0.as_str(), p) {
                proof {
                    assert(self@.take(i + 1).last() == self@[i as int]);
                    lemma_prefix_extends(self@, p@, (i + 1) as nat);
                }
                return Some(self.entries[i].0.clone());
            }
        }
        assert(self@.take(self.entries.len() as int) =~= self@);
        None
    }
}

} // verus!
