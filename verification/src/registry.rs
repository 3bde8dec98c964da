use vstd::prelude::*;

use crate::views::lemma_vec_push_deep_view;

verus! {

/// The mapping that a list of `(table name, fields)` entries denotes;
/// a later entry for the same name would win, but the registry keeps
/// names unique.
pub open spec fn map_of(
    entries: Seq<(Seq<char>, Seq<(Seq<char>, Seq<char>)>)>,
) -> Map<Seq<char>, Seq<(Seq<char>, Seq<char>)>>
    decreases entries.len(),
{
    if entries.len() == 0 {
        Map::empty()
    } else {
        map_of(entries.drop_last()).insert(entries.last().0, entries.last().1)
    }
}

/// A name is in the denoted mapping exactly when some entry carries it.
proof fn lemma_map_of_domain(entries: Seq<(Seq<char>, Seq<(Seq<char>, Seq<char>)>)>, k: Seq<char>)
    ensures
        map_of(entries).contains_key(k) <==> exists|i: int|
            0 <= i < entries.len() && (#[trigger] entries[i]).0 == k,
    decreases entries.len(),
{
    if entries.len() > 0 {
        lemma_map_of_domain(entries.drop_last(), k);
        if entries.last().0 != k {
            if exists|i: int| 0 <= i < entries.len() && (#[trigger] entries[i]).0 == k {
                let i = choose|i: int| 0 <= i < entries.len() && (#[trigger] entries[i]).0 == k;
                assert(entries.drop_last()[i] == entries[i]);
            }
        }
    }
}

/// When entry names are unique, the denoted mapping sends each entry's
/// name to that entry's fields.
proof fn lemma_map_of_get(entries: Seq<(Seq<char>, Seq<(Seq<char>, Seq<char>)>)>, i: int)
    requires
        0 <= i < entries.len(),
        forall|a: int, b: int|
            0 <= a < b < entries.len() ==> (#[trigger] entries[a]).0 != (#[trigger] entries[b]).0,
    ensures
        map_of(entries)[entries[i].0] == entries[i].1,
    decreases entries.len(),
{
    if i == entries.len() - 1 {
    } else {
        assert(entries[i].0 != entries.last().0);
        lemma_map_of_get(entries.drop_last(), i);
        assert(entries.drop_last()[i] == entries[i]);
    }
}

/// The schema registry: table name to ordered field descriptors,
/// entries created only by a successful registration and never
/// removed or overwritten.
pub struct Registry {
    entries: Vec<(String, Vec<(String, String)>)>,
}

impl Registry {
    /// The registered mapping: table name to ordered
    /// `(field name, type name)` descriptors.
    pub closed spec fn schemas(&self) -> Map<Seq<char>, Seq<(Seq<char>, Seq<char>)>> {
        map_of(self.entries.deep_view())
    }

    /// Well-formed: no two entries carry the same table name.
    pub closed spec fn wf(&self) -> bool {
        forall|a: int, b: int|
            0 <= a < b < self.entries.deep_view().len() ==> (
            #[trigger] self.entries.deep_view()[a]).0 != (
            #[trigger] self.entries.deep_view()[b]).0
    }

    /// An empty registry.
    pub fn new() -> (r: Registry)
        ensures
            r.wf(),
            r.schemas() == Map::<Seq<char>, Seq<(Seq<char>, Seq<char>)>>::empty(),
    {
        let entries: Vec<(String, Vec<(String, String)>)> = Vec::new();
        proof {
            assert(entries.deep_view() =~= Seq::<
                (Seq<char>, Seq<(Seq<char>, Seq<char>)>),
            >::empty());
        }
        Registry { entries }
    }

    /// Pure read: the registered fields of a table, or nothing when the
    /// name was never registered.
    pub fn lookup(&self, name: &str) -> (r: Option<&Vec<(String, String)>>)
        requires
            self.wf(),
        ensures
            match r {
                Some(fields) => self.schemas().contains_key(name@) && fields.deep_view()
                    == self.schemas()[name@],
                None => !self.schemas().contains_key(name@),
            },
    {
        let key = String::from_str(name);
        let ghost dv = self.entries.deep_view();
        let mut i: usize = 0;
        while i < self.entries.len()
            invariant
                self.wf(),
                key@ == name@,
                i <= self.entries.len(),
                dv == self.entries.deep_view(),
                forall|j: int| 0 <= j < i ==> (#[trigger] dv[j]).0 != name@,
            decreases self.entries.len() - i,
        {
            if self.entries[i].0 == key {
                proof {
                    assert(dv[i as int] == self.entries@[i as int].deep_view());
                    assert(dv[i as int].0 == self.entries@[i as int].0@);
                    lemma_map_of_domain(dv, name@);
                    lemma_map_of_get(dv, i as int);
                }
                return Some(&self.entries[i].1);
            }
            proof {
                assert(dv[i as int] == self.entries@[i as int].deep_view());
                assert(dv[i as int].0 == self.entries@[i as int].0@);
            }
            i = i + 1;
        }
        proof {
            lemma_map_of_domain(dv, name@);
        }
        None
    }

    /// Whether a table of this name is registered.
    pub fn contains(&self, name: &str) -> (r: bool)
        requires
            self.wf(),
        ensures
            r == self.schemas().contains_key(name@),
    {
        self.lookup(name).is_some()
    }

    /// Stores a schema under a fresh name; the registered mapping grows
    /// by exactly that binding.
    pub fn store(&mut self, name: String, fields: Vec<(String, String)>)
        requires
            old(self).wf(),
            !old(self).schemas().contains_key(name@),
        ensures
            final(self).wf(),
            final(self).schemas() == old(self).schemas().insert(name@, fields.deep_view()),
    {
        let ghost pre = self.entries;
        let ghost entry = (name@, fields.deep_view());
        proof {
            lemma_map_of_domain(pre.deep_view(), name@);
        }
        self.entries.push((name, fields));
        proof {
            lemma_vec_push_deep_view(pre, self.entries, self.entries@[pre@.len() as int]);
            assert(self.entries@[pre@.len() as int].deep_view() == entry);
            assert(self.entries.deep_view() =~= pre.deep_view().push(entry));
            assert(self.entries.deep_view().drop_last() =~= pre.deep_view());
            assert(self.schemas() =~= old(self).schemas().insert(name@, fields.deep_view()));
        }
    }
}

} // verus!
