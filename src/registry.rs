use vstd::prelude::*;

verus! {

/// The entry for `key` among `entries`; a later entry overrides an earlier one.
pub open spec fn find_entry(entries: Seq<(Seq<char>, Seq<char>)>, key: Seq<char>) -> Option<
    Seq<char>,
>
    decreases entries.len(),
{
    if entries.len() == 0 {
        None
    } else if entries.last().0 == key {
        Some(entries.last().1)
    } else {
        find_entry(entries.drop_last(), key)
    }
}

/// The table from native type names to the bridge's primitive type names.
/// It is a list of pairs searched from the newest entry, so that `insert`
/// replaces an earlier entry for the same name; Verus gives a `HashMap` keyed
/// by `String` no specification that lookups could be proved against.
pub struct TypeRegistry {
    entries: Vec<(String, String)>,
}

impl TypeRegistry {
    pub closed spec fn entries_view(&self) -> Seq<(Seq<char>, Seq<char>)> {
        self.entries@.map_values(|e: (String, String)| (e.0@, e.1@))
    }

    /// The table as a map from native type text to bridge type text.
    pub open spec fn view(&self) -> Map<Seq<char>, Seq<char>> {
        Map::new(
            |k: Seq<char>| find_entry(self.entries_view(), k) is Some,
            |k: Seq<char>| find_entry(self.entries_view(), k)->Some_0,
        )
    }

    /// An empty table.
    pub fn new() -> (r: TypeRegistry)
        ensures
            r.view() == Map::<Seq<char>, Seq<char>>::empty(),
    {
        let r = TypeRegistry { entries: Vec::new() };
        proof {
            assert(r.entries_view() =~= Seq::empty());
            assert(r.view() =~= Map::<Seq<char>, Seq<char>>::empty());
        }
        r
    }

    /// The shipped table: `i32` maps to `jint`.
    pub fn with_defaults() -> (r: TypeRegistry)
        ensures
            r.view() == Map::<Seq<char>, Seq<char>>::empty().insert("i32"@, "jint"@),
    {
        let mut r = TypeRegistry::new();
        r.insert("i32".to_owned(), "jint".to_owned());
        r
    }

    /// Maps `native` to `bridge`, replacing any earlier entry for `native`.
    pub fn insert(&mut self, native: String, bridge: String)
        ensures
            final(self).view() == old(self).view().insert(native@, bridge@),
    {
        let ghost before = self.entries_view();
        let ghost (k, v) = (native@, bridge@);
        self.entries.push((native, bridge));
        proof {
            let after = self.entries_view();
            assert(after.drop_last() =~= before);
            assert forall|q: Seq<char>| #[trigger]
                find_entry(after, q) == if q == k {
                    Some(v)
                } else {
                    find_entry(before, q)
                } by {}
            assert(self.view() =~= old(self).view().insert(k, v));
        }
    }

    /// The bridge type for the native type `native`, if the table has one.
    pub fn lookup(&self, native: &String) -> (r: Option<String>)
        ensures
            match r {
                Some(b) => self.view().contains_key(native@) && self.view()[native@] == b@,
                None => !self.view().contains_key(native@),
            },
    {
        let ghost s = self.entries_view();
        let mut i: usize = self.entries.len();
        proof {
            assert(s.take(i as int) =~= s);
        }
        while i > 0
            invariant
                i <= self.entries@.len(),
                s == self.entries_view(),
                find_entry(s, native@) == find_entry(s.take(i as int), native@),
            decreases i,
        {
            let ghost prefix = s.take(i as int);
            proof {
                assert(prefix.drop_last() =~= s.take(i - 1));
            }
            if self.entries[i - 1].0 == *native {
                return Some(self.entries[i - 1].1.clone());
            }
            i = i - 1;
        }
        proof {
            assert(s.take(0) =~= Seq::empty());
        }
        None
    }
}

} // verus!
