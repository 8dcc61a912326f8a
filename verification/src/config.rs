//! The playlist configuration: a map from branch prefixes to playlist ids,
//! and the lookup of the playlist that belongs to a branch.
use vstd::prelude::*;
use vstd::string::*;

use crate::text::starts_with;

verus! {

/// A configuration entry seen as plain character sequences: (prefix, playlist id).
pub type EntryView = (Seq<char>, Seq<char>);

/// No two entries share a prefix.
pub open spec fn distinct_prefixes(es: Seq<EntryView>) -> bool {
    forall|i: int, j: int|
        0 <= i < es.len() && 0 <= j < es.len() && i != j ==> #[trigger] es[i].0 != #[trigger] es[j].0
}

/// Some entry has prefix `k`.
pub open spec fn has_prefix_entry(es: Seq<EntryView>, k: Seq<char>) -> bool {
    exists|i: int| 0 <= i < es.len() && #[trigger] es[i].0 == k
}

/// The entries read as a map from prefix to playlist id.
pub open spec fn entries_map(es: Seq<EntryView>) -> Map<Seq<char>, Seq<char>> {
    Map::new(
        |k: Seq<char>| has_prefix_entry(es, k),
        |k: Seq<char>| es[choose|i: int| 0 <= i < es.len() && #[trigger] es[i].0 == k].1,
    )
}

/// The playlist of the first entry, in entry order, whose prefix begins `branch`.
pub open spec fn first_match(es: Seq<EntryView>, branch: Seq<char>) -> Option<Seq<char>>
    decreases es.len(),
{
    if es.len() == 0 {
        None
    } else if es[0].0.is_prefix_of(branch) {
        Some(es[0].1)
    } else {
        first_match(es.subrange(1, es.len() as int), branch)
    }
}

/// Some prefix of the map begins `branch`.
pub open spec fn some_prefix_matches(m: Map<Seq<char>, Seq<char>>, branch: Seq<char>) -> bool {
    exists|k: Seq<char>| #[trigger] m.contains_key(k) && k.is_prefix_of(branch)
}

/// `p` is the playlist of a prefix of the map that begins `branch`.
pub open spec fn is_match_of(m: Map<Seq<char>, Seq<char>>, branch: Seq<char>, p: Seq<char>) -> bool {
    exists|k: Seq<char>| #[trigger] m.contains_key(k) && k.is_prefix_of(branch) && m[k] == p
}

/// The first match is the playlist of some entry whose prefix begins the branch,
/// and there is none exactly when no entry's prefix begins the branch.
pub proof fn lemma_first_match(es: Seq<EntryView>, branch: Seq<char>)
    ensures
        first_match(es, branch) is None <==> (forall|i: int|
            0 <= i < es.len() ==> !(#[trigger] es[i]).0.is_prefix_of(branch)),
        first_match(es, branch) matches Some(p) ==> exists|i: int|
            0 <= i < es.len() && (#[trigger] es[i]).0.is_prefix_of(branch) && es[i].1 == p,
    decreases es.len(),
{
    if es.len() > 0 {
        let rest = es.subrange(1, es.len() as int);
        lemma_first_match(rest, branch);
        assert forall|i: int| 1 <= i < es.len() implies #[trigger] es[i] == rest[i - 1] by {}
        if !es[0].0.is_prefix_of(branch) {
            if first_match(es, branch) is None {
                assert forall|i: int| 0 <= i < es.len() implies !(#[trigger] es[i]).0.is_prefix_of(
                    branch,
                ) by {
                    if i > 0 {
                        assert(es[i] == rest[i - 1]);
                    }
                }
            } else {
                let p = first_match(es, branch)->0;
                let j = choose|j: int|
                    0 <= j < rest.len() && (#[trigger] rest[j]).0.is_prefix_of(branch) && rest[j].1
                        == p;
                assert(es[j + 1] == rest[j]);
            }
        }
    }
}

/// With distinct prefixes, the map reads entry `i` back.
pub proof fn lemma_entries_map_at(es: Seq<EntryView>, i: int)
    requires
        distinct_prefixes(es),
        0 <= i < es.len(),
    ensures
        entries_map(es).contains_key(es[i].0),
        entries_map(es)[es[i].0] == es[i].1,
{
    assert(has_prefix_entry(es, es[i].0));
    let j = choose|j: int| 0 <= j < es.len() && #[trigger] es[j].0 == es[i].0;
    assert(j == i);
}

/// The view of the library's entry list.
pub open spec fn view_entries(v: Seq<(String, String)>) -> Seq<EntryView> {
    v.map_values(|e: (String, String)| (e.0@, e.1@))
}

/// The map that inserting the pairs one after another gives: a later pair
/// for the same prefix replaces an earlier one.
pub open spec fn pairs_map(es: Seq<EntryView>) -> Map<Seq<char>, Seq<char>>
    decreases es.len(),
{
    if es.len() == 0 {
        Map::empty()
    } else {
        pairs_map(es.drop_last()).insert(es.last().0, es.last().1)
    }
}

/// The playlist configuration: each branch prefix names one playlist.
pub struct Config {
    playlists: Vec<(String, String)>,
}

impl Config {
    /// The entries, in the order in which lookups visit them.
    pub closed spec fn entries(&self) -> Seq<EntryView> {
        view_entries(self.playlists@)
    }

    #[verifier::type_invariant]
    closed spec fn prefixes_distinct(&self) -> bool {
        distinct_prefixes(self.entries())
    }
}

impl View for Config {
    type V = Map<Seq<char>, Seq<char>>;

    open spec fn view(&self) -> Map<Seq<char>, Seq<char>> {
        entries_map(self.entries())
    }
}

impl Config {
    /// An empty configuration.
    pub fn new() -> (c: Config)
        ensures
            c.entries() == Seq::<EntryView>::empty(),
            c@ == Map::<Seq<char>, Seq<char>>::empty(),
    {
        let c = Config { playlists: Vec::new() };
        assert(c.entries() =~= Seq::<EntryView>::empty());
        assert(c@ =~= Map::<Seq<char>, Seq<char>>::empty());
        c
    }

    /// The number of prefixes configured.
    pub fn len(&self) -> (n: usize)
        ensures
            n == self.entries().len(),
            n == self@.dom().len(),
    {
        proof {
            use_type_invariant(self);
            lemma_entries_map_dom_len(self.entries());
        }
        self.playlists.len()
    }

    /// The entries as pairs of (prefix, playlist id), in lookup order.
    pub fn playlists(&self) -> (r: &Vec<(String, String)>)
        ensures
            view_entries(r@) == self.entries(),
    {
        &self.playlists
    }

    /// Maps `prefix` to `playlist`, replacing the playlist it had before.
    pub fn insert(&mut self, prefix: String, playlist: String)
        ensures
            final(self)@ == old(self)@.insert(prefix@, playlist@),
            has_prefix_entry(old(self).entries(), prefix@) ==> final(self).entries()
                == old(self).entries().update(
                choose|i: int|
                    0 <= i < old(self).entries().len() && #[trigger] old(self).entries()[i].0
                        == prefix@,
                (prefix@, playlist@),
            ),
            !has_prefix_entry(old(self).entries(), prefix@) ==> final(self).entries() == old(
                self,
            ).entries().push((prefix@, playlist@)),
    {
        proof {
            use_type_invariant(&*self);
        }
        let ghost es = self.entries();
        let mut v: Vec<(String, String)> = Vec::new();
        std::mem::swap(&mut v, &mut self.playlists);
        assert(view_entries(v@) == es);
        let n = v.len();
        let mut i: usize = 0;
        let mut found = false;
        while i < n
            invariant_except_break
                n == v@.len(),
                view_entries(v@) == es,
                i <= n,
                !found,
                forall|j: int| 0 <= j < i ==> (#[trigger] es[j]).0 != prefix@,
            ensures
                n == v@.len(),
                view_entries(v@) == es,
                i <= n,
                found ==> i < n && es[i as int].0 == prefix@,
                !found ==> forall|j: int| 0 <= j < n ==> (#[trigger] es[j]).0 != prefix@,
            decreases n - i,
        {
            if v[i].0 == prefix {
                found = true;
                break;
            }
            i += 1;
        }
        let ghost new_es: Seq<EntryView>;
        if found {
            let ghost k = i as int;
            v.set(i, (prefix, playlist));
            proof {
                new_es = es.update(k, (prefix@, playlist@));
                assert(view_entries(v@) =~= new_es);
                let c = choose|j: int| 0 <= j < es.len() && #[trigger] es[j].0 == prefix@;
                assert(c == k);
                lemma_entries_map_update(es, k, playlist@);
            }
        } else {
            v.push((prefix, playlist));
            proof {
                new_es = es.push((prefix@, playlist@));
                assert(view_entries(v@) =~= new_es);
                lemma_entries_map_push(es, prefix@, playlist@);
            }
        }
        self.playlists = v;
    }

    /// The configuration that maps each prefix of `pairs` to its playlist; a
    /// later pair for the same prefix replaces an earlier one.
    pub fn from_pairs(pairs: &Vec<(String, String)>) -> (c: Config)
        ensures
            c@ == pairs_map(view_entries(pairs@)),
    {
        let ghost es = view_entries(pairs@);
        let mut c = Config::new();
        let n = pairs.len();
        let mut i: usize = 0;
        assert(es.take(0) =~= Seq::<EntryView>::empty());
        while i < n
            invariant
                n == pairs@.len(),
                es == view_entries(pairs@),
                i <= n,
                c@ == pairs_map(es.take(i as int)),
            decreases n - i,
        {
            let k = pairs[i].0.clone();
            let v = pairs[i].1.clone();
            c.insert(k, v);
            assert(es.take(i + 1).drop_last() =~= es.take(i as int));
            assert(es.take(i + 1).last() == es[i as int]);
            i += 1;
        }
        assert(es.take(n as int) =~= es);
        c
    }

    /// The configuration that asks for a playlist for `feat` branches and one
    /// for `fix` branches.
    pub fn with_defaults(feat_playlist: String, fix_playlist: String) -> (c: Config)
        ensures
            c.entries() == seq![("feat"@, feat_playlist@), ("fix"@, fix_playlist@)],
            c@ == Map::<Seq<char>, Seq<char>>::empty().insert("feat"@, feat_playlist@).insert(
                "fix"@,
                fix_playlist@,
            ),
    {
        proof {
            reveal_strlit("feat");
            reveal_strlit("fix");
        }
        let mut c = Config::new();
        c.insert(String::from_str("feat"), feat_playlist);
        assert(!has_prefix_entry(seq![("feat"@, feat_playlist@)], "fix"@)) by {
            assert("feat"@[1] != "fix"@[1]);
        }
        c.insert(String::from_str("fix"), fix_playlist);
        c
    }

    /// The playlist of the first entry whose prefix begins `branch`.
    pub fn get_playlist_for_branch(&self, branch: &str) -> (r: Option<&String>)
        ensures
            match r {
                Some(p) => first_match(self.entries(), branch@) == Some(p@),
                None => first_match(self.entries(), branch@) is None,
            },
            r is None <==> !some_prefix_matches(self@, branch@),
            r matches Some(p) ==> is_match_of(self@, branch@, p@),
    {
        proof {
            use_type_invariant(self);
        }
        let ghost es = self.entries();
        let n = self.playlists.len();
        let mut i: usize = 0;
        assert(es.subrange(0, n as int) =~= es);
        while i < n
            invariant
                n == es.len(),
                es == self.entries(),
                distinct_prefixes(es),
                i <= n,
                first_match(es, branch@) == first_match(es.subrange(i as int, n as int), branch@),
            decreases n - i,
        {
            let ghost rest = es.subrange(i as int, n as int);
            assert(rest[0] == es[i as int]);
            if starts_with(branch, self.playlists[i].0.as_str()) {
                proof {
                    lemma_first_match_map(es, branch@);
                }
                return Some(&self.playlists[i].1);
            }
            assert(rest.subrange(1, rest.len() as int) =~= es.subrange(i + 1, n as int));
            i += 1;
        }
        proof {
            lemma_first_match_map(es, branch@);
        }
        None
    }
}

impl Clone for Config {
    /// A copy with the same entries in the same order.
    fn clone(&self) -> (c: Config)
        ensures
            c.entries() == self.entries(),
            c@ == self@,
    {
        proof {
            use_type_invariant(self);
        }
        let n = self.playlists.len();
        let mut v: Vec<(String, String)> = Vec::new();
        let mut i: usize = 0;
        while i < n
            invariant
                n == self.playlists@.len(),
                i <= n,
                v@.len() == i,
                view_entries(v@) == self.entries().subrange(0, i as int),
            decreases n - i,
        {
            let a = self.playlists[i].0.clone();
            let b = self.playlists[i].1.clone();
            assert(a@ == self.entries()[i as int].0 && b@ == self.entries()[i as int].1);
            let ghost before = v@;
            v.push((a, b));
            assert(v@ == before.push((a, b)));
            assert(view_entries(v@)[i as int] == self.entries()[i as int]);
            assert(view_entries(v@) =~= self.entries().subrange(0, i + 1));
            i += 1;
        }
        assert(self.entries().subrange(0, n as int) =~= self.entries());
        Config { playlists: v }
    }
}

/// The map of distinct entries has one key per entry.
proof fn lemma_entries_map_dom_len(es: Seq<EntryView>)
    requires
        distinct_prefixes(es),
    ensures
        entries_map(es).dom().len() == es.len(),
        entries_map(es).dom().finite(),
    decreases es.len(),
{
    if es.len() == 0 {
        assert(entries_map(es).dom() =~= Set::<Seq<char>>::empty());
    } else {
        let init = es.drop_last();
        assert(distinct_prefixes(init));
        lemma_entries_map_dom_len(init);
        let last = es.last();
        assert(entries_map(es).dom() =~= entries_map(init).dom().insert(last.0)) by {
            assert forall|k: Seq<char>| #[trigger] entries_map(es).dom().contains(k) implies entries_map(
                init,
            ).dom().insert(last.0).contains(k) by {
                let j = choose|j: int| 0 <= j < es.len() && #[trigger] es[j].0 == k;
                if j < es.len() - 1 {
                    assert(init[j] == es[j]);
                }
            }
            assert forall|k: Seq<char>| #[trigger] entries_map(init).dom().insert(last.0).contains(
                k,
            ) implies entries_map(es).dom().contains(k) by {
                if k == last.0 {
                    assert(es[es.len() - 1].0 == k);
                } else {
                    let j = choose|j: int| 0 <= j < init.len() && #[trigger] init[j].0 == k;
                    assert(es[j] == init[j]);
                }
            }
        }
        assert(!entries_map(init).dom().contains(last.0)) by {
            if entries_map(init).dom().contains(last.0) {
                let j = choose|j: int| 0 <= j < init.len() && #[trigger] init[j].0 == last.0;
                assert(es[j] == init[j]);
                assert(es[es.len() - 1].0 == last.0);
            }
        }
    }
}

/// Replacing the playlist of entry `k` is a map insert.
proof fn lemma_entries_map_update(es: Seq<EntryView>, k: int, p: Seq<char>)
    requires
        distinct_prefixes(es),
        0 <= k < es.len(),
    ensures
        distinct_prefixes(es.update(k, (es[k].0, p))),
        entries_map(es.update(k, (es[k].0, p))) == entries_map(es).insert(es[k].0, p),
{
    let ne = es.update(k, (es[k].0, p));
    assert forall|i: int, j: int|
        0 <= i < ne.len() && 0 <= j < ne.len() && i != j implies #[trigger] ne[i].0
        != #[trigger] ne[j].0 by {
        assert(ne[i].0 == es[i].0);
        assert(ne[j].0 == es[j].0);
    }
    let m1 = entries_map(ne);
    let m2 = entries_map(es).insert(es[k].0, p);
    assert forall|key: Seq<char>| #[trigger] m1.contains_key(key) <==> m2.contains_key(key) by {
        if m1.contains_key(key) {
            let j = choose|j: int| 0 <= j < ne.len() && #[trigger] ne[j].0 == key;
            assert(es[j].0 == key);
        }
        if m2.contains_key(key) && key != es[k].0 {
            let j = choose|j: int| 0 <= j < es.len() && #[trigger] es[j].0 == key;
            assert(ne[j].0 == key);
        }
        if key == es[k].0 {
            assert(ne[k].0 == key);
        }
    }
    assert forall|key: Seq<char>| #[trigger] m1.contains_key(key) implies m1[key] == m2[key] by {
        let j = choose|j: int| 0 <= j < ne.len() && #[trigger] ne[j].0 == key;
        lemma_entries_map_at(ne, j);
        if j != k {
            assert(ne[j] == es[j]);
            lemma_entries_map_at(es, j);
        }
    }
    assert(m1 =~= m2);
}

/// Appending an entry with a new prefix is a map insert.
proof fn lemma_entries_map_push(es: Seq<EntryView>, k: Seq<char>, p: Seq<char>)
    requires
        distinct_prefixes(es),
        !has_prefix_entry(es, k),
    ensures
        distinct_prefixes(es.push((k, p))),
        entries_map(es.push((k, p))) == entries_map(es).insert(k, p),
{
    let ne = es.push((k, p));
    assert forall|i: int, j: int|
        0 <= i < ne.len() && 0 <= j < ne.len() && i != j implies #[trigger] ne[i].0
        != #[trigger] ne[j].0 by {
        if i < es.len() {
            assert(ne[i] == es[i]);
        }
        if j < es.len() {
            assert(ne[j] == es[j]);
        }
    }
    let m1 = entries_map(ne);
    let m2 = entries_map(es).insert(k, p);
    assert forall|key: Seq<char>| #[trigger] m1.contains_key(key) <==> m2.contains_key(key) by {
        if m1.contains_key(key) && key != k {
            let j = choose|j: int| 0 <= j < ne.len() && #[trigger] ne[j].0 == key;
            assert(j < es.len());
            assert(es[j] == ne[j]);
        }
        if m2.contains_key(key) && key != k {
            let j = choose|j: int| 0 <= j < es.len() && #[trigger] es[j].0 == key;
            assert(ne[j] == es[j]);
        }
        if key == k {
            assert(ne[es.len() as int].0 == key);
        }
    }
    assert forall|key: Seq<char>| #[trigger] m1.contains_key(key) implies m1[key] == m2[key] by {
        let j = choose|j: int| 0 <= j < ne.len() && #[trigger] ne[j].0 == key;
        lemma_entries_map_at(ne, j);
        if j < es.len() {
            assert(ne[j] == es[j]);
            lemma_entries_map_at(es, j);
        }
    }
    assert(m1 =~= m2);
}

/// Building from pairs keeps every prefix: the configuration has exactly
/// the prefixes of the pairs, and each maps to the playlist of the last pair
/// that names it.
pub proof fn law_pairs_map_keeps_every_prefix(es: Seq<EntryView>)
    ensures
        forall|k: Seq<char>| pairs_map(es).contains_key(k) <==> has_prefix_entry(es, k),
        forall|i: int|
            0 <= i < es.len() && (forall|j: int| i < j < es.len() ==> (#[trigger] es[j]).0 != es[i].0)
                ==> pairs_map(es)[(#[trigger] es[i]).0] == es[i].1,
    decreases es.len(),
{
    if es.len() > 0 {
        let init = es.drop_last();
        law_pairs_map_keeps_every_prefix(init);
        let last = es.last();
        assert forall|k: Seq<char>| pairs_map(es).contains_key(k) <==> has_prefix_entry(es, k) by {
            if has_prefix_entry(es, k) && k != last.0 {
                let i = choose|i: int| 0 <= i < es.len() && #[trigger] es[i].0 == k;
                assert(init[i] == es[i]);
            }
            if has_prefix_entry(init, k) {
                let i = choose|i: int| 0 <= i < init.len() && #[trigger] init[i].0 == k;
                assert(es[i] == init[i]);
            }
            if k == last.0 {
                assert(es[es.len() - 1].0 == k);
            }
        }
        assert forall|i: int|
            0 <= i < es.len() && (forall|j: int| i < j < es.len() ==> (#[trigger] es[j]).0 != es[i].0)
                implies pairs_map(es)[(#[trigger] es[i]).0] == es[i].1 by {
            if i < es.len() - 1 {
                assert(es[es.len() - 1].0 != es[i].0);
                assert(init[i] == es[i]);
                assert forall|j: int| i < j < init.len() implies (#[trigger] init[j]).0 != init[i].0 by {
                    assert(init[j] == es[j]);
                }
            }
        }
    }
}

/// The default mapping: a branch that begins with `feat` gets the feature
/// playlist, one that begins with `fix` the fix playlist, and any other
/// branch none.
pub proof fn law_default_branch_mapping(feat_playlist: Seq<char>, fix_playlist: Seq<char>, branch: Seq<char>)
    ensures
        ({
            let es = seq![("feat"@, feat_playlist), ("fix"@, fix_playlist)];
            &&& "feat"@.is_prefix_of(branch) ==> first_match(es, branch) == Some(feat_playlist)
            &&& "fix"@.is_prefix_of(branch) ==> first_match(es, branch) == Some(fix_playlist)
            &&& !"feat"@.is_prefix_of(branch) && !"fix"@.is_prefix_of(branch) ==> first_match(
                es,
                branch,
            ) is None
        }),
{
    reveal_strlit("feat");
    reveal_strlit("fix");
    let es = seq![("feat"@, feat_playlist), ("fix"@, fix_playlist)];
    let rest = es.subrange(1, 2);
    assert(rest =~= seq![("fix"@, fix_playlist)]);
    assert(rest.subrange(1, 1) =~= Seq::<EntryView>::empty());
    reveal_with_fuel(first_match, 3);
    if "fix"@.is_prefix_of(branch) {
        assert(branch.subrange(0, 3)[1] == 'i');
        assert(!"feat"@.is_prefix_of(branch)) by {
            if "feat"@.is_prefix_of(branch) {
                assert(branch.subrange(0, 4)[1] == 'e');
            }
        }
    }
}

/// The first match, read through the map of distinct entries.
proof fn lemma_first_match_map(es: Seq<EntryView>, branch: Seq<char>)
    requires
        distinct_prefixes(es),
    ensures
        first_match(es, branch) is None <==> !some_prefix_matches(entries_map(es), branch),
        first_match(es, branch) matches Some(p) ==> is_match_of(entries_map(es), branch, p),
{
    lemma_first_match(es, branch);
    let m = entries_map(es);
    if first_match(es, branch) is None {
        if some_prefix_matches(m, branch) {
            let k = choose|k: Seq<char>| #[trigger] m.contains_key(k) && k.is_prefix_of(branch);
            let j = choose|j: int| 0 <= j < es.len() && #[trigger] es[j].0 == k;
            assert(!es[j].0.is_prefix_of(branch));
        }
    } else {
        let p = first_match(es, branch)->0;
        let i = choose|i: int| 0 <= i < es.len() && (#[trigger] es[i]).0.is_prefix_of(branch) && es[i].1 == p;
        lemma_entries_map_at(es, i);
        assert(m.contains_key(es[i].0) && es[i].0.is_prefix_of(branch) && m[es[i].0] == p);
    }
}

} // verus!
