//! The application list: entries with usage frequencies, kept with a
//! ranking — most-used first, ties broken by name, then by entry order —
//! that a launcher shows.
//! The persistence of frequencies (a small database) is the caller's; this
//! module owns every rule about the list itself: how frequencies are
//! applied, how an entry is found by its identifier, and what order the
//! ranked list is in.

use vstd::prelude::*;

verus! {

/// Lexicographic "less or equal" on character sequences: the empty
/// sequence first, otherwise by the first differing character.
pub open spec fn lex_le(a: Seq<char>, b: Seq<char>) -> bool
    decreases a.len(),
{
    if a.len() == 0 {
        true
    } else if b.len() == 0 {
        false
    } else if a[0] != b[0] {
        a[0] < b[0]
    } else {
        lex_le(a.skip(1), b.skip(1))
    }
}

/// The lexicographic order is total.
pub proof fn lemma_lex_le_total(a: Seq<char>, b: Seq<char>)
    ensures
        lex_le(a, b) || lex_le(b, a),
    decreases a.len(),
{
    if a.len() == 0 {
    } else if b.len() == 0 {
    } else if a[0] == b[0] {
        lemma_lex_le_total(a.skip(1), b.skip(1));
    }
}

/// The lexicographic order is transitive.
pub proof fn lemma_lex_le_trans(a: Seq<char>, b: Seq<char>, c: Seq<char>)
    requires
        lex_le(a, b),
        lex_le(b, c),
    ensures
        lex_le(a, c),
    decreases a.len(),
{
    if a.len() == 0 {
    } else {
        if a[0] == b[0] && b[0] == c[0] {
            lemma_lex_le_trans(a.skip(1), b.skip(1), c.skip(1));
        }
    }
}

/// The lexicographic order is antisymmetric.
pub proof fn lemma_lex_le_antisym(a: Seq<char>, b: Seq<char>)
    requires
        lex_le(a, b),
        lex_le(b, a),
    ensures
        a == b,
    decreases a.len(),
{
    if a.len() == 0 {
        assert(b.len() == 0);
        assert(a =~= b);
    } else {
        assert(a[0] == b[0]);
        lemma_lex_le_antisym(a.skip(1), b.skip(1));
        assert(a.len() == b.len()) by {
            assert(a.skip(1).len() == a.len() - 1);
            assert(b.skip(1).len() == b.len() - 1);
        }
        assert forall|i: int| 0 <= i < a.len() implies a[i] == b[i] by {
            if i > 0 {
                assert(a.skip(1)[i - 1] == a[i]);
                assert(b.skip(1)[i - 1] == b[i]);
            }
        }
        assert(a =~= b);
    }
}

/// Compares two strings in the lexicographic character order.
pub fn string_le(a: &String, b: &String) -> (r: bool)
    ensures
        r == lex_le(a@, b@),
{
    let an = a.as_str().unicode_len();
    let bn = b.as_str().unicode_len();
    let mut i: usize = 0;
    proof {
        assert(a@.skip(0) =~= a@);
        assert(b@.skip(0) =~= b@);
    }
    loop
        invariant
            i <= an,
            i <= bn,
            an == a@.len(),
            bn == b@.len(),
            lex_le(a@, b@) == lex_le(a@.skip(i as int), b@.skip(i as int)),
        decreases an - i,
    {
        if i >= an {
            return true;
        }
        if i >= bn {
            return false;
        }
        let ca = a.as_str().get_char(i);
        let cb = b.as_str().get_char(i);
        proof {
            assert(a@.skip(i as int)[0] == a@[i as int]);
            assert(b@.skip(i as int)[0] == b@[i as int]);
        }
        if ca != cb {
            return ca < cb;
        }
        proof {
            assert(a@.skip(i as int).skip(1) =~= a@.skip(i as int + 1));
            assert(b@.skip(i as int).skip(1) =~= b@.skip(i as int + 1));
        }
        i += 1;
    }
}

/// One launchable application, as its desktop entry describes it, plus
/// how often it has been launched.
pub struct AppEntry {
    /// Stable identifier (the key the frequency store uses).
    pub id: String,
    /// Display name (the ranking's tie-breaker).
    pub name: String,
    /// Short description.
    pub desc: String,
    /// Command line to launch.
    pub exec_string: String,
    /// Window-manager class.
    pub wm_class: String,
    /// Generic name.
    pub generic_name: String,
    /// Category list.
    pub categories: String,
    /// Keyword list.
    pub keywords: String,
    /// How often the entry has been launched.
    pub frequency: u32,
}

impl Default for AppEntry {
    /// An empty entry: all texts empty, never launched.
    fn default() -> (e: AppEntry)
        ensures
            e.id@.len() == 0,
            e.name@.len() == 0,
            e.desc@.len() == 0,
            e.exec_string@.len() == 0,
            e.wm_class@.len() == 0,
            e.generic_name@.len() == 0,
            e.categories@.len() == 0,
            e.keywords@.len() == 0,
            e.frequency == 0,
    {
        AppEntry {
            id: String::new(),
            name: String::new(),
            desc: String::new(),
            exec_string: String::new(),
            wm_class: String::new(),
            generic_name: String::new(),
            categories: String::new(),
            keywords: String::new(),
            frequency: 0,
        }
    }
}

/// The ranking order on positions into an entry list: more frequently
/// used entries first; among equally frequent ones, names in
/// lexicographic order; identical name and frequency keep the entry
/// order. A total order, so a ranking is unique for given entries.
pub open spec fn idx_le(es: Seq<AppEntry>, x: usize, y: usize) -> bool {
    let a = es[x as int];
    let b = es[y as int];
    if a.frequency != b.frequency {
        a.frequency > b.frequency
    } else if a.name@ != b.name@ {
        lex_le(a.name@, b.name@)
    } else {
        x <= y
    }
}

/// The ranking order is total.
pub proof fn lemma_idx_le_total(es: Seq<AppEntry>, x: usize, y: usize)
    ensures
        idx_le(es, x, y) || idx_le(es, y, x),
{
    lemma_lex_le_total(es[x as int].name@, es[y as int].name@);
}

/// The ranking order is transitive.
pub proof fn lemma_idx_le_trans(es: Seq<AppEntry>, x: usize, y: usize, z: usize)
    requires
        idx_le(es, x, y),
        idx_le(es, y, z),
    ensures
        idx_le(es, x, z),
{
    let a = es[x as int];
    let b = es[y as int];
    let c = es[z as int];
    if a.frequency == b.frequency && b.frequency == c.frequency {
        if a.name@ != b.name@ && b.name@ != c.name@ {
            lemma_lex_le_trans(a.name@, b.name@, c.name@);
            if a.name@ == c.name@ {
                // then the two lex relations run both ways between equal
                // texts, which forces the names equal: a contradiction
                lemma_lex_le_antisym(a.name@, b.name@);
            }
        }
    }
}

/// The ranking order is antisymmetric: two positions ordered both ways
/// are one position.
pub proof fn lemma_idx_le_antisym(es: Seq<AppEntry>, x: usize, y: usize)
    requires
        idx_le(es, x, y),
        idx_le(es, y, x),
    ensures
        x == y,
{
    let a = es[x as int];
    let b = es[y as int];
    if a.frequency == b.frequency && a.name@ != b.name@ {
        lemma_lex_le_antisym(a.name@, b.name@);
    }
}

/// Whether `idxs`, read as positions into `es`, is in ranking order.
pub open spec fn apps_sorted(es: Seq<AppEntry>, idxs: Seq<usize>) -> bool {
    forall|k: int, l: int| 0 <= k < l < idxs.len() ==> idx_le(es, idxs[k], idxs[l])
}

/// Law: for given entries the ranking is unique. Any two lists of the
/// same positions, each in ranking order, are the same list; so the
/// ranked list is fully determined by the entries it ranks.
pub proof fn lemma_ranking_unique(es: Seq<AppEntry>, p: Seq<usize>, q: Seq<usize>)
    requires
        apps_sorted(es, p),
        apps_sorted(es, q),
        p.to_multiset() == q.to_multiset(),
    ensures
        p == q,
{
    let leq = |x: usize, y: usize| idx_le(es, x, y);
    assert(vstd::relations::reflexive(leq)) by {
        assert forall|x: usize| #[trigger] leq(x, x) by {
            lemma_idx_le_total(es, x, x);
        }
    }
    assert(vstd::relations::antisymmetric(leq)) by {
        assert forall|x: usize, y: usize| #[trigger] leq(x, y) && #[trigger] leq(y, x) implies x
            == y by {
            lemma_idx_le_antisym(es, x, y);
        }
    }
    assert(vstd::relations::transitive(leq)) by {
        assert forall|x: usize, y: usize, z: usize|
            #[trigger] leq(x, y) && #[trigger] leq(y, z) implies leq(x, z) by {
            lemma_idx_le_trans(es, x, y, z);
        }
    }
    assert(vstd::relations::strongly_connected(leq)) by {
        assert forall|x: usize, y: usize| #[trigger] leq(x, y) || #[trigger] leq(y, x) by {
            lemma_idx_le_total(es, x, y);
        }
    }
    assert(vstd::relations::sorted_by(p, leq)) by {
        assert forall|i: int, j: int| 0 <= i < j < p.len() implies #[trigger] leq(p[i], p[j]) by {
            assert(idx_le(es, p[i], p[j]));
        }
    }
    assert(vstd::relations::sorted_by(q, leq)) by {
        assert forall|i: int, j: int| 0 <= i < j < q.len() implies #[trigger] leq(q[i], q[j]) by {
            assert(idx_le(es, q[i], q[j]));
        }
    }
    vstd::seq_lib::lemma_sorted_unique(p, q, leq);
    assert(p =~= q);
}

/// The positions `0, 1, …, n-1` in order.
pub open spec fn iota(n: nat) -> Seq<usize> {
    Seq::new(n, |i: int| i as usize)
}

/// Compares two positions in the ranking order.
fn rank_le(es: &Vec<AppEntry>, i: usize, j: usize) -> (r: bool)
    requires
        i < es@.len(),
        j < es@.len(),
    ensures
        r == idx_le(es@, i, j),
{
    let a = &es[i];
    let b = &es[j];
    if a.frequency != b.frequency {
        a.frequency > b.frequency
    } else {
        let name_le = string_le(&a.name, &b.name);
        let name_ge = string_le(&b.name, &a.name);
        if name_le && name_ge {
            // the names compare equal both ways, so they are one text
            // and the entry order decides
            proof {
                lemma_lex_le_antisym(a.name@, b.name@);
            }
            i <= j
        } else {
            // exactly one direction holds (the order is total), so the
            // names differ and the lexicographic order decides
            proof {
                lemma_lex_le_total(a.name@, b.name@);
            }
            name_le
        }
    }
}

/// Sorts a list of positions into `es` by the ranking order, by
/// insertion sort: quadratic only in the (small) list length.
fn sort_by_rank(es: &Vec<AppEntry>, v: &mut Vec<usize>)
    requires
        forall|k: int| 0 <= k < old(v)@.len() ==> (#[trigger] old(v)@[k]) < es@.len(),
    ensures
        final(v)@.len() == old(v)@.len(),
        final(v)@.to_multiset() == old(v)@.to_multiset(),
        forall|k: int| 0 <= k < final(v)@.len() ==> (#[trigger] final(v)@[k]) < es@.len(),
        apps_sorted(es@, final(v)@),
{
    broadcast use vstd::seq_lib::group_to_multiset_ensures;

    let n = v.len();
    if n == 0 {
        return ;
    }
    let mut i: usize = 1;
    while i < n
        invariant
            1 <= i <= n,
            v@.len() == n,
            v@.to_multiset() == old(v)@.to_multiset(),
            forall|k: int| 0 <= k < n ==> (#[trigger] v@[k]) < es@.len(),
            forall|k: int, l: int| 0 <= k < l < i ==> idx_le(es@, v@[k], v@[l]),
        decreases n - i,
    {
        let mut j: usize = i;
        while j > 0 && !rank_le(es, v[j - 1], v[j])
            invariant
                0 <= j <= i < n,
                v@.len() == n,
                v@.to_multiset() == old(v)@.to_multiset(),
                forall|k: int| 0 <= k < n ==> (#[trigger] v@[k]) < es@.len(),
                forall|k: int, l: int|
                    0 <= k < l <= i && l != j ==> idx_le(es@, v@[k], v@[l]),
                forall|l: int| j < l <= i ==> idx_le(es@, v@[j as int], v@[l]),
            decreases j,
        {
            let x = v[j - 1];
            let y = v[j];
            proof {
                broadcast use vstd::multiset::group_multiset_axioms;
                broadcast use vstd::seq_lib::group_to_multiset_ensures;

                lemma_idx_le_total(es@, x, y);
                let m = v@.to_multiset();
                assert(v@[j - 1] == x && 0 <= j - 1 < v@.len());
                assert(v@.contains(x)) by {
                    assert(v@[j - 1] == x);
                }
                assert(m.count(x) > 0);
                assert(v@.update(j - 1, y).to_multiset() == m.insert(y).remove(x));
                assert(v@.update(j - 1, y)[j as int] == y);
                assert(v@.update(j - 1, y).update(j as int, x).to_multiset() == m.insert(y).remove(
                    x,
                ).insert(x).remove(y));
                assert(m.insert(y).remove(x).insert(x).remove(y) =~= m);
            }
            v.set(j - 1, y);
            v.set(j, x);
            proof {
                let vv = v@;
                assert forall|k: int, l: int|
                    0 <= k < l <= i && l != j - 1 implies idx_le(es@, vv[k], vv[l]) by {
                    if k == j - 1 {
                        // the moved-up old left neighbour: it preceded `l` already
                    } else if l == j {
                        // position j now holds the old left neighbour
                    }
                }
                assert forall|l: int| j - 1 < l <= i implies #[trigger] idx_le(
                    es@,
                    vv[(j - 1) as int],
                    vv[l],
                ) by {
                    if l > j {
                        lemma_idx_le_trans(es@, vv[(j - 1) as int], vv[j as int], vv[l]);
                    }
                }
            }
            j = j - 1;
        }
        proof {
            let vv = v@;
            assert forall|k: int, l: int| 0 <= k < l <= i implies idx_le(es@, vv[k], vv[l]) by {
                if l == j {
                    // k < j: the exit test orders vv[j-1] before vv[j]; chain
                    // through it for the earlier positions
                    if k < j - 1 {
                        lemma_idx_le_trans(es@, vv[k], vv[(j - 1) as int], vv[j as int]);
                    }
                }
            }
        }
        i += 1;
    }
}

/// Field-wise equality of entries, by text contents.
pub open spec fn entry_eq(a: AppEntry, b: AppEntry) -> bool {
    &&& a.id@ == b.id@
    &&& a.name@ == b.name@
    &&& a.desc@ == b.desc@
    &&& a.exec_string@ == b.exec_string@
    &&& a.wm_class@ == b.wm_class@
    &&& a.generic_name@ == b.generic_name@
    &&& a.categories@ == b.categories@
    &&& a.keywords@ == b.keywords@
    &&& a.frequency == b.frequency
}

/// Field-wise equality of entry lists.
pub open spec fn entries_like(a: Seq<AppEntry>, b: Seq<AppEntry>) -> bool {
    a.len() == b.len() && forall|k: int| 0 <= k < a.len() ==> entry_eq(a[k], b[k])
}

/// The position of the first entry with the given identifier, or -1.
pub open spec fn first_match(es: Seq<AppEntry>, id: Seq<char>) -> int
    decreases es.len(),
{
    if es.len() == 0 {
        -1
    } else if es[0].id@ == id {
        0
    } else if first_match(es.skip(1), id) == -1 {
        -1
    } else {
        first_match(es.skip(1), id) + 1
    }
}

/// If the first `i` entries all miss the identifier, the first match is at
/// `i` when the entry there hits, and nowhere when `i` is the end.
proof fn lemma_first_match_at(es: Seq<AppEntry>, id: Seq<char>, i: int)
    requires
        0 <= i <= es.len(),
        forall|k: int| 0 <= k < i ==> es[k].id@ != id,
    ensures
        i == es.len() ==> first_match(es, id) == -1,
        i < es.len() && es[i].id@ == id ==> first_match(es, id) == i,
    decreases i,
{
    if i == 0 {
    } else {
        assert(es[0].id@ != id);
        assert forall|k: int| 0 <= k < i - 1 implies es.skip(1)[k].id@ != id by {
            assert(es.skip(1)[k] == es[k + 1]);
        }
        lemma_first_match_at(es.skip(1), id, i - 1);
        if i < es.len() {
            assert(es.skip(1)[i - 1] == es[i]);
        }
    }
}

/// One persisted row of the frequency store: an entry identifier and its
/// recorded launch count.
pub struct FrequencyRow {
    /// The entry identifier the row belongs to.
    pub id: String,
    /// The recorded launch count.
    pub frequency: u32,
}

/// The frequency recorded for an identifier: the first matching row's, or
/// zero when no row matches.
pub open spec fn row_lookup(rows: Seq<FrequencyRow>, id: Seq<char>) -> u32
    decreases rows.len(),
{
    if rows.len() == 0 {
        0u32
    } else if rows[0].id@ == id {
        rows[0].frequency
    } else {
        row_lookup(rows.skip(1), id)
    }
}

/// If the first `i` rows all miss the identifier, the lookup is decided at
/// `i`: the row there when it hits, zero when `i` is the end.
proof fn lemma_row_lookup_at(rows: Seq<FrequencyRow>, id: Seq<char>, i: int)
    requires
        0 <= i <= rows.len(),
        forall|k: int| 0 <= k < i ==> rows[k].id@ != id,
    ensures
        i == rows.len() ==> row_lookup(rows, id) == 0,
        i < rows.len() && rows[i].id@ == id ==> row_lookup(rows, id) == rows[i].frequency,
    decreases i,
{
    if i == 0 {
    } else {
        assert(rows[0].id@ != id);
        assert forall|k: int| 0 <= k < i - 1 implies rows.skip(1)[k].id@ != id by {
            assert(rows.skip(1)[k] == rows[k + 1]);
        }
        lemma_row_lookup_at(rows.skip(1), id, i - 1);
        if i < rows.len() {
            assert(rows.skip(1)[i - 1] == rows[i]);
        }
    }
}

/// Relies on uuid::Uuid::new_v4 and its display form: a fresh random
/// identifier, rendered in the hyphenated form, which is always 36
/// characters. Two calls may differ; nothing else is assumed.
#[verifier::external_body]
fn fresh_uuid() -> (r: String)
    ensures
        r@.len() == 36,
{
    uuid::Uuid::new_v4().to_string()
}

/// The database path the caller should open for a store path: the shared
/// in-memory target for an empty path, the path itself otherwise.
pub fn db_target(path: &str) -> (r: String)
    ensures
        path@.len() == 0 ==> r@ == ":memory:"@,
        path@.len() > 0 ==> r@ == path@,
{
    if path.is_empty() {
        ":memory:".to_owned()
    } else {
        path.to_owned()
    }
}

/// The application list and its ranking. The ranked list `apps` holds
/// positions into `entries`, most-used first, ties by name.
pub struct AppDb {
    uuid: String,
    entries: Vec<AppEntry>,
    apps: Vec<usize>,
}

impl AppDb {
    /// The instance identifier this store was created with.
    pub closed spec fn spec_uuid(self) -> Seq<char> {
        self.uuid@
    }

    /// The entry list.
    pub closed spec fn spec_entries(self) -> Seq<AppEntry> {
        self.entries@
    }

    /// The ranked list: positions into the entry list.
    pub closed spec fn spec_apps(self) -> Seq<usize> {
        self.apps@
    }

    /// The ranked list is in ranking order and visits every entry exactly
    /// once.
    pub open spec fn wf(self) -> bool {
        &&& apps_sorted(self.spec_entries(), self.spec_apps())
        &&& self.spec_apps().to_multiset() == iota(self.spec_entries().len()).to_multiset()
    }

    /// The instance identifier, as created.
    pub fn uuid(&self) -> (r: &String)
        ensures
            r@ == self.spec_uuid(),
    {
        &self.uuid
    }

    /// The entry list.
    pub fn entries(&self) -> (r: &Vec<AppEntry>)
        ensures
            r@ == self.spec_entries(),
    {
        &self.entries
    }

    /// The ranked list: a copy of the positions, most-used first, ties
    /// by name, remaining ties in entry order.
    pub fn get_apps(&self) -> (r: Vec<usize>)
        ensures
            r@ == self.spec_apps(),
    {
        let n = self.apps.len();
        let mut out: Vec<usize> = Vec::new();
        let mut k: usize = 0;
        while k < n
            invariant
                k <= n,
                n == self.apps@.len(),
                out@ == self.apps@.take(k as int),
            decreases n - k,
        {
            out.push(self.apps[k]);
            proof {
                assert(out@ =~= self.apps@.take(k as int + 1));
            }
            k += 1;
        }
        proof {
            assert(self.apps@.take(n as int) =~= self.apps@);
        }
        out
    }

    /// Recomputes the ranked list from the entry list; the stored list is
    /// replaced only when the order actually changed, and whether it did
    /// is returned (the owner's change notification fires exactly then).
    fn update_apps(&mut self) -> (changed: bool)
        ensures
            final(self).spec_entries() == old(self).spec_entries(),
            final(self).spec_uuid() == old(self).spec_uuid(),
            final(self).wf(),
            changed == (final(self).spec_apps() != old(self).spec_apps()),
            !changed ==> *final(self) == *old(self),
    {
        let n = self.entries.len();
        let mut order: Vec<usize> = Vec::new();
        let mut k: usize = 0;
        while k < n
            invariant
                k <= n,
                order@ == iota(k as nat),
            decreases n - k,
        {
            order.push(k);
            proof {
                assert(order@ =~= iota((k + 1) as nat));
            }
            k += 1;
        }
        proof {
            assert(forall|t: int| 0 <= t < order@.len() ==> (#[trigger] order@[t]) < n);
        }
        sort_by_rank(&self.entries, &mut order);
        if usize_vec_eq(&order, &self.apps) {
            false
        } else {
            self.apps = order;
            true
        }
    }

    /// Replaces the entry list and re-ranks, unless the new list equals
    /// the current one field by field, which is a no-op. Returns whether
    /// the ranked list changed.
    #[allow(non_snake_case)]
    pub fn setEntries(&mut self, new_entries: Vec<AppEntry>) -> (changed: bool)
        ensures
            entries_like(old(self).spec_entries(), new_entries@) ==> *final(self) == *old(self)
                && !changed,
            !entries_like(old(self).spec_entries(), new_entries@) ==> final(self).spec_entries()
                == new_entries@ && final(self).wf(),
            final(self).spec_uuid() == old(self).spec_uuid(),
    {
        if entries_like_exec(&self.entries, &new_entries) {
            return false;
        }
        self.entries = new_entries;
        self.update_apps()
    }

    /// Records one more launch of the entry with the given identifier: the
    /// first entry whose identifier matches gets its frequency raised by
    /// one (a miss changes nothing), and the list is re-ranked. Returns
    /// whether the ranked list changed. The caller records the same
    /// launch in the persistent store.
    #[allow(non_snake_case)]
    pub fn incrementFrequency(&mut self, id: &String) -> (changed: bool)
        requires
            first_match(old(self).spec_entries(), id@) >= 0 ==> old(self).spec_entries()[first_match(
                old(self).spec_entries(),
                id@,
            )].frequency < u32::MAX,
        ensures
            final(self).spec_uuid() == old(self).spec_uuid(),
            final(self).wf(),
            changed == (final(self).spec_apps() != old(self).spec_apps()),
            first_match(old(self).spec_entries(), id@) == -1 ==> final(self).spec_entries() == old(
                self,
            ).spec_entries(),
            first_match(old(self).spec_entries(), id@) >= 0 ==> final(self).spec_entries() == old(
                self,
            ).spec_entries().update(
                first_match(old(self).spec_entries(), id@),
                (AppEntry {
                    frequency: (old(self).spec_entries()[first_match(
                        old(self).spec_entries(),
                        id@,
                    )].frequency + 1) as u32,
                    ..old(self).spec_entries()[first_match(old(self).spec_entries(), id@)]
                }),
            ),
    {
        let n = self.entries.len();
        let mut k: usize = 0;
        while k < n && !self.entries[k].id.eq(id)
            invariant
                k <= n,
                n == self.entries@.len(),
                forall|t: int| 0 <= t < k ==> self.entries@[t].id@ != id@,
                self == old(self),
            decreases n - k,
        {
            k += 1;
        }
        proof {
            lemma_first_match_at(self.entries@, id@, k as int);
        }
        if k < n {
            let f = self.entries[k].frequency;
            self.entries[k].frequency = f + 1;
        }
        self.update_apps()
    }

    /// Applies the persistent store's recorded launch counts: every
    /// entry's frequency becomes the count its identifier has in `rows`
    /// (zero when none), everything else is kept, and the list is
    /// re-ranked. Returns whether the ranked list changed. The caller
    /// reads `rows` from the store.
    pub fn update_app_frequencies(&mut self, rows: &Vec<FrequencyRow>) -> (changed: bool)
        ensures
            final(self).spec_uuid() == old(self).spec_uuid(),
            final(self).wf(),
            changed == (final(self).spec_apps() != old(self).spec_apps()),
            final(self).spec_entries().len() == old(self).spec_entries().len(),
            forall|t: int|
                0 <= t < old(self).spec_entries().len() ==> final(self).spec_entries()[t] == (
                AppEntry {
                    frequency: row_lookup(rows@, old(self).spec_entries()[t].id@),
                    ..old(self).spec_entries()[t]
                }),
    {
        let n = self.entries.len();
        let m = rows.len();
        let mut i: usize = 0;
        while i < n
            invariant
                i <= n,
                n == self.entries@.len(),
                m == rows@.len(),
                self.entries@.len() == old(self).entries@.len(),
                self.uuid@ == old(self).uuid@,
                self.apps@ == old(self).apps@,
                forall|t: int|
                    0 <= t < i ==> self.entries@[t] == (AppEntry {
                        frequency: row_lookup(rows@, old(self).entries@[t].id@),
                        ..old(self).entries@[t]
                    }),
                forall|t: int| i <= t < n ==> self.entries@[t] == old(self).entries@[t],
            decreases n - i,
        {
            let mut r: usize = 0;
            while r < m && !rows[r].id.eq(&self.entries[i].id)
                invariant
                    r <= m,
                    m == rows@.len(),
                    i < self.entries@.len(),
                    forall|t: int| 0 <= t < r ==> rows@[t].id@ != self.entries@[i as int].id@,
                decreases m - r,
            {
                r += 1;
            }
            proof {
                lemma_row_lookup_at(rows@, self.entries@[i as int].id@, r as int);
            }
            let freq = if r < m {
                rows[r].frequency
            } else {
                0
            };
            self.entries[i].frequency = freq;
            i += 1;
        }
        self.update_apps()
    }
}

impl Default for AppDb {
    /// A fresh store: a newly drawn instance identifier, no entries.
    fn default() -> (db: AppDb)
        ensures
            db.spec_uuid().len() == 36,
            db.spec_entries().len() == 0,
            db.spec_apps().len() == 0,
            db.wf(),
    {
        let db = AppDb { uuid: fresh_uuid(), entries: Vec::new(), apps: Vec::new() };
        proof {
            assert(db.spec_apps().to_multiset() =~= iota(db.spec_entries().len()).to_multiset())
                by {
                assert(db.spec_apps() =~= iota(db.spec_entries().len()));
            }
        }
        db
    }
}

/// Compares two position lists for equality.
fn usize_vec_eq(a: &Vec<usize>, b: &Vec<usize>) -> (r: bool)
    ensures
        r == (a@ == b@),
{
    if a.len() != b.len() {
        proof {
            assert(a@ != b@);
        }
        return false;
    }
    let n = a.len();
    let mut k: usize = 0;
    while k < n
        invariant
            k <= n,
            n == a@.len(),
            n == b@.len(),
            forall|t: int| 0 <= t < k ==> a@[t] == b@[t],
        decreases n - k,
    {
        if a[k] != b[k] {
            proof {
                assert(a@[k as int] != b@[k as int]);
            }
            return false;
        }
        k += 1;
    }
    proof {
        assert(a@ =~= b@);
    }
    true
}

/// Compares two entries field by field.
fn entry_eq_exec(a: &AppEntry, b: &AppEntry) -> (r: bool)
    ensures
        r == entry_eq(*a, *b),
{
    a.id.eq(&b.id) && a.name.eq(&b.name) && a.desc.eq(&b.desc) && a.exec_string.eq(&b.exec_string)
        && a.wm_class.eq(&b.wm_class) && a.generic_name.eq(&b.generic_name) && a.categories.eq(
        &b.categories,
    ) && a.keywords.eq(&b.keywords) && a.frequency == b.frequency
}

/// Compares two entry lists field by field.
fn entries_like_exec(a: &Vec<AppEntry>, b: &Vec<AppEntry>) -> (r: bool)
    ensures
        r == entries_like(a@, b@),
{
    if a.len() != b.len() {
        return false;
    }
    let n = a.len();
    let mut k: usize = 0;
    while k < n
        invariant
            k <= n,
            n == a@.len(),
            n == b@.len(),
            forall|t: int| 0 <= t < k ==> entry_eq(a@[t], b@[t]),
        decreases n - k,
    {
        if !entry_eq_exec(&a[k], &b[k]) {
            return false;
        }
        k += 1;
    }
    true
}

} // verus!
