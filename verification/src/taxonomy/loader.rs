//! The taxonomy database: every documented error, indexed by category and
//! code.

use vstd::prelude::*;
use crate::error::GratResult;
use crate::taxonomy::schema::{ErrorCategory, TaxonomyEntry, TaxonomySchema};

verus! {

/// The view of a taxonomy entry: id, category, code, name, severity,
/// summary, explanation, causes, fixes, related errors.
pub type EntryView = (
    Seq<char>,
    ErrorCategory,
    u32,
    Seq<char>,
    Seq<char>,
    Seq<char>,
    Seq<char>,
    Seq<Seq<char>>,
    Seq<Seq<char>>,
    Seq<Seq<char>>,
);

/// The views of a sequence of strings.
pub open spec fn strings_view(s: Seq<String>) -> Seq<Seq<char>> {
    s.map_values(|t: String| t@)
}

/// The view of an entry.
pub open spec fn entry_view(e: TaxonomyEntry) -> EntryView {
    (
        e.id@,
        e.category,
        e.code,
        e.name@,
        e.severity@,
        e.summary@,
        e.detailed_explanation@,
        strings_view(e.common_causes@),
        strings_view(e.suggested_fixes@),
        strings_view(e.related_errors@),
    )
}

/// The views of a sequence of entries.
pub open spec fn entries_view(s: Seq<TaxonomyEntry>) -> Seq<EntryView> {
    s.map_values(|e: TaxonomyEntry| entry_view(e))
}

/// The position of the entry indexed under `(category, code)`, or -1.
pub open spec fn index_position(idx: Seq<EntryView>, category: ErrorCategory, code: u32) -> int
    decreases idx.len(),
{
    if idx.len() == 0 {
        -1
    } else if idx.last().1 == category && idx.last().2 == code {
        idx.len() - 1
    } else {
        index_position(idx.drop_last(), category, code)
    }
}

/// The index after inserting an entry: it replaces the entry with the same
/// category and code, or is added at the end.
pub open spec fn index_insert(idx: Seq<EntryView>, e: EntryView) -> Seq<EntryView> {
    let p = index_position(idx, e.1, e.2);
    if p >= 0 {
        idx.update(p, e)
    } else {
        idx.push(e)
    }
}

/// The entry indexed under `(category, code)`.
pub open spec fn index_lookup(idx: Seq<EntryView>, category: ErrorCategory, code: u32) -> Option<EntryView> {
    let p = index_position(idx, category, code);
    if p >= 0 {
        Some(idx[p])
    } else {
        None
    }
}

/// No two indexed entries share a category and code.
pub open spec fn index_keys_distinct(idx: Seq<EntryView>) -> bool {
    forall|i: int, j: int|
        0 <= i < j < idx.len() ==> !(#[trigger] idx[i].1 == #[trigger] idx[j].1 && idx[i].2 == idx[j].2)
}

/// The entries of one category, in order.
pub open spec fn category_entries(all: Seq<EntryView>, category: ErrorCategory) -> Seq<EntryView>
    decreases all.len(),
{
    if all.len() == 0 {
        Seq::empty()
    } else {
        let rest = category_entries(all.drop_last(), category);
        if all.last().1 == category {
            rest.push(all.last())
        } else {
            rest
        }
    }
}

proof fn lemma_position_range(idx: Seq<EntryView>, category: ErrorCategory, code: u32)
    ensures
        -1 <= index_position(idx, category, code) < idx.len(),
        index_position(idx, category, code) >= 0 ==> idx[index_position(idx, category, code)].1
            == category && idx[index_position(idx, category, code)].2 == code,
        index_position(idx, category, code) == -1 ==> forall|i: int|
            0 <= i < idx.len() ==> !(#[trigger] idx[i].1 == category && idx[i].2 == code),
    decreases idx.len(),
{
    if idx.len() > 0 {
        lemma_position_range(idx.drop_last(), category, code);
        if index_position(idx, category, code) == -1 {
            assert forall|i: int| 0 <= i < idx.len() implies !(#[trigger] idx[i].1 == category
                && idx[i].2 == code) by {
                if i < idx.len() - 1 {
                    assert(idx.drop_last()[i] == idx[i]);
                }
            }
        }
    }
}

proof fn lemma_position_unique(idx: Seq<EntryView>, i: int)
    requires
        index_keys_distinct(idx),
        0 <= i < idx.len(),
    ensures
        index_position(idx, idx[i].1, idx[i].2) == i,
    decreases idx.len(),
{
    if i < idx.len() - 1 {
        let shorter = idx.drop_last();
        assert(shorter[i] == idx[i]);
        assert forall|a: int, b: int| 0 <= a < b < shorter.len() implies !(#[trigger] shorter[a].1
            == #[trigger] shorter[b].1 && shorter[a].2 == shorter[b].2) by {
            assert(shorter[a] == idx[a] && shorter[b] == idx[b]);
        }
        lemma_position_unique(shorter, i);
    }
}

/// Inserting keeps the keys distinct.
pub proof fn lemma_insert_keeps_keys_distinct(idx: Seq<EntryView>, e: EntryView)
    requires
        index_keys_distinct(idx),
    ensures
        index_keys_distinct(index_insert(idx, e)),
{
    lemma_position_range(idx, e.1, e.2);
    let r = index_insert(idx, e);
    assert forall|i: int, j: int| 0 <= i < j < r.len() implies !(#[trigger] r[i].1 == #[trigger] r[j].1
        && r[i].2 == r[j].2) by {
        if index_position(idx, e.1, e.2) < 0 && j == idx.len() {
            assert(r[j] == e);
            assert(r[i] == idx[i]);
        }
    }
}

/// After an entry is inserted, looking up its category and code gives it
/// back, and every other category and code gives what it gave before.
pub proof fn law_lookup_after_insert(idx: Seq<EntryView>, e: EntryView, category: ErrorCategory, code: u32)
    requires
        index_keys_distinct(idx),
    ensures
        index_lookup(index_insert(idx, e), e.1, e.2) == Some(e),
        !(category == e.1 && code == e.2) ==> index_lookup(index_insert(idx, e), category, code)
            == index_lookup(idx, category, code),
{
    lemma_position_range(idx, e.1, e.2);
    lemma_position_range(idx, category, code);
    lemma_insert_keeps_keys_distinct(idx, e);
    let r = index_insert(idx, e);
    let p = index_position(idx, e.1, e.2);
    let target = if p >= 0 { p } else { idx.len() as int };
    assert(r[target] == e);
    lemma_position_unique(r, target);
    lemma_position_range(r, category, code);
    let q = index_position(idx, category, code);
    if !(category == e.1 && code == e.2) {
        if q >= 0 {
            assert(r[q] == idx[q]);
            lemma_position_unique(r, q);
        } else {
            let rq = index_position(r, category, code);
            if rq >= 0 {
                if rq < idx.len() {
                    assert(r[rq] == idx[rq]);
                }
            }
        }
    }
}

/// Parses taxonomy definitions. Reading the TOML text into a schema is done
/// by the caller; this type names the parser.
pub struct TaxonomyParser;

/// In-memory taxonomy database: an index with one entry per category and
/// code, and every entry loaded, in load order.
pub struct TaxonomyDatabase {
    entries: Vec<TaxonomyEntry>,
    all_entries: Vec<TaxonomyEntry>,
}

/// A copy of a list of strings.
fn clone_strings(s: &Vec<String>) -> (r: Vec<String>)
    ensures
        strings_view(r@) == strings_view(s@),
{
    let mut r: Vec<String> = Vec::new();
    let mut i: usize = 0;
    while i < s.len()
        invariant
            i <= s@.len(),
            strings_view(r@) == strings_view(s@).take(i as int),
        decreases s@.len() - i,
    {
        let ghost prev = r@;
        r.push(s[i].clone());
        assert(strings_view(r@) =~= strings_view(prev).push(s@[i as int]@));
        assert(strings_view(s@).take(i + 1) =~= strings_view(s@).take(i as int).push(s@[i as int]@));
        i = i + 1;
    }
    assert(strings_view(s@).take(i as int) =~= strings_view(s@));
    r
}

/// A copy of an entry.
fn clone_entry(e: &TaxonomyEntry) -> (r: TaxonomyEntry)
    ensures
        entry_view(r) == entry_view(*e),
{
    TaxonomyEntry {
        id: e.id.clone(),
        category: e.category,
        code: e.code,
        name: e.name.clone(),
        severity: e.severity.clone(),
        summary: e.summary.clone(),
        detailed_explanation: e.detailed_explanation.clone(),
        common_causes: clone_strings(&e.common_causes),
        suggested_fixes: clone_strings(&e.suggested_fixes),
        related_errors: clone_strings(&e.related_errors),
    }
}

/// The entries of the schemas that parsed, in order; schemas that failed to
/// parse are skipped.
pub open spec fn parsed_entries(schemas: Seq<GratResult<TaxonomySchema>>) -> Seq<EntryView>
    decreases schemas.len(),
{
    if schemas.len() == 0 {
        Seq::empty()
    } else {
        parsed_entries(schemas.drop_last()) + match schemas.last() {
            Ok(s) => entries_view(s.errors@),
            Err(_) => Seq::empty(),
        }
    }
}

/// The index built by inserting entries in order.
pub open spec fn index_of(entries: Seq<EntryView>) -> Seq<EntryView>
    decreases entries.len(),
{
    if entries.len() == 0 {
        Seq::empty()
    } else {
        index_insert(index_of(entries.drop_last()), entries.last())
    }
}

proof fn lemma_index_of_distinct(entries: Seq<EntryView>)
    ensures
        index_keys_distinct(index_of(entries)),
    decreases entries.len(),
{
    if entries.len() > 0 {
        lemma_index_of_distinct(entries.drop_last());
        lemma_insert_keeps_keys_distinct(index_of(entries.drop_last()), entries.last());
    }
}

/// The category and code of every loaded entry are indexed.
proof fn lemma_index_of_finds(entries: Seq<EntryView>, i: int)
    requires
        0 <= i < entries.len(),
    ensures
        index_lookup(index_of(entries), entries[i].1, entries[i].2) matches Some(x) && x.1 == entries[i].1
            && x.2 == entries[i].2,
    decreases entries.len(),
{
    let d = entries.drop_last();
    let e = entries.last();
    lemma_index_of_distinct(d);
    law_lookup_after_insert(index_of(d), e, entries[i].1, entries[i].2);
    if i < entries.len() - 1 && !(entries[i].1 == e.1 && entries[i].2 == e.2) {
        assert(d[i] == entries[i]);
        lemma_index_of_finds(d, i);
    }
}

/// What the index gives for a category and code is a loaded entry with that
/// category and code.
proof fn lemma_index_of_loaded(entries: Seq<EntryView>, category: ErrorCategory, code: u32)
    ensures
        index_lookup(index_of(entries), category, code) matches Some(x) ==> x.1 == category && x.2 == code
            && entries.contains(x),
    decreases entries.len(),
{
    if entries.len() > 0 {
        let d = entries.drop_last();
        let e = entries.last();
        lemma_index_of_distinct(d);
        law_lookup_after_insert(index_of(d), e, category, code);
        lemma_index_of_loaded(d, category, code);
        if let Some(x) = index_lookup(index_of(entries), category, code) {
            if category == e.1 && code == e.2 {
                assert(entries[entries.len() - 1] == x);
            } else {
                let k = choose|k: int| 0 <= k < d.len() && d[k] == x;
                assert(entries[k] == x);
            }
        }
    }
}

/// A loaded entry of a category is among that category's entries.
proof fn lemma_category_entries_contain(entries: Seq<EntryView>, x: EntryView)
    requires
        entries.contains(x),
    ensures
        category_entries(entries, x.1).contains(x),
    decreases entries.len(),
{
    let d = entries.drop_last();
    if entries.last() == x {
        let c = category_entries(entries, x.1);
        assert(c[c.len() - 1] == x);
    } else {
        let k = choose|k: int| 0 <= k < entries.len() && entries[k] == x;
        assert(k < entries.len() - 1);
        assert(d[k] == x);
        lemma_category_entries_contain(d, x);
        let rest = category_entries(d, x.1);
        let j = choose|j: int| 0 <= j < rest.len() && rest[j] == x;
        assert(category_entries(entries, x.1)[j] == x);
    }
}

/// The position of the entry with this category and code.
fn find_index(entries: &Vec<TaxonomyEntry>, category: ErrorCategory, code: u32) -> (r: Option<usize>)
    ensures
        match r {
            Some(p) => p < entries@.len() && index_position(entries_view(entries@), category, code) == p,
            None => index_position(entries_view(entries@), category, code) == -1,
        },
{
    let ghost idx = entries_view(entries@);
    let mut i: usize = entries.len();
    assert(idx.take(i as int) =~= idx);
    while i > 0
        invariant
            i <= entries@.len(),
            idx == entries_view(entries@),
            index_position(idx, category, code) == index_position(idx.take(i as int), category, code),
        decreases i,
    {
        proof {
            assert(idx.take(i as int).drop_last() =~= idx.take(i - 1));
        }
        if entries[i - 1].category == category && entries[i - 1].code == code {
            return Some(i - 1);
        }
        i = i - 1;
    }
    None
}

impl TaxonomyDatabase {
    /// The index: one entry per category and code.
    pub closed spec fn index(&self) -> Seq<EntryView> {
        entries_view(self.entries@)
    }

    /// Every entry loaded, in load order.
    pub closed spec fn all(&self) -> Seq<EntryView> {
        entries_view(self.all_entries@)
    }

    /// The index holds the last entry loaded for each category and code.
    pub closed spec fn wf(&self) -> bool {
        self.index() == index_of(self.all())
    }

    /// Every loaded entry is found by `lookup` under its category and code,
    /// which gives the last entry loaded with them.
    pub proof fn law_loaded_entries_are_found(&self)
        requires
            self.wf(),
        ensures
            forall|i: int|
                0 <= i < self.all().len() ==> (index_lookup(self.index(), (#[trigger] self.all()[i]).1, self.all()[i].2)
                    matches Some(x) && x.1 == self.all()[i].1 && x.2 == self.all()[i].2),
    {
        assert forall|i: int| 0 <= i < self.all().len() implies (index_lookup(self.index(), (#[trigger] self.all()[i]).1, self.all()[i].2)
            matches Some(x) && x.1 == self.all()[i].1 && x.2 == self.all()[i].2) by {
            lemma_index_of_finds(self.all(), i);
        }
    }

    /// What `lookup` finds under a category and code is a loaded entry with
    /// that category and code, and `entries_for_category` lists it.
    pub proof fn law_lookup_is_listed(&self, category: ErrorCategory, code: u32)
        requires
            self.wf(),
        ensures
            index_lookup(self.index(), category, code) matches Some(x) ==> x.1 == category && x.2 == code
                && self.all().contains(x) && category_entries(self.all(), category).contains(x),
    {
        lemma_index_of_loaded(self.all(), category, code);
        if let Some(x) = index_lookup(self.index(), category, code) {
            lemma_category_entries_contain(self.all(), x);
        }
    }

    /// An empty database.
    pub fn new() -> (db: Self)
        ensures
            db.wf(),
            db.all().len() == 0,
            db.index().len() == 0,
    {
        let db = TaxonomyDatabase { entries: Vec::new(), all_entries: Vec::new() };
        assert(db.index() =~= Seq::<EntryView>::empty());
        assert(db.all() =~= Seq::<EntryView>::empty());
        db
    }

    /// Adds an entry: it replaces the indexed entry with the same category
    /// and code, and is appended to the list of all entries.
    pub fn insert(&mut self, entry: TaxonomyEntry)
        requires
            old(self).wf(),
        ensures
            final(self).wf(),
            final(self).all() == old(self).all().push(entry_view(entry)),
            final(self).index() == index_insert(old(self).index(), entry_view(entry)),
    {
        let ghost old_all = self.all();
        let ghost old_index = self.index();
        let copy = clone_entry(&entry);
        let found = find_index(&self.entries, entry.category, entry.code);
        match found {
            Some(p) => {
                self.entries.set(p, copy);
                assert(self.index() =~= old_index.update(p as int, entry_view(entry)));
            },
            None => {
                self.entries.push(copy);
                assert(self.index() =~= old_index.push(entry_view(entry)));
            },
        }
        self.all_entries.push(entry);
        assert(self.all() =~= old_all.push(entry_view(entry)));
        assert(self.all().drop_last() =~= old_all);
        assert(index_of(self.all()) == index_insert(index_of(old_all), entry_view(entry)));
    }

    /// Builds the database from the embedded taxonomy files, each already
    /// parsed; a file that failed to parse is skipped.
    pub fn load_embedded(schemas: Vec<GratResult<TaxonomySchema>>) -> (r: GratResult<Self>)
        ensures
            r matches Ok(db) && db.wf() && db.all() == parsed_entries(schemas@),
    {
        let ghost sv = schemas@;
        let mut db = TaxonomyDatabase::new();
        let mut i: usize = 0;
        while i < schemas.len()
            invariant
                i <= sv.len(),
                sv == schemas@,
                db.wf(),
                db.all() == parsed_entries(sv.take(i as int)),
            decreases sv.len() - i,
        {
            proof {
                assert(sv.take(i + 1).drop_last() =~= sv.take(i as int));
            }
            match &schemas[i] {
                Ok(schema) => {
                    let ghost start = db.all();
                    let ghost ev = entries_view(schema.errors@);
                    let mut j: usize = 0;
                    while j < schema.errors.len()
                        invariant
                            j <= ev.len(),
                            ev == entries_view(schema.errors@),
                            db.wf(),
                            db.all() == start + ev.take(j as int),
                        decreases ev.len() - j,
                    {
                        let e = clone_entry(&schema.errors[j]);
                        db.insert(e);
                        assert(db.all() =~= start + ev.take(j + 1));
                        j = j + 1;
                    }
                    assert(ev.take(j as int) =~= ev);
                },
                Err(_) => {
                    assert(parsed_entries(sv.take(i + 1)) =~= parsed_entries(sv.take(i as int)));
                },
            }
            i = i + 1;
        }
        assert(sv.take(i as int) =~= sv);
        Ok(db)
    }

    /// The entry indexed under a category and code.
    pub fn lookup(&self, category: &ErrorCategory, code: u32) -> (r: Option<&TaxonomyEntry>)
        requires
            self.wf(),
        ensures
            match r {
                Some(e) => index_lookup(self.index(), *category, code) == Some(entry_view(*e)),
                None => index_lookup(self.index(), *category, code) is None,
            },
    {
        match find_index(&self.entries, *category, code) {
            Some(p) => Some(&self.entries[p]),
            None => None,
        }
    }

    /// The entries of a category, in load order.
    pub fn entries_for_category(&self, category: &ErrorCategory) -> (r: Vec<&TaxonomyEntry>)
        ensures
            r@.map_values(|e: &TaxonomyEntry| entry_view(*e)) == category_entries(self.all(), *category),
    {
        let ghost all = self.all();
        let mut r: Vec<&TaxonomyEntry> = Vec::new();
        let mut i: usize = 0;
        while i < self.all_entries.len()
            invariant
                i <= self.all_entries@.len(),
                all == self.all(),
                all == entries_view(self.all_entries@),
                r@.map_values(|e: &TaxonomyEntry| entry_view(*e)) == category_entries(all.take(i as int), *category),
            decreases self.all_entries@.len() - i,
        {
            let e = &self.all_entries[i];
            proof {
                assert(all.take(i + 1).drop_last() =~= all.take(i as int));
            }
            if e.category == *category {
                let ghost prev = r@;
                r.push(e);
                assert(r@.map_values(|e: &TaxonomyEntry| entry_view(*e)) =~= prev.map_values(
                    |e: &TaxonomyEntry| entry_view(*e),
                ).push(entry_view(*e)));
            }
            i = i + 1;
        }
        assert(all.take(i as int) =~= all);
        r
    }

    /// The number of indexed entries: one per category and code.
    pub fn len(&self) -> (n: usize)
        ensures
            n == self.index().len(),
    {
        self.entries.len()
    }

    /// Whether no entry is indexed.
    pub fn is_empty(&self) -> (b: bool)
        ensures
            b == (self.index().len() == 0),
    {
        self.entries.len() == 0
    }
}

} // verus!
