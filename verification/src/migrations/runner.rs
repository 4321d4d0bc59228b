//! The migration runner's pure logic.
//!
//! Everything here computes: the statement splitter, the applied/pending/
//! missing diff, checksum verification, and the dialect-specific DDL text.
//! The caller performs the database I/O (executing statements, fetching the
//! applied rows, inserting and deleting tracking rows) and feeds the results
//! back into these functions.

use vstd::prelude::*;

use crate::error::CliError;
use crate::migrations::{
    AppliedMigration, AppliedMigrationView, Migration, MigrationState, MigrationView,
};
use crate::text::{
    chars_of, join_lines, join_lines_from, spec_lines, spec_split_on, spec_trim, split_lines,
    split_on_semi, string_from_chars, trim_chars,
};

verus! {

// ---------------------------------------------------------------------------
// Statement splitter
// ---------------------------------------------------------------------------

/// A line that the comment stripper skips over: blank, or a full-line
/// comment (its trimmed form begins with the line-comment marker `--`).
pub open spec fn is_ignorable_line(l: Seq<char>) -> bool {
    let t = spec_trim(l);
    t.len() == 0 || (t.len() >= 2 && t[0] == '-' && t[1] == '-')
}

fn is_ignorable(line: &Vec<char>) -> (r: bool)
    ensures
        r == is_ignorable_line(line@),
{
    let t = trim_chars(line);
    if t.len() == 0 {
        true
    } else if t.len() >= 2 {
        let a = t[0];
        let b = t[1];
        a == '-' && b == '-'
    } else {
        false
    }
}

/// The lines with every leading ignorable line removed, stopping at the
/// first line that is neither blank nor a full-line comment.
pub open spec fn drop_leading_ignorable(ls: Seq<Seq<char>>) -> Seq<Seq<char>>
    decreases ls.len(),
{
    if ls.len() > 0 && is_ignorable_line(ls[0]) {
        drop_leading_ignorable(ls.drop_first())
    } else {
        ls
    }
}

proof fn lemma_drop_leading_skip(ls: Seq<Seq<char>>, i: int)
    requires
        0 <= i <= ls.len(),
        forall|k: int| 0 <= k < i ==> is_ignorable_line(ls[k]),
        i == ls.len() || !is_ignorable_line(ls[i]),
    ensures
        drop_leading_ignorable(ls) == ls.skip(i),
    decreases i,
{
    if i == 0 {
        assert(ls.skip(0) =~= ls);
    } else {
        lemma_drop_leading_skip(ls.drop_first(), i - 1);
        assert(ls.drop_first().skip(i - 1) =~= ls.skip(i));
    }
}

/// What stripping leading comments from a text yields: the text's lines with
/// leading blank and full-line-comment lines removed, joined back together,
/// and trimmed.  Comments after the first real line, including inline
/// trailing comments, are preserved.
pub open spec fn spec_strip_leading_comments(s: Seq<char>) -> Seq<char> {
    spec_trim(join_lines(drop_leading_ignorable(spec_lines(s))))
}

fn strip_leading_comments_chars(v: &Vec<char>) -> (r: Vec<char>)
    ensures
        r@ == spec_strip_leading_comments(v@),
{
    let lines = split_lines(v);
    let ghost dv = lines.deep_view();
    let mut idx: usize = 0;
    while idx < lines.len() && is_ignorable(&lines[idx])
        invariant
            idx <= lines@.len(),
            dv == lines.deep_view(),
            dv == spec_lines(v@),
            dv.len() == lines@.len(),
            forall|k: int| 0 <= k < idx ==> is_ignorable_line(#[trigger] dv[k]),
        decreases lines@.len() - idx,
    {
        proof {
            assert(dv[idx as int] =~= lines@[idx as int]@);
        }
        idx = idx + 1;
    }
    proof {
        if idx < lines.len() {
            assert(dv[idx as int] =~= lines@[idx as int]@);
        }
        lemma_drop_leading_skip(dv, idx as int);
    }
    let joined = join_lines_from(&lines, idx);
    trim_chars(&joined)
}

/// Strips leading full-line comments from a SQL statement.  Blank lines and
/// lines whose trimmed form begins with `--` are dropped from the front;
/// everything from the first real line on is kept verbatim (inline trailing
/// comments included), and the result is trimmed.
pub fn strip_leading_comments(sql: &str) -> (r: String)
    ensures
        r@ == spec_strip_leading_comments(sql@),
{
    let v = chars_of(sql);
    let out = strip_leading_comments_chars(&v);
    string_from_chars(&out)
}

/// The executable statement a raw piece between separators contributes:
/// trimmed, then stripped of leading full-line comments.
pub open spec fn statement_of(p: Seq<char>) -> Seq<char> {
    spec_strip_leading_comments(spec_trim(p))
}

/// The executable statements of a multi-statement SQL text: the pieces
/// between semicolons, each trimmed and stripped of leading comments, with
/// the pieces that end up empty discarded.  Statement order is preserved.
/// The split is textual: a semicolon inside a string literal is treated as a
/// terminator all the same, a documented limitation.
pub open spec fn spec_split_statements(s: Seq<char>) -> Seq<Seq<char>> {
    spec_split_on(s, ';').map_values(|p: Seq<char>| statement_of(p)).filter(
        |u: Seq<char>| u.len() > 0,
    )
}

/// Splits a SQL text into its individually executable statements.
pub fn split_statements(sql: &str) -> (r: Vec<String>)
    ensures
        r.deep_view() == spec_split_statements(sql@),
{
    let v = chars_of(sql);
    let pieces = split_on_semi(&v);
    let ghost mp = pieces.deep_view().map_values(|p: Seq<char>| statement_of(p));
    let mut out: Vec<String> = Vec::new();
    proof {
        assert(out.deep_view() =~~= mp.take(0).filter(|u: Seq<char>| u.len() > 0));
    }
    let mut i: usize = 0;
    while i < pieces.len()
        invariant
            i <= pieces@.len(),
            v@ == sql@,
            pieces.deep_view() == spec_split_on(v@, ';'),
            pieces.deep_view().len() == pieces@.len(),
            mp == pieces.deep_view().map_values(|p: Seq<char>| statement_of(p)),
            out.deep_view() == mp.take(i as int).filter(|u: Seq<char>| u.len() > 0),
        decreases pieces@.len() - i,
    {
        let t = trim_chars(&pieces[i]);
        let u = strip_leading_comments_chars(&t);
        let ghost prev = out.deep_view();
        proof {
            assert(pieces.deep_view()[i as int] =~= pieces@[i as int]@);
            assert(u@ == statement_of(pieces.deep_view()[i as int]));
            assert(mp[i as int] == u@);
            assert(mp.take(i + 1) =~= mp.take(i as int).push(mp[i as int]));
            mp.take(i as int).lemma_filter_push(mp[i as int], |u: Seq<char>| u.len() > 0);
        }
        if u.len() > 0 {
            let s = string_from_chars(&u);
            out.push(s);
            proof {
                assert(out.deep_view() =~~= prev.push(u@));
            }
        }
        i = i + 1;
    }
    proof {
        assert(mp.take(pieces@.len() as int) =~= mp);
    }
    out
}

// ---------------------------------------------------------------------------
// Versions, order, membership
// ---------------------------------------------------------------------------

/// Versions in a catalog are strictly increasing in catalog order.
pub open spec fn catalog_versions_sorted(c: Seq<MigrationView>) -> bool {
    forall|i: int, j: int| 0 <= i < j < c.len() ==> c[i].version < c[j].version
}

/// Versions of the applied rows are strictly increasing, as the tracking
/// table's primary key and `ORDER BY version` guarantee.
pub open spec fn applied_versions_sorted(a: Seq<AppliedMigrationView>) -> bool {
    forall|i: int, j: int| 0 <= i < j < a.len() ==> a[i].version < a[j].version
}

/// Versions in a catalog are pairwise distinct.
pub open spec fn catalog_versions_unique(c: Seq<MigrationView>) -> bool {
    forall|i: int, j: int| 0 <= i < j < c.len() ==> c[i].version != c[j].version
}

/// Some catalog entry carries version `v`.
pub open spec fn catalog_has_version(c: Seq<MigrationView>, v: u32) -> bool {
    exists|i: int| 0 <= i < c.len() && c[i].version == v
}

/// Some applied row carries version `v`.
pub open spec fn applied_has_version(a: Seq<AppliedMigrationView>, v: u32) -> bool {
    exists|i: int| 0 <= i < a.len() && a[i].version == v
}

fn applied_contains_version(applied: &Vec<AppliedMigration>, v: u32) -> (r: bool)
    ensures
        r == applied_has_version(applied.deep_view(), v),
{
    let ghost ad = applied.deep_view();
    let mut i: usize = 0;
    while i < applied.len()
        invariant
            i <= applied@.len(),
            ad == applied.deep_view(),
            ad.len() == applied@.len(),
            forall|k: int| 0 <= k < i ==> ad[k].version != v,
        decreases applied@.len() - i,
    {
        if applied[i].version == v {
            assert(ad[i as int].version == v);
            return true;
        }
        i = i + 1;
    }
    false
}

// ---------------------------------------------------------------------------
// Pending migrations
// ---------------------------------------------------------------------------

/// The catalog entries whose version has not been applied, in catalog order.
pub open spec fn spec_pending(
    c: Seq<MigrationView>,
    a: Seq<AppliedMigrationView>,
) -> Seq<MigrationView> {
    c.filter(|m: MigrationView| !applied_has_version(a, m.version))
}

/// The migrations of the catalog that are not yet applied, in catalog order.
pub fn get_pending_migrations(available: &Vec<Migration>, applied: &Vec<AppliedMigration>) -> (r:
    Vec<Migration>)
    ensures
        r.deep_view() == spec_pending(available.deep_view(), applied.deep_view()),
{
    let ghost cd = available.deep_view();
    let ghost ad = applied.deep_view();
    let mut out: Vec<Migration> = Vec::new();
    proof {
        assert(out.deep_view() =~~= cd.take(0).filter(
            |m: MigrationView| !applied_has_version(ad, m.version),
        ));
    }
    let mut i: usize = 0;
    while i < available.len()
        invariant
            i <= available@.len(),
            cd == available.deep_view(),
            ad == applied.deep_view(),
            cd.len() == available@.len(),
            out.deep_view() == cd.take(i as int).filter(
                |m: MigrationView| !applied_has_version(ad, m.version),
            ),
        decreases available@.len() - i,
    {
        let ghost prev = out.deep_view();
        proof {
            assert(cd.take(i + 1) =~= cd.take(i as int).push(cd[i as int]));
            cd.take(i as int).lemma_filter_push(
                cd[i as int],
                |m: MigrationView| !applied_has_version(ad, m.version),
            );
        }
        let keep = !applied_contains_version(applied, available[i].version);
        if keep {
            let m = available[i].clone();
            out.push(m);
            proof {
                assert(cd[i as int].version == available@[i as int]@.version);
                assert(out.deep_view() =~~= prev.push(cd[i as int]));
            }
        }
        i = i + 1;
    }
    proof {
        assert(cd.take(available@.len() as int) =~= cd);
    }
    out
}

// ---------------------------------------------------------------------------
// The three-way status diff
// ---------------------------------------------------------------------------

/// One row of the migration status report.
pub struct MigrationStatus {
    pub version: u32,
    pub name: String,
    pub state: MigrationState,
    /// Epoch seconds at application time, for rows that were applied.
    pub applied_at: Option<i64>,
}

/// The mathematical value of a `MigrationStatus`.
pub ghost struct MigrationStatusView {
    pub version: u32,
    pub name: Seq<char>,
    pub state: MigrationState,
    pub applied_at: Option<i64>,
}

impl View for MigrationStatus {
    type V = MigrationStatusView;

    open spec fn view(&self) -> MigrationStatusView {
        MigrationStatusView {
            version: self.version,
            name: self.name@,
            state: self.state,
            applied_at: self.applied_at,
        }
    }
}

impl DeepView for MigrationStatus {
    type V = MigrationStatusView;

    open spec fn deep_view(&self) -> MigrationStatusView {
        self.view()
    }
}

/// The row for a catalog entry that has been applied: named by the catalog,
/// timestamped by the tracking table.
pub open spec fn applied_row(m: MigrationView, a: AppliedMigrationView) -> MigrationStatusView {
    MigrationStatusView {
        version: m.version,
        name: m.name,
        state: MigrationState::Applied,
        applied_at: Some(a.applied_at),
    }
}

/// The row for a catalog entry that is not yet applied.
pub open spec fn pending_row(m: MigrationView) -> MigrationStatusView {
    MigrationStatusView {
        version: m.version,
        name: m.name,
        state: MigrationState::Pending,
        applied_at: None,
    }
}

/// The row for an applied version that the catalog no longer holds.
pub open spec fn missing_row(a: AppliedMigrationView) -> MigrationStatusView {
    MigrationStatusView {
        version: a.version,
        name: a.name,
        state: MigrationState::Missing,
        applied_at: Some(a.applied_at),
    }
}

/// The status report: catalog and applied rows merged by version.  A version
/// in both is Applied; only in the catalog, Pending; only applied, Missing.
/// Inputs sorted by version yield a report sorted by version.
pub open spec fn spec_diff(
    c: Seq<MigrationView>,
    a: Seq<AppliedMigrationView>,
) -> Seq<MigrationStatusView>
    decreases c.len() + a.len(),
{
    if c.len() == 0 && a.len() == 0 {
        Seq::empty()
    } else if c.len() > 0 && (a.len() == 0 || c[0].version < a[0].version) {
        seq![pending_row(c[0])] + spec_diff(c.drop_first(), a)
    } else if a.len() > 0 && (c.len() == 0 || a[0].version < c[0].version) {
        seq![missing_row(a[0])] + spec_diff(c, a.drop_first())
    } else {
        seq![applied_row(c[0], a[0])] + spec_diff(c.drop_first(), a.drop_first())
    }
}

/// The status of every migration: one row per version of the catalog or of
/// the tracking table, merge-sorted by version.
pub fn get_migration_status(available: &Vec<Migration>, applied: &Vec<AppliedMigration>) -> (r:
    Vec<MigrationStatus>)
    requires
        catalog_versions_sorted(available.deep_view()),
        applied_versions_sorted(applied.deep_view()),
    ensures
        r.deep_view() == spec_diff(available.deep_view(), applied.deep_view()),
{
    let ghost cd = available.deep_view();
    let ghost ad = applied.deep_view();
    let mut out: Vec<MigrationStatus> = Vec::new();
    proof {
        assert(cd.skip(0) =~= cd);
        assert(ad.skip(0) =~= ad);
        assert(out.deep_view() + spec_diff(cd.skip(0), ad.skip(0)) =~~= spec_diff(cd, ad));
    }
    let mut i: usize = 0;
    let mut j: usize = 0;
    while i < available.len() || j < applied.len()
        invariant
            i <= available@.len(),
            j <= applied@.len(),
            cd == available.deep_view(),
            ad == applied.deep_view(),
            cd.len() == available@.len(),
            ad.len() == applied@.len(),
            spec_diff(cd, ad) == out.deep_view() + spec_diff(
                cd.skip(i as int),
                ad.skip(j as int),
            ),
        decreases available@.len() - i + applied@.len() - j,
    {
        let ghost crest = cd.skip(i as int);
        let ghost arest = ad.skip(j as int);
        let ghost prev = out.deep_view();
        if j >= applied.len() || (i < available.len() && available[i].version
            < applied[j].version) {
            let m = &available[i];
            out.push(
                MigrationStatus {
                    version: m.version,
                    name: m.name.clone(),
                    state: MigrationState::Pending,
                    applied_at: None,
                },
            );
            i = i + 1;
            proof {
                assert(crest[0] == cd[i - 1]);
                assert(crest.drop_first() =~= cd.skip(i as int));
                assert(spec_diff(crest, arest) == seq![pending_row(crest[0])] + spec_diff(
                    crest.drop_first(),
                    arest,
                ));
                assert(out.deep_view() =~~= prev.push(pending_row(crest[0])));
                assert(out.deep_view() + spec_diff(cd.skip(i as int), arest) =~~= prev
                    + spec_diff(crest, arest));
            }
        } else if i >= available.len() || applied[j].version < available[i].version {
            let a = &applied[j];
            out.push(
                MigrationStatus {
                    version: a.version,
                    name: a.name.clone(),
                    state: MigrationState::Missing,
                    applied_at: Some(a.applied_at),
                },
            );
            j = j + 1;
            proof {
                assert(arest[0] == ad[j - 1]);
                assert(arest.drop_first() =~= ad.skip(j as int));
                assert(spec_diff(crest, arest) == seq![missing_row(arest[0])] + spec_diff(
                    crest,
                    arest.drop_first(),
                ));
                assert(out.deep_view() =~~= prev.push(missing_row(arest[0])));
                assert(out.deep_view() + spec_diff(crest, ad.skip(j as int)) =~~= prev
                    + spec_diff(crest, arest));
            }
        } else {
            let m = &available[i];
            let a = &applied[j];
            out.push(
                MigrationStatus {
                    version: m.version,
                    name: m.name.clone(),
                    state: MigrationState::Applied,
                    applied_at: Some(a.applied_at),
                },
            );
            i = i + 1;
            j = j + 1;
            proof {
                assert(crest[0] == cd[i - 1]);
                assert(arest[0] == ad[j - 1]);
                assert(crest.drop_first() =~= cd.skip(i as int));
                assert(arest.drop_first() =~= ad.skip(j as int));
                assert(spec_diff(crest, arest) == seq![applied_row(crest[0], arest[0])]
                    + spec_diff(crest.drop_first(), arest.drop_first()));
                assert(out.deep_view() =~~= prev.push(applied_row(crest[0], arest[0])));
                assert(out.deep_view() + spec_diff(cd.skip(i as int), ad.skip(j as int)) =~~= prev
                    + spec_diff(crest, arest));
            }
        }
    }
    proof {
        assert(cd.skip(i as int).len() == 0);
        assert(ad.skip(j as int).len() == 0);
        assert(spec_diff(cd.skip(i as int), ad.skip(j as int)) == Seq::<
            MigrationStatusView,
        >::empty());
        assert(out.deep_view() =~~= spec_diff(cd, ad));
    }
    out
}

// ---------------------------------------------------------------------------
// Checksum verification
// ---------------------------------------------------------------------------

/// The first `upto` applied rows agree with the catalog: wherever a catalog
/// entry and one of those rows share a version, their checksums coincide.
pub open spec fn checksums_agree(
    c: Seq<MigrationView>,
    a: Seq<AppliedMigrationView>,
    upto: int,
) -> bool {
    forall|k: int, l: int|
        #![auto]
        0 <= k < upto && 0 <= l < c.len() && c[l].version == a[k].version ==> c[l].checksum
            == a[k].checksum
}

/// Compares the recorded checksum of every applied migration that the
/// catalog still holds against the catalog's current checksum for the same
/// version.  Succeeds exactly when they all agree; otherwise reports the
/// first disagreement, naming the version, the recorded digest and the
/// catalog's digest.  Applied versions absent from the catalog are not
/// checked: there is nothing to compare them against.
pub fn verify_checksums(available: &Vec<Migration>, applied: &Vec<AppliedMigration>) -> (r: Result<
    (),
    CliError,
>)
    requires
        catalog_versions_unique(available.deep_view()),
    ensures
        r is Ok <==> checksums_agree(
            available.deep_view(),
            applied.deep_view(),
            applied.deep_view().len() as int,
        ),
        r matches Err(e) ==> e matches CliError::ChecksumMismatch { version, expected, actual }
            && exists|k: int, l: int|
            #![auto]
            {
                &&& 0 <= k < applied.deep_view().len()
                &&& 0 <= l < available.deep_view().len()
                &&& available.deep_view()[l].version == applied.deep_view()[k].version
                &&& available.deep_view()[l].checksum != applied.deep_view()[k].checksum
                &&& version == applied.deep_view()[k].version
                &&& expected@ == applied.deep_view()[k].checksum
                &&& actual@ == available.deep_view()[l].checksum
                &&& checksums_agree(available.deep_view(), applied.deep_view(), k)
            },
{
    let ghost cd = available.deep_view();
    let ghost ad = applied.deep_view();
    let mut i: usize = 0;
    while i < applied.len()
        invariant
            i <= applied@.len(),
            cd == available.deep_view(),
            ad == applied.deep_view(),
            cd.len() == available@.len(),
            ad.len() == applied@.len(),
            checksums_agree(cd, ad, i as int),
        decreases applied@.len() - i,
    {
        let mut l: usize = 0;
        while l < available.len()
            invariant
                l <= available@.len(),
                i < applied@.len(),
                cd == available.deep_view(),
                ad == applied.deep_view(),
                cd.len() == available@.len(),
                ad.len() == applied@.len(),
                checksums_agree(cd, ad, i as int),
                forall|t: int|
                    #![auto]
                    0 <= t < l && cd[t].version == ad[i as int].version ==> cd[t].checksum
                        == ad[i as int].checksum,
            decreases available@.len() - l,
        {
            if available[l].version == applied[i].version {
                let same = available[l].checksum == applied[i].checksum;
                if !same {
                    let e = CliError::ChecksumMismatch {
                        version: applied[i].version,
                        expected: applied[i].checksum.clone(),
                        actual: available[l].checksum.clone(),
                    };
                    proof {
                        assert(cd[l as int].version == ad[i as int].version);
                        assert(cd[l as int].checksum != ad[i as int].checksum);
                        assert(!checksums_agree(cd, ad, ad.len() as int));
                    }
                    return Err(e);
                }
            }
            l = l + 1;
        }
        i = i + 1;
    }
    Ok(())
}

// ---------------------------------------------------------------------------
// Recording an application
// ---------------------------------------------------------------------------

/// The tracking row that a successful application of `migration` at epoch
/// time `now` inserts: same version, name and checksum, timestamped `now`.
pub fn applied_record(migration: &Migration, now: i64) -> (r: AppliedMigration)
    ensures
        r@.version == migration@.version,
        r@.name == migration@.name,
        r@.applied_at == now,
        r@.checksum == migration@.checksum,
{
    AppliedMigration {
        version: migration.version,
        name: migration.name.clone(),
        applied_at: now,
        checksum: migration.checksum.clone(),
    }
}

// ---------------------------------------------------------------------------
// Laws
// ---------------------------------------------------------------------------

/// Applying the full pending queue is idempotent: once the tracking table
/// holds exactly the old applied versions plus every version that was
/// pending, recomputing pending against the same catalog yields nothing.
pub proof fn lemma_apply_pending_idempotent(
    c: Seq<MigrationView>,
    a: Seq<AppliedMigrationView>,
    a2: Seq<AppliedMigrationView>,
)
    requires
        forall|v: u32|
            #[trigger] applied_has_version(a2, v) <==> applied_has_version(a, v)
                || catalog_has_version(spec_pending(c, a), v),
    ensures
        spec_pending(c, a2).len() == 0,
{
    let pred = |m: MigrationView| !applied_has_version(a2, m.version);
    assert forall|i: int| 0 <= i < c.len() implies !pred(c[i]) by {
        let m = c[i];
        if !applied_has_version(a, m.version) {
            let inner = |m: MigrationView| !applied_has_version(a, m.version);
            c.lemma_filter_contains(inner, i);
            let p = spec_pending(c, a);
            assert(p.contains(m));
            let k = choose|k: int| 0 <= k < p.len() && p[k] == m;
            assert(catalog_has_version(p, m.version));
        }
        assert(applied_has_version(a2, m.version));
    }
    assert(c.all(|x: MigrationView| !pred(x)));
    c.lemma_all_neg_filter_empty(pred);
}

/// Pending migrations come out in ascending version order: filtering the
/// catalog preserves its order, so a sorted catalog yields a sorted queue.
pub proof fn lemma_pending_sorted(c: Seq<MigrationView>, a: Seq<AppliedMigrationView>)
    requires
        catalog_versions_sorted(c),
    ensures
        catalog_versions_sorted(spec_pending(c, a)),
    decreases c.len(),
{
    reveal(Seq::filter);
    let pred = |m: MigrationView| !applied_has_version(a, m.version);
    if c.len() > 0 {
        let c0 = c.drop_last();
        assert(catalog_versions_sorted(c0));
        lemma_pending_sorted(c0, a);
        let f0 = c0.filter(pred);
        if pred(c.last()) {
            assert(c.filter(pred) == f0.push(c.last()));
            assert forall|k: int| 0 <= k < f0.len() implies f0[k].version < c.last().version by {
                assert(f0.contains(f0[k]));
                c0.lemma_filter_contains_rev(pred, f0[k]);
                let i = choose|i: int| 0 <= i < c0.len() && c0[i] == f0[k];
                assert(c[i] == c0[i]);
                assert(c[i].version < c[c.len() - 1].version);
            }
            assert forall|i: int, j: int|
                0 <= i < j < f0.push(c.last()).len() implies f0.push(c.last())[i].version < f0.push(
                c.last(),
            )[j].version by {
                if j < f0.len() {
                    assert(f0.push(c.last())[i] == f0[i]);
                    assert(f0.push(c.last())[j] == f0[j]);
                } else {
                    assert(f0.push(c.last())[i] == f0[i]);
                    assert(f0.push(c.last())[j] == c.last());
                }
            }
        } else {
            assert(c.filter(pred) == f0);
        }
    }
}

/// Some status row carries version `v`.
pub open spec fn diff_has_version(rs: Seq<MigrationStatusView>, v: u32) -> bool {
    exists|i: int| 0 <= i < rs.len() && rs[i].version == v
}

proof fn lemma_catalog_cons(c: Seq<MigrationView>, v: u32)
    requires
        c.len() > 0,
    ensures
        catalog_has_version(c, v) <==> (c[0].version == v || catalog_has_version(
            c.drop_first(),
            v,
        )),
{
    if catalog_has_version(c, v) {
        let i = choose|i: int| 0 <= i < c.len() && c[i].version == v;
        if i > 0 {
            assert(c.drop_first()[i - 1].version == v);
        }
    }
    if catalog_has_version(c.drop_first(), v) {
        let i = choose|i: int| 0 <= i < c.drop_first().len() && c.drop_first()[i].version == v;
        assert(c[i + 1].version == v);
    }
}

proof fn lemma_applied_cons(a: Seq<AppliedMigrationView>, v: u32)
    requires
        a.len() > 0,
    ensures
        applied_has_version(a, v) <==> (a[0].version == v || applied_has_version(
            a.drop_first(),
            v,
        )),
{
    if applied_has_version(a, v) {
        let i = choose|i: int| 0 <= i < a.len() && a[i].version == v;
        if i > 0 {
            assert(a.drop_first()[i - 1].version == v);
        }
    }
    if applied_has_version(a.drop_first(), v) {
        let i = choose|i: int| 0 <= i < a.drop_first().len() && a.drop_first()[i].version == v;
        assert(a[i + 1].version == v);
    }
}

/// Diff completeness, first half: a version appears in the status report
/// exactly when the catalog holds it or the tracking table holds it.
pub proof fn lemma_diff_versions(c: Seq<MigrationView>, a: Seq<AppliedMigrationView>)
    ensures
        forall|v: u32|
            #[trigger] diff_has_version(spec_diff(c, a), v) <==> (catalog_has_version(c, v)
                || applied_has_version(a, v)),
    decreases c.len() + a.len(),
{
    let d = spec_diff(c, a);
    if c.len() == 0 && a.len() == 0 {
        assert forall|v: u32|
            #[trigger] diff_has_version(d, v) <==> (catalog_has_version(c, v)
                || applied_has_version(a, v)) by {}
    } else if c.len() > 0 && (a.len() == 0 || c[0].version < a[0].version) {
        let c2 = c.drop_first();
        lemma_diff_versions(c2, a);
        let d2 = spec_diff(c2, a);
        assert forall|v: u32|
            #[trigger] diff_has_version(d, v) <==> (catalog_has_version(c, v)
                || applied_has_version(a, v)) by {
            lemma_catalog_cons(c, v);
            if diff_has_version(d, v) {
                let k = choose|k: int| 0 <= k < d.len() && d[k].version == v;
                if k == 0 {
                    assert(c[0].version == v);
                } else {
                    assert(d2[k - 1].version == v);
                    assert(diff_has_version(d2, v));
                }
            }
            if catalog_has_version(c, v) || applied_has_version(a, v) {
                if c[0].version == v {
                    assert(d[0].version == v);
                    assert(diff_has_version(d, v));
                } else {
                    assert(diff_has_version(d2, v));
                    let k = choose|k: int| 0 <= k < d2.len() && d2[k].version == v;
                    assert(d[k + 1].version == v);
                    assert(diff_has_version(d, v));
                }
            }
        }
    } else if a.len() > 0 && (c.len() == 0 || a[0].version < c[0].version) {
        let a2 = a.drop_first();
        lemma_diff_versions(c, a2);
        let d2 = spec_diff(c, a2);
        assert forall|v: u32|
            #[trigger] diff_has_version(d, v) <==> (catalog_has_version(c, v)
                || applied_has_version(a, v)) by {
            lemma_applied_cons(a, v);
            if diff_has_version(d, v) {
                let k = choose|k: int| 0 <= k < d.len() && d[k].version == v;
                if k == 0 {
                    assert(a[0].version == v);
                } else {
                    assert(d2[k - 1].version == v);
                    assert(diff_has_version(d2, v));
                }
            }
            if catalog_has_version(c, v) || applied_has_version(a, v) {
                if a[0].version == v {
                    assert(d[0].version == v);
                    assert(diff_has_version(d, v));
                } else {
                    assert(diff_has_version(d2, v));
                    let k = choose|k: int| 0 <= k < d2.len() && d2[k].version == v;
                    assert(d[k + 1].version == v);
                    assert(diff_has_version(d, v));
                }
            }
        }
    } else {
        let c2 = c.drop_first();
        let a2 = a.drop_first();
        lemma_diff_versions(c2, a2);
        let d2 = spec_diff(c2, a2);
        assert forall|v: u32|
            #[trigger] diff_has_version(d, v) <==> (catalog_has_version(c, v)
                || applied_has_version(a, v)) by {
            lemma_catalog_cons(c, v);
            lemma_applied_cons(a, v);
            if diff_has_version(d, v) {
                let k = choose|k: int| 0 <= k < d.len() && d[k].version == v;
                if k == 0 {
                    assert(c[0].version == v);
                } else {
                    assert(d2[k - 1].version == v);
                    assert(diff_has_version(d2, v));
                }
            }
            if catalog_has_version(c, v) || applied_has_version(a, v) {
                if c[0].version == v || a[0].version == v {
                    assert(d[0].version == c[0].version);
                    assert(diff_has_version(d, v));
                } else {
                    assert(diff_has_version(d2, v));
                    let k = choose|k: int| 0 <= k < d2.len() && d2[k].version == v;
                    assert(d[k + 1].version == v);
                    assert(diff_has_version(d, v));
                }
            }
        }
    }
}

/// One status row is classified as the three-way set comparison demands:
/// Applied exactly when the version is in both the catalog and the tracking
/// table, Pending exactly when only in the catalog, Missing exactly when
/// only in the tracking table.
pub open spec fn classification_ok(
    c: Seq<MigrationView>,
    a: Seq<AppliedMigrationView>,
    r: MigrationStatusView,
) -> bool {
    &&& (r.state == MigrationState::Applied <==> (catalog_has_version(c, r.version)
        && applied_has_version(a, r.version)))
    &&& (r.state == MigrationState::Pending <==> (catalog_has_version(c, r.version)
        && !applied_has_version(a, r.version)))
    &&& (r.state == MigrationState::Missing <==> (!catalog_has_version(c, r.version)
        && applied_has_version(a, r.version)))
}

/// Diff completeness, second half: on sorted inputs the status report is
/// strictly sorted by version — so no version appears twice — and every row
/// is classified as the three-way set comparison demands.
#[verifier::rlimit(60)]
pub proof fn lemma_diff_classification(c: Seq<MigrationView>, a: Seq<AppliedMigrationView>)
    requires
        catalog_versions_sorted(c),
        applied_versions_sorted(a),
    ensures
        forall|i: int, j: int|
            0 <= i < j < spec_diff(c, a).len() ==> spec_diff(c, a)[i].version < spec_diff(
                c,
                a,
            )[j].version,
        forall|k: int|
            #![auto]
            0 <= k < spec_diff(c, a).len() ==> classification_ok(c, a, spec_diff(c, a)[k]),
    decreases c.len() + a.len(),
{
    let d = spec_diff(c, a);
    if c.len() == 0 && a.len() == 0 {
        // the report is empty
    } else if c.len() > 0 && (a.len() == 0 || c[0].version < a[0].version) {
        let c2 = c.drop_first();
        let d2 = spec_diff(c2, a);
        assert(catalog_versions_sorted(c2)) by {
            assert forall|i: int, j: int| 0 <= i < j < c2.len() implies c2[i].version
                < c2[j].version by {
                assert(c2[i] == c[i + 1]);
                assert(c2[j] == c[j + 1]);
            }
        }
        lemma_diff_classification(c2, a);
        lemma_diff_versions(c2, a);
        assert forall|k: int| 0 <= k < d2.len() implies d2[k].version > c[0].version by {
            assert(diff_has_version(d2, d2[k].version));
            if catalog_has_version(c2, d2[k].version) {
                let i = choose|i: int| 0 <= i < c2.len() && c2[i].version == d2[k].version;
                assert(c[i + 1].version == d2[k].version);
            } else {
                let j = choose|j: int| 0 <= j < a.len() && a[j].version == d2[k].version;
                assert(a[0].version <= a[j].version);
            }
        }
        assert forall|i: int, j: int| 0 <= i < j < d.len() implies d[i].version
            < d[j].version by {
            if i > 0 {
                assert(d[i] == d2[i - 1] && d[j] == d2[j - 1]);
            } else {
                assert(d[j] == d2[j - 1]);
            }
        }
        assert forall|k: int| #![auto] 0 <= k < d.len() implies classification_ok(c, a, d[k]) by {
            if k == 0 {
                assert(catalog_has_version(c, c[0].version));
                assert(!applied_has_version(a, c[0].version)) by {
                    if applied_has_version(a, c[0].version) {
                        let j = choose|j: int| 0 <= j < a.len() && a[j].version == c[0].version;
                        assert(a[0].version <= a[j].version);
                    }
                }
            } else {
                let r = d2[k - 1];
                assert(d[k] == r);
                assert(classification_ok(c2, a, r));
                lemma_catalog_cons(c, r.version);
                assert(r.version != c[0].version);
            }
        }
    } else if a.len() > 0 && (c.len() == 0 || a[0].version < c[0].version) {
        let a2 = a.drop_first();
        let d2 = spec_diff(c, a2);
        assert(applied_versions_sorted(a2)) by {
            assert forall|i: int, j: int| 0 <= i < j < a2.len() implies a2[i].version
                < a2[j].version by {
                assert(a2[i] == a[i + 1]);
                assert(a2[j] == a[j + 1]);
            }
        }
        lemma_diff_classification(c, a2);
        lemma_diff_versions(c, a2);
        assert forall|k: int| 0 <= k < d2.len() implies d2[k].version > a[0].version by {
            assert(diff_has_version(d2, d2[k].version));
            if catalog_has_version(c, d2[k].version) {
                let i = choose|i: int| 0 <= i < c.len() && c[i].version == d2[k].version;
                assert(c[0].version <= c[i].version);
            } else {
                let j = choose|j: int| 0 <= j < a2.len() && a2[j].version == d2[k].version;
                assert(a[j + 1].version == d2[k].version);
            }
        }
        assert forall|i: int, j: int| 0 <= i < j < d.len() implies d[i].version
            < d[j].version by {
            if i > 0 {
                assert(d[i] == d2[i - 1] && d[j] == d2[j - 1]);
            } else {
                assert(d[j] == d2[j - 1]);
            }
        }
        assert forall|k: int| #![auto] 0 <= k < d.len() implies classification_ok(c, a, d[k]) by {
            if k == 0 {
                assert(applied_has_version(a, a[0].version));
                assert(!catalog_has_version(c, a[0].version)) by {
                    if catalog_has_version(c, a[0].version) {
                        let i = choose|i: int| 0 <= i < c.len() && c[i].version == a[0].version;
                        assert(c[0].version <= c[i].version);
                    }
                }
            } else {
                let r = d2[k - 1];
                assert(d[k] == r);
                assert(classification_ok(c, a2, r));
                lemma_applied_cons(a, r.version);
                assert(r.version != a[0].version);
            }
        }
    } else {
        let c2 = c.drop_first();
        let a2 = a.drop_first();
        let d2 = spec_diff(c2, a2);
        assert(catalog_versions_sorted(c2)) by {
            assert forall|i: int, j: int| 0 <= i < j < c2.len() implies c2[i].version
                < c2[j].version by {
                assert(c2[i] == c[i + 1]);
                assert(c2[j] == c[j + 1]);
            }
        }
        assert(applied_versions_sorted(a2)) by {
            assert forall|i: int, j: int| 0 <= i < j < a2.len() implies a2[i].version
                < a2[j].version by {
                assert(a2[i] == a[i + 1]);
                assert(a2[j] == a[j + 1]);
            }
        }
        lemma_diff_classification(c2, a2);
        lemma_diff_versions(c2, a2);
        assert(c[0].version == a[0].version);
        assert forall|k: int| 0 <= k < d2.len() implies d2[k].version > c[0].version by {
            assert(diff_has_version(d2, d2[k].version));
            if catalog_has_version(c2, d2[k].version) {
                let i = choose|i: int| 0 <= i < c2.len() && c2[i].version == d2[k].version;
                assert(c[i + 1].version == d2[k].version);
            } else {
                let j = choose|j: int| 0 <= j < a2.len() && a2[j].version == d2[k].version;
                assert(a[j + 1].version == d2[k].version);
            }
        }
        assert forall|i: int, j: int| 0 <= i < j < d.len() implies d[i].version
            < d[j].version by {
            if i > 0 {
                assert(d[i] == d2[i - 1] && d[j] == d2[j - 1]);
            } else {
                assert(d[j] == d2[j - 1]);
            }
        }
        assert forall|k: int| #![auto] 0 <= k < d.len() implies classification_ok(c, a, d[k]) by {
            if k == 0 {
                assert(catalog_has_version(c, c[0].version));
                assert(applied_has_version(a, a[0].version));
            } else {
                let r = d2[k - 1];
                assert(d[k] == r);
                assert(classification_ok(c2, a2, r));
                lemma_catalog_cons(c, r.version);
                lemma_applied_cons(a, r.version);
                assert(r.version != c[0].version);
                assert(r.version != a[0].version);
            }
        }
    }
}

} // verus!
