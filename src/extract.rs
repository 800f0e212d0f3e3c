//! Finding a control table in the lines of a document and reading its rows.
//!
//! A table starts at the first line that holds its marker, compared without
//! regard to case. Its header is the first line from there on that holds a
//! `|`; the line after the header separates it from the rows, and the rows
//! run up to the first line without a `|`.

use vstd::prelude::*;

use crate::register::Register;
use crate::row::{parse_row, spec_parse_row, OutcomeModel, RowError, RowModel, RowOutcome};
use crate::table::ControlTableMap;
use crate::text::{chars_of, contains, contains_chars, contains_str, string_of, views};

verus! {

/// What a table gives: its registers, and the names of the rows that were
/// dropped because the vocabulary lacks them.
pub struct TableModel {
    pub entries: Map<Register, RowModel>,
    pub warnings: Seq<Seq<char>>,
}

/// Why a table could not be read.
pub enum TableErrorModel {
    TableNotFound(Seq<char>),
    Row(Seq<char>, RowError),
}

/// A table read from a document.
#[derive(Debug)]
pub struct ParsedTable {
    /// The registers of the table.
    pub table: ControlTableMap,
    /// The names of the rows dropped because the vocabulary lacks them.
    pub warnings: Vec<String>,
}

impl View for ParsedTable {
    type V = TableModel;

    open spec fn view(&self) -> TableModel {
        TableModel {
            entries: self.table@,
            warnings: self.warnings@.map_values(|s: String| s@),
        }
    }
}

/// Why a table could not be read.
#[derive(Clone, Debug)]
pub enum TableError {
    /// No line holds the marker, or no table follows it.
    TableNotFound(String),
    /// A row of the table is malformed.
    Row {
        /// The text of the row.
        row: String,
        /// What is wrong with it.
        error: RowError,
    },
}

impl View for TableError {
    type V = TableErrorModel;

    open spec fn view(&self) -> TableErrorModel {
        match self {
            TableError::TableNotFound(m) => TableErrorModel::TableNotFound(m@),
            TableError::Row { row, error } => TableErrorModel::Row(row@, *error),
        }
    }
}

/// The value of a table result.
pub open spec fn table_result_view(r: Result<ParsedTable, TableError>) -> Result<TableModel, TableErrorModel> {
    match r {
        Ok(t) => Ok(t@),
        Err(e) => Err(e@),
    }
}

/// A table in a result is well formed.
pub open spec fn table_result_wf(r: Result<ParsedTable, TableError>) -> bool {
    r matches Ok(t) ==> t.table.wf()
}

/// The view of an optional text.
pub open spec fn opt_view(a: Option<&str>) -> Option<Seq<char>> {
    match a {
        Some(s) => Some(s@),
        None => None,
    }
}

/// A row that only marks elided or inapplicable entries.
pub open spec fn is_skipped_row(r: Seq<char>) -> bool {
    contains(r, "…"@) || contains(r, "···"@) || contains(r, "..."@) || contains(r, "N/A"@)
}

/// The first line, from `i` on, whose lowercased text holds the lowercased
/// marker `m`.
pub open spec fn marker_line(lowered: Seq<Seq<char>>, m: Seq<char>, i: int) -> Option<int>
    decreases lowered.len() - i,
{
    if i < 0 || i >= lowered.len() {
        None
    } else if contains(lowered[i], m) {
        Some(i)
    } else {
        marker_line(lowered, m, i + 1)
    }
}

/// The first line, from `i` on, that holds a `|`.
pub open spec fn table_line(lines: Seq<Seq<char>>, i: int) -> Option<int>
    decreases lines.len() - i,
{
    if i < 0 || i >= lines.len() {
        None
    } else if contains(lines[i], "|"@) {
        Some(i)
    } else {
        table_line(lines, i + 1)
    }
}

/// The first line, from `i` on, without a `|`; the number of lines when
/// there is none.
pub open spec fn block_end(lines: Seq<Seq<char>>, i: int) -> int
    decreases lines.len() - i,
{
    if i < 0 || i >= lines.len() {
        lines.len() as int
    } else if !contains(lines[i], "|"@) {
        i
    } else {
        block_end(lines, i + 1)
    }
}

/// The rows read in order: rows that mark elided entries are passed over,
/// the first malformed row ends the reading, and a later row replaces an
/// earlier one of the same name.
pub open spec fn fold_rows(header: Seq<char>, rows: Seq<Seq<char>>, area: Option<Seq<char>>) -> Result<
    TableModel,
    TableErrorModel,
>
    decreases rows.len(),
{
    if rows.len() == 0 {
        Ok(TableModel { entries: Map::empty(), warnings: Seq::empty() })
    } else {
        match fold_rows(header, rows.drop_last(), area) {
            Err(e) => Err(e),
            Ok(t) => {
                let r = rows.last();
                if is_skipped_row(r) {
                    Ok(t)
                } else {
                    match spec_parse_row(header, r, area) {
                        Err(e) => Err(TableErrorModel::Row(r, e)),
                        Ok(OutcomeModel::Unresolved(n)) => Ok(
                            TableModel { entries: t.entries, warnings: t.warnings.push(n) },
                        ),
                        Ok(OutcomeModel::Entry(m)) => Ok(
                            TableModel {
                                entries: t.entries.insert(m.data_name, m),
                                warnings: t.warnings,
                            },
                        ),
                    }
                }
            },
        }
    }
}

/// The rows of the table whose header is line `h`.
pub open spec fn table_rows(lines: Seq<Seq<char>>, h: int) -> Seq<Seq<char>> {
    let e = block_end(lines, h + 1);
    if h + 2 <= e {
        lines.subrange(h + 2, e)
    } else {
        Seq::empty()
    }
}

/// The table under `marker`, given the lines, their lowercased forms and
/// the lowercased marker.
pub open spec fn spec_extract(
    lines: Seq<Seq<char>>,
    lowered: Seq<Seq<char>>,
    marker: Seq<char>,
    lowered_marker: Seq<char>,
    area: Option<Seq<char>>,
) -> Result<TableModel, TableErrorModel> {
    match marker_line(lowered, lowered_marker, 0) {
        None => Err(TableErrorModel::TableNotFound(marker)),
        Some(s) => match table_line(lines, s) {
            None => Err(TableErrorModel::TableNotFound(marker)),
            Some(h) => fold_rows(lines[h], table_rows(lines, h), area),
        },
    }
}

proof fn lemma_block_end_bounds(lines: Seq<Seq<char>>, i: int)
    requires
        0 <= i,
    ensures
        i <= block_end(lines, i) <= lines.len() || (i > lines.len() && block_end(lines, i)
            == lines.len()),
        forall|j: int| i <= j < block_end(lines, i) ==> contains(#[trigger] lines[j], "|"@),
    decreases lines.len() - i,
{
    if i < lines.len() && contains(lines[i], "|"@) {
        lemma_block_end_bounds(lines, i + 1);
    }
}

/// A row that marks elided or inapplicable entries yields no register and
/// no error: putting one anywhere among the rows of a table changes nothing
/// that the table gives.
pub proof fn lemma_skipped_row_changes_nothing(
    header: Seq<char>,
    rows: Seq<Seq<char>>,
    area: Option<Seq<char>>,
    k: int,
    r: Seq<char>,
)
    requires
        is_skipped_row(r),
        0 <= k <= rows.len(),
    ensures
        fold_rows(header, rows.insert(k, r), area) == fold_rows(header, rows, area),
    decreases rows.len(),
{
    if k == rows.len() {
        assert(rows.insert(k, r).drop_last() =~= rows);
    } else {
        assert(rows.insert(k, r).drop_last() =~= rows.drop_last().insert(k, r));
        lemma_skipped_row_changes_nothing(header, rows.drop_last(), area, k, r);
    }
}

proof fn lemma_marker_line_prefix(
    ll: Seq<Seq<char>>,
    ll2: Seq<Seq<char>>,
    m: Seq<char>,
    i: int,
    s: int,
)
    requires
        0 <= i <= s,
        s < ll.len(),
        s < ll2.len(),
        marker_line(ll, m, i) == Some(s),
        forall|j: int| i <= j <= s ==> ll2[j] == ll[j],
    ensures
        marker_line(ll2, m, i) == Some(s),
    decreases s - i,
{
    assert(ll2[i] == ll[i]);
    if i < s {
        assert(!contains(ll[i], m));
        lemma_marker_line_prefix(ll, ll2, m, i + 1, s);
        assert(marker_line(ll2, m, i) == marker_line(ll2, m, i + 1));
    } else {
        lemma_marker_line_bounds(ll, m, i + 1);
        assert(contains(ll[i], m));
        assert(contains(ll2[i], m));
    }
}

proof fn lemma_table_line_prefix(lines: Seq<Seq<char>>, lines2: Seq<Seq<char>>, i: int, h: int)
    requires
        0 <= i <= h,
        h < lines.len(),
        h < lines2.len(),
        table_line(lines, i) == Some(h),
        forall|j: int| i <= j <= h ==> lines2[j] == lines[j],
    ensures
        table_line(lines2, i) == Some(h),
    decreases h - i,
{
    assert(lines2[i] == lines[i]);
    if i < h {
        assert(!contains(lines[i], "|"@));
        lemma_table_line_prefix(lines, lines2, i + 1, h);
        assert(table_line(lines2, i) == table_line(lines2, i + 1));
    } else {
        lemma_table_line_found(lines, i + 1);
        assert(contains(lines[i], "|"@));
        assert(contains(lines2[i], "|"@));
    }
}

proof fn lemma_block_end_shifted(lines: Seq<Seq<char>>, p: int, r: Seq<char>, i: int)
    requires
        0 <= p <= i <= lines.len(),
    ensures
        block_end(lines.insert(p, r), i + 1) == block_end(lines, i) + 1,
    decreases lines.len() - i,
{
    let lines2 = lines.insert(p, r);
    if i < lines.len() {
        assert(lines2[i + 1] == lines[i]);
        if contains(lines[i], "|"@) {
            lemma_block_end_shifted(lines, p, r, i + 1);
        }
    }
}

proof fn lemma_block_end_insert(lines: Seq<Seq<char>>, p: int, r: Seq<char>, i: int)
    requires
        0 <= i <= p,
        p <= block_end(lines, i),
        contains(r, "|"@),
    ensures
        block_end(lines.insert(p, r), i) == block_end(lines, i) + 1,
    decreases p - i,
{
    let lines2 = lines.insert(p, r);
    lemma_block_end_bounds(lines, i);
    if i == p {
        assert(lines2[p] == r);
        lemma_block_end_shifted(lines, p, r, p);
    } else {
        assert(lines2[i] == lines[i]);
        lemma_block_end_insert(lines, p, r, i + 1);
    }
}

/// A row that marks elided or inapplicable entries, put anywhere among the
/// rows of the table under a marker, changes nothing that the table gives.
pub proof fn lemma_skipped_line_changes_nothing(
    lines: Seq<Seq<char>>,
    lowered: Seq<Seq<char>>,
    marker: Seq<char>,
    lowered_marker: Seq<char>,
    area: Option<Seq<char>>,
    p: int,
    r: Seq<char>,
    lowered_r: Seq<char>,
)
    requires
        lowered.len() == lines.len(),
        marker_line(lowered, lowered_marker, 0) matches Some(s) && table_line(lines, s) matches Some(
            h,
        ) && h + 2 <= p <= block_end(lines, h + 1),
        contains(r, "|"@),
        is_skipped_row(r),
    ensures
        spec_extract(lines.insert(p, r), lowered.insert(p, lowered_r), marker, lowered_marker, area)
            == spec_extract(lines, lowered, marker, lowered_marker, area),
{
    let lines2 = lines.insert(p, r);
    let lowered2 = lowered.insert(p, lowered_r);
    let s = marker_line(lowered, lowered_marker, 0)->Some_0;
    let h = table_line(lines, s)->Some_0;
    lemma_marker_line_bounds(lowered, lowered_marker, 0);
    lemma_table_line_found(lines, s);
    lemma_block_end_bounds(lines, h + 1);
    assert(s < lowered2.len() && h < lines2.len());
    assert forall|j: int| 0 <= j <= s implies lowered2[j] == lowered[j] by {}
    assert forall|j: int| s <= j <= h implies lines2[j] == lines[j] by {}
    lemma_marker_line_prefix(lowered, lowered2, lowered_marker, 0, s);
    lemma_table_line_prefix(lines, lines2, s, h);
    lemma_block_end_bounds(lines, h + 1);
    lemma_block_end_insert(lines, p, r, h + 1);
    let e = block_end(lines, h + 1);
    let rows = table_rows(lines, h);
    assert(rows =~= lines.subrange(h + 2, e));
    assert(table_rows(lines2, h) =~= rows.insert(p - (h + 2), r));
    assert(lines2[h] == lines[h]);
    lemma_skipped_row_changes_nothing(lines[h], rows, area, p - (h + 2), r);
}

proof fn lemma_marker_line_bounds(ll: Seq<Seq<char>>, m: Seq<char>, i: int)
    requires
        0 <= i,
    ensures
        marker_line(ll, m, i) matches Some(s) ==> i <= s < ll.len(),
    decreases ll.len() - i,
{
    if i < ll.len() && !contains(ll[i], m) {
        lemma_marker_line_bounds(ll, m, i + 1);
    }
}

proof fn lemma_table_line_found(lines: Seq<Seq<char>>, i: int)
    requires
        0 <= i,
    ensures
        table_line(lines, i) matches Some(h) ==> i <= h < lines.len(),
    decreases lines.len() - i,
{
    if i < lines.len() && !contains(lines[i], "|"@) {
        lemma_table_line_found(lines, i + 1);
    }
}

/// No line from `i` on holds the marker: the search finds none.
pub proof fn lemma_marker_absent(lowered: Seq<Seq<char>>, m: Seq<char>, i: int)
    requires
        0 <= i,
        forall|j: int| i <= j < lowered.len() ==> !contains(#[trigger] lowered[j], m),
    ensures
        marker_line(lowered, m, i) is None,
    decreases lowered.len() - i,
{
    if i < lowered.len() {
        lemma_marker_absent(lowered, m, i + 1);
    }
}

/// A malformed row ends the reading: the error of a prefix is the error
/// of the whole.
proof fn lemma_fold_error_prefix(
    header: Seq<char>,
    rows: Seq<Seq<char>>,
    area: Option<Seq<char>>,
    j: int,
)
    requires
        0 <= j <= rows.len(),
        fold_rows(header, rows.take(j), area) is Err,
    ensures
        fold_rows(header, rows, area) == fold_rows(header, rows.take(j), area),
    decreases rows.len(),
{
    if j == rows.len() {
        assert(rows.take(j) =~= rows);
    } else {
        assert(rows.drop_last().take(j) =~= rows.take(j));
        lemma_fold_error_prefix(header, rows.drop_last(), area, j);
    }
}

/// The first line whose lowercased text holds the lowercased marker.
pub fn find_marker(lowered: &Vec<Vec<char>>, lowered_marker: &Vec<char>) -> (r: Option<usize>)
    ensures
        match marker_line(views(lowered@), lowered_marker@, 0) {
            Some(s) => r matches Some(x) && x as int == s,
            None => r is None,
        },
{
    let ghost ll = views(lowered@);
    let n = lowered.len();
    let mut s: usize = 0;
    while s < n
        invariant
            s <= n,
            n == lowered@.len(),
            ll == views(lowered@),
            marker_line(ll, lowered_marker@, 0) == marker_line(ll, lowered_marker@, s as int),
        decreases n - s,
    {
        assert(ll[s as int] == lowered@[s as int]@);
        if contains_chars(&lowered[s], lowered_marker) {
            return Some(s);
        }
        s += 1;
    }
    None
}

/// Reads the table under `marker`, given the lines of the document, their
/// lowercased forms and the lowercased marker. `area` is the memory area of
/// the table, used for rows whose header has no area column.
pub fn extract_table_lowered(
    lines: &Vec<Vec<char>>,
    lowered: &Vec<Vec<char>>,
    marker: &str,
    lowered_marker: &Vec<char>,
    area: Option<&str>,
) -> (r: Result<ParsedTable, TableError>)
    requires
        lowered@.len() == lines@.len(),
    ensures
        table_result_wf(r),
        table_result_view(r) == spec_extract(
            views(lines@),
            views(lowered@),
            marker@,
            lowered_marker@,
            opt_view(area),
        ),
{
    let ghost lv = views(lines@);
    let ghost ll = views(lowered@);
    let n = lines.len();
    let mut s: usize = 0;
    while s < n && !contains_chars(&lowered[s], lowered_marker)
        invariant
            s <= n,
            n == lines@.len(),
            lowered@.len() == n,
            ll == views(lowered@),
            marker_line(ll, lowered_marker@, 0) == marker_line(ll, lowered_marker@, s as int),
        decreases n - s,
    {
        s += 1;
    }
    if s == n {
        return Err(TableError::TableNotFound(String::from_str(marker)));
    }
    let mut h: usize = s;
    while h < n && !contains_str(&lines[h], "|")
        invariant
            s <= h <= n,
            n == lines@.len(),
            lv == views(lines@),
            table_line(lv, s as int) == table_line(lv, h as int),
        decreases n - h,
    {
        h += 1;
    }
    if h == n {
        return Err(TableError::TableNotFound(String::from_str(marker)));
    }
    let mut e: usize = h + 1;
    while e < n && contains_str(&lines[e], "|")
        invariant
            h < e <= n,
            n == lines@.len(),
            lv == views(lines@),
            block_end(lv, h + 1) == block_end(lv, e as int),
        decreases n - e,
    {
        e += 1;
    }
    let area_chars: Option<Vec<char>> = match area {
        Some(a) => Some(chars_of(a)),
        None => None,
    };
    let ghost area_v = opt_view(area);
    let ghost rows = table_rows(lv, h as int);
    let ghost header = lv[h as int];
    let mut t = ParsedTable { table: ControlTableMap::new(), warnings: Vec::new() };
    let mut k: usize = if e - h >= 2 {
        h + 2
    } else {
        e
    };
    let start = k;
    proof {
        if e < n {
            assert(lv[e as int] == lines@[e as int]@);
        }
        assert(block_end(lv, e as int) == e);
    }
    proof {
        lemma_block_end_bounds(lv, h + 1);
    }
    assert(t@.warnings =~= Seq::<Seq<char>>::empty());
    assert(ll[s as int] == lowered@[s as int]@);
    assert(lv[h as int] == lines@[h as int]@);
    assert(marker_line(ll, lowered_marker@, 0) == Some(s as int));
    assert(table_line(lv, s as int) == Some(h as int));
    assert(spec_extract(lv, ll, marker@, lowered_marker@, area_v) == fold_rows(header, rows, area_v));
    assert(rows.take(0) =~= Seq::<Seq<char>>::empty());
    while k < e
        invariant
            h + 2 <= start || start == e,
            start <= k <= e <= n,
            start == h + 2 || start == e,
            n == lines@.len(),
            lv == views(lines@),
            header == lv[h as int],
            rows == table_rows(lv, h as int),
            spec_extract(lv, ll, marker@, lowered_marker@, area_v) == fold_rows(header, rows, area_v),
            lv == views(lines@),
            ll == views(lowered@),
            block_end(lv, h + 1) == e as int,
            e - h >= 2 ==> start == h + 2,
            rows.len() == e - start,
            area_v == opt_view(area),
            match area_chars {
                Some(a) => area_v == Some(a@),
                None => area_v is None,
            },
            t.table.wf(),
            fold_rows(header, rows.take(k - start), area_v) == Ok::<TableModel, TableErrorModel>(
                t@,
            ),
        decreases e - k,
    {
        let row = &lines[k];
        proof {
            assert(rows[k - start] == lv[k as int]);
            assert(rows.take(k - start + 1).drop_last() =~= rows.take(k - start));
            assert(rows.take(k - start + 1).last() == row@);
        }
        let skipped = contains_str(row, "…") || contains_str(row, "···") || contains_str(row, "...")
            || contains_str(row, "N/A");
        if !skipped {
            let parsed = match &area_chars {
                Some(a) => parse_row(&lines[h], row, Some(a)),
                None => parse_row(&lines[h], row, None),
            };
            match parsed {
                Err(error) => {
                    proof {
                        assert(header == lines@[h as int]@);
                        assert(!is_skipped_row(row@));
                        assert(spec_parse_row(header, row@, area_v) == Err::<OutcomeModel, RowError>(
                            error,
                        ));
                        assert(fold_rows(header, rows.take(k - start + 1), area_v) == Err::<
                            TableModel,
                            TableErrorModel,
                        >(TableErrorModel::Row(row@, error)));
                        lemma_fold_error_prefix(header, rows, area_v, k - start + 1);
                    }
                    return Err(TableError::Row { row: string_of(row), error });
                },
                Ok(RowOutcome::Unresolved(name)) => {
                    let ghost prev = t@.warnings;
                    let ghost nv = name@;
                    t.warnings.push(name);
                    assert(t@.warnings =~= prev.push(nv));
                },
                Ok(RowOutcome::Entry(entry)) => {
                    t.table.insert(entry);
                },
            }
        }
        k += 1;
    }
    proof {
        assert(rows.take(k - start) =~= rows);
    }
    Ok(t)
}

} // verus!
