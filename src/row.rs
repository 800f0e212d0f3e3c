//! Reading one data row of a control table against its header row.
//!
//! Cells are separated by `|`, with an empty cell before the first and after
//! the last column. Each field is found by a keyword in its header cell and
//! read from the data cell in the same column.

use vstd::prelude::*;

use convert_case::{Case, Casing};

use crate::register::{lookup_register, Register};
use crate::text::{
    chars_of, contains, contains_str, lower_of, lowercase, parse_i32, parse_i32_spec, parse_u16,
    parse_u16_spec, replace_all, replace_chars, slice_chars, split_chars, split_on, string_of,
    trim, trim_chars, views,
};

verus! {

/// A text in Pascal case, by the word boundaries and capitalisation of
/// `convert_case`.
pub uninterp spec fn pascal_case_of(s: Seq<char>) -> Seq<char>;

/// Relies on `convert_case`'s `Casing::to_case` with `Case::Pascal`: the
/// result depends on the text alone.
#[verifier::external_body]
pub fn to_pascal_case(s: &Vec<char>) -> (r: Vec<char>)
    ensures
        r@ == pascal_case_of(s@),
{
    s.iter().collect::<String>().to_case(Case::Pascal).chars().collect()
}

/// A column that every row must have.
#[derive(Clone, Copy, Debug, PartialEq, Eq, Structural)]
pub enum Column {
    /// The register address.
    Address,
    /// The register size in bytes.
    Size,
    /// The register name.
    DataName,
    /// The access mode.
    Access,
}

/// Why a row could not be read.
#[derive(Clone, Copy, Debug, PartialEq, Eq, Structural)]
pub enum RowError {
    /// The header has no column for this field.
    MissingColumn(Column),
    /// Neither the header nor the enclosing table gives the memory area.
    MissingArea,
    /// The data-name cell holds no bracketed name.
    MissingDataName,
    /// The initial value is present but is not an integer.
    BadInitialValue,
    /// The address is not an unsigned 16-bit integer.
    BadAddress,
    /// The size is not an unsigned 16-bit integer.
    BadSize,
}

/// One register of a control table, as read from a row.
#[derive(Clone, Debug)]
pub struct ControlTableRow {
    /// Address of the register.
    pub address: u16,
    /// Size of the register in bytes.
    pub size: u16,
    /// Name of the register.
    pub data_name: Register,
    /// Access mode, as written in the table.
    pub access: String,
    /// Initial value, when the table gives one.
    pub initial_value: Option<i32>,
    /// Range of values, as written in the table.
    pub range: String,
    /// Unit, as written in the table.
    pub unit: String,
    /// Memory area (EEPROM or RAM).
    pub area: String,
}

/// The value of a `ControlTableRow`, with its texts as sequences.
pub struct RowModel {
    pub address: u16,
    pub size: u16,
    pub data_name: Register,
    pub access: Seq<char>,
    pub initial_value: Option<i32>,
    pub range: Seq<char>,
    pub unit: Seq<char>,
    pub area: Seq<char>,
}

impl View for ControlTableRow {
    type V = RowModel;

    open spec fn view(&self) -> RowModel {
        RowModel {
            address: self.address,
            size: self.size,
            data_name: self.data_name,
            access: self.access@,
            initial_value: self.initial_value,
            range: self.range@,
            unit: self.unit@,
            area: self.area@,
        }
    }
}

/// The part of a row that decides the layout of a table: address, size,
/// name and access mode. Range, unit, area and initial value only describe.
pub open spec fn layout_key(r: RowModel) -> (u16, u16, Register, Seq<char>) {
    (r.address, r.size, r.data_name, r.access)
}

impl ControlTableRow {
    /// Whether the two rows agree on address, size, name and access mode.
    pub fn same_layout(&self, other: &ControlTableRow) -> (r: bool)
        ensures
            r == (layout_key(self@) == layout_key(other@)),
    {
        self.address == other.address && self.size == other.size && self.data_name
            == other.data_name && self.access == other.access
    }
}

impl PartialEq for ControlTableRow {
    fn eq(&self, other: &ControlTableRow) -> (r: bool) {
        self.same_layout(other)
    }
}

impl vstd::std_specs::cmp::PartialEqSpecImpl for ControlTableRow {
    open spec fn obeys_eq_spec() -> bool {
        true
    }

    open spec fn eq_spec(&self, other: &ControlTableRow) -> bool {
        layout_key(self@) == layout_key(other@)
    }
}

/// The fields of a row as texts, before the name is resolved and the
/// numbers are read.
#[derive(Clone, Debug)]
pub struct RowCells {
    /// The address cell.
    pub address: Vec<char>,
    /// The size cell.
    pub size: Vec<char>,
    /// The bracketed name, without any parenthetical note.
    pub name: Vec<char>,
    /// The access cell.
    pub access: Vec<char>,
    /// The initial-value cell; empty when the header has no such column.
    pub initial: Vec<char>,
    /// The range cell with line breaks made spaces and commas removed.
    pub range: Vec<char>,
    /// The unit cell; empty when the header has no such column.
    pub unit: Vec<char>,
    /// The area, from the row or else from the enclosing table.
    pub area: Vec<char>,
}

/// The value of a `RowCells`.
pub struct CellsModel {
    pub address: Seq<char>,
    pub size: Seq<char>,
    pub name: Seq<char>,
    pub access: Seq<char>,
    pub initial: Seq<char>,
    pub range: Seq<char>,
    pub unit: Seq<char>,
    pub area: Seq<char>,
}

impl View for RowCells {
    type V = CellsModel;

    open spec fn view(&self) -> CellsModel {
        CellsModel {
            address: self.address@,
            size: self.size@,
            name: self.name@,
            access: self.access@,
            initial: self.initial@,
            range: self.range@,
            unit: self.unit@,
            area: self.area@,
        }
    }
}

/// What reading a row gives when it has no fatal error.
#[derive(Clone, Debug)]
pub enum RowOutcome {
    /// A register of the vocabulary.
    Entry(ControlTableRow),
    /// A name outside the vocabulary: the row is dropped, and the name kept
    /// as a warning.
    Unresolved(String),
}

/// The value of a `RowOutcome`.
pub enum OutcomeModel {
    Entry(RowModel),
    Unresolved(Seq<char>),
}

impl View for RowOutcome {
    type V = OutcomeModel;

    open spec fn view(&self) -> OutcomeModel {
        match self {
            RowOutcome::Entry(r) => OutcomeModel::Entry(r@),
            RowOutcome::Unresolved(n) => OutcomeModel::Unresolved(n@),
        }
    }
}

/// The value of a row result.
pub open spec fn outcome_view(r: Result<RowOutcome, RowError>) -> Result<OutcomeModel, RowError> {
    match r {
        Ok(o) => Ok(o@),
        Err(e) => Err(e),
    }
}

/// The value of a cells result.
pub open spec fn cells_view(r: Result<RowCells, RowError>) -> Result<CellsModel, RowError> {
    match r {
        Ok(c) => Ok(c@),
        Err(e) => Err(e),
    }
}

/// The position of the first `c` in `s`.
pub open spec fn first_index(s: Seq<char>, c: char) -> Option<int>
    decreases s.len(),
{
    if s.len() == 0 {
        None
    } else {
        match first_index(s.drop_last(), c) {
            Some(i) => Some(i),
            None => if s.last() == c {
                Some(s.len() - 1)
            } else {
                None
            },
        }
    }
}

/// The position of the last `c` in `s`.
pub open spec fn last_index(s: Seq<char>, c: char) -> Option<int>
    decreases s.len(),
{
    if s.len() == 0 {
        None
    } else if s.last() == c {
        Some(s.len() - 1)
    } else {
        last_index(s.drop_last(), c)
    }
}

/// The name inside brackets: from the first `[` to the last `]`, holding at
/// least one character.
pub open spec fn bracket_token(s: Seq<char>) -> Option<Seq<char>> {
    match (first_index(s, '['), last_index(s, ']')) {
        (Some(i), Some(j)) => if i + 2 <= j {
            Some(s.subrange(i + 1, j))
        } else {
            None
        },
        _ => None,
    }
}

/// `s` without its parenthetical note: the text from the first `(` to the
/// last `)` after it is removed.
pub open spec fn strip_note(s: Seq<char>) -> Seq<char> {
    match (first_index(s, '('), last_index(s, ')')) {
        (Some(i), Some(j)) => if i < j {
            s.take(i) + s.skip(j + 1)
        } else {
            s
        },
        _ => s,
    }
}

/// The first column at position `k` or later, and before `end`, whose
/// lowercased header cell holds `kw`.
pub open spec fn column_from(lh: Seq<Seq<char>>, end: int, kw: Seq<char>, k: int) -> Option<int>
    decreases end - k,
{
    if k >= end {
        None
    } else if contains(lh[k], kw) {
        Some(k)
    } else {
        column_from(lh, end, kw, k + 1)
    }
}

/// The number of columns that header and row both have.
pub open spec fn paired(lh: Seq<Seq<char>>, cells: Seq<Seq<char>>) -> int {
    if lh.len() <= cells.len() {
        lh.len() as int
    } else {
        cells.len() as int
    }
}

/// The trimmed data cell under the first header cell that holds `kw`,
/// skipping the empty border cells at both ends.
pub open spec fn field(lh: Seq<Seq<char>>, cells: Seq<Seq<char>>, kw: Seq<char>) -> Option<
    Seq<char>,
> {
    match column_from(lh, paired(lh, cells) - 1, kw, 1) {
        Some(k) => Some(trim(cells[k])),
        None => None,
    }
}

/// The text of an optional field; empty when absent.
pub open spec fn or_empty(o: Option<Seq<char>>) -> Seq<char> {
    match o {
        Some(s) => s,
        None => Seq::empty(),
    }
}

/// How a range cell is kept: line breaks become spaces, commas go.
pub open spec fn clean_range(s: Seq<char>) -> Seq<char> {
    replace_all(replace_all(s, "<br>"@, " "@), ","@, ""@)
}

/// The fields of a row, given its lowercased header cells and its cells.
pub open spec fn spec_locate_cells(
    lh: Seq<Seq<char>>,
    cells: Seq<Seq<char>>,
    area: Option<Seq<char>>,
) -> Result<CellsModel, RowError> {
    let address = field(lh, cells, "address"@);
    let size = field(lh, cells, "size"@);
    let data = field(lh, cells, "data"@);
    let access = field(lh, cells, "access"@);
    let own_area = field(lh, cells, "area"@);
    let area = if own_area is Some {
        own_area
    } else {
        area
    };
    if address is None {
        Err(RowError::MissingColumn(Column::Address))
    } else if size is None {
        Err(RowError::MissingColumn(Column::Size))
    } else if data is None {
        Err(RowError::MissingColumn(Column::DataName))
    } else if access is None {
        Err(RowError::MissingColumn(Column::Access))
    } else if area is None {
        Err(RowError::MissingArea)
    } else {
        match bracket_token(or_empty(data)) {
            None => Err(RowError::MissingDataName),
            Some(token) => Ok(
                CellsModel {
                    address: or_empty(address),
                    size: or_empty(size),
                    name: strip_note(token),
                    access: or_empty(access),
                    initial: or_empty(field(lh, cells, "initial"@)),
                    range: clean_range(or_empty(field(lh, cells, "range"@))),
                    unit: or_empty(field(lh, cells, "unit"@)),
                    area: or_empty(area),
                },
            ),
        }
    }
}

/// The fields of a row, given the header line and the row line.
pub open spec fn spec_read_cells(header: Seq<char>, row: Seq<char>, area: Option<Seq<char>>) -> Result<
    CellsModel,
    RowError,
> {
    spec_locate_cells(split_on(header, '|').map_values(|h: Seq<char>| lower_of(h)), split_on(row, '|'), area)
}

/// An initial-value cell that gives no value: empty, holding a dash, or
/// pointing to a footnote.
pub open spec fn no_initial_value(s: Seq<char>) -> bool {
    s.len() == 0 || contains(s, "-"@) || contains(s, "br"@)
}

/// The register a row describes, given its fields and its name in Pascal
/// case.
pub open spec fn spec_finish_row(c: CellsModel, pascal: Seq<char>) -> Result<OutcomeModel, RowError> {
    match lookup_register(pascal) {
        None => Ok(OutcomeModel::Unresolved(c.name)),
        Some(g) => {
            let initial = if no_initial_value(c.initial) {
                Some(None)
            } else {
                match parse_i32_spec(replace_all(c.initial, ","@, ""@)) {
                    Some(v) => Some(Some(v)),
                    None => None,
                }
            };
            match initial {
                None => Err(RowError::BadInitialValue),
                Some(initial_value) => match parse_u16_spec(c.address) {
                    None => Err(RowError::BadAddress),
                    Some(address) => match parse_u16_spec(c.size) {
                        None => Err(RowError::BadSize),
                        Some(size) => Ok(
                            OutcomeModel::Entry(
                                RowModel {
                                    address,
                                    size,
                                    data_name: g,
                                    access: c.access,
                                    initial_value,
                                    range: c.range,
                                    unit: c.unit,
                                    area: c.area,
                                },
                            ),
                        ),
                    },
                },
            }
        },
    }
}

/// What a row gives, given the header line, the row line and the area of
/// the enclosing table.
pub open spec fn spec_parse_row(header: Seq<char>, row: Seq<char>, area: Option<Seq<char>>) -> Result<
    OutcomeModel,
    RowError,
> {
    match spec_read_cells(header, row, area) {
        Err(e) => Err(e),
        Ok(c) => spec_finish_row(c, pascal_case_of(c.name)),
    }
}

pub(crate) proof fn lemma_index_bounds(s: Seq<char>, c: char)
    ensures
        match first_index(s, c) {
            Some(i) => 0 <= i < s.len() && s[i] == c && forall|j: int|
                0 <= j < i ==> s[j] != c,
            None => forall|j: int| 0 <= j < s.len() ==> s[j] != c,
        },
        match last_index(s, c) {
            Some(i) => 0 <= i < s.len() && s[i] == c,
            None => forall|j: int| 0 <= j < s.len() ==> s[j] != c,
        },
    decreases s.len(),
{
    if s.len() > 0 {
        lemma_index_bounds(s.drop_last(), c);
        assert forall|j: int| 0 <= j < s.len() - 1 implies s[j] == s.drop_last()[j] by {}
    }
}

proof fn lemma_first_index_at_start(s: Seq<char>, c: char)
    requires
        s.len() > 0,
        s[0] == c,
    ensures
        first_index(s, c) == Some(0int),
    decreases s.len(),
{
    if s.len() > 1 {
        assert(s.drop_last()[0] == c);
        lemma_first_index_at_start(s.drop_last(), c);
    } else {
        assert(first_index(s.drop_last(), c) is None);
        assert(s.last() == c);
    }
}

proof fn lemma_last_index_at(s: Seq<char>, c: char, i: int)
    requires
        0 <= i < s.len(),
        s[i] == c,
        forall|j: int| i < j < s.len() ==> s[j] != c,
    ensures
        last_index(s, c) == Some(i),
    decreases s.len(),
{
    if s.last() != c {
        lemma_last_index_at(s.drop_last(), c, i);
    }
}

/// The name in brackets is read alike whether or not a parenthetical note
/// follows the closing bracket.
pub proof fn lemma_note_after_name(w: Seq<char>, note: Seq<char>)
    requires
        w.len() >= 1,
        forall|j: int| 0 <= j < note.len() ==> note[j] != ']',
    ensures
        bracket_token(seq!['['] + w + seq![']']) == Some(w),
        bracket_token(seq!['['] + w + seq![']'] + seq!['('] + note + seq![')']) == Some(w),
{
    let s1 = seq!['['] + w + seq![']'];
    let s2 = s1 + seq!['('] + note + seq![')'];
    let n = w.len() as int;
    lemma_first_index_at_start(s1, '[');
    lemma_first_index_at_start(s2, '[');
    lemma_last_index_at(s1, ']', n + 1);
    assert forall|j: int| n + 1 < j < s2.len() implies s2[j] != ']' by {
        if j > n + 2 && j < s2.len() - 1 {
            assert(s2[j] == note[j - n - 3]);
        }
    }
    lemma_last_index_at(s2, ']', n + 1);
    assert(s1.subrange(1, n + 1) =~= w);
    assert(s2.subrange(1, n + 1) =~= w);
}

/// A parenthetical note after the bracketed name changes nothing that a
/// row gives: two rows whose cells agree but for the data-name cell, which
/// holds `[w]` in one and `[w](note)` in the other once trimmed, read the
/// same, provided no other field is read from the data-name column.
pub proof fn lemma_note_changes_nothing(
    lh: Seq<Seq<char>>,
    c1: Seq<Seq<char>>,
    c2: Seq<Seq<char>>,
    area: Option<Seq<char>>,
    k: int,
    w: Seq<char>,
    note: Seq<char>,
)
    requires
        c1.len() == c2.len(),
        forall|j: int| 0 <= j < c1.len() && j != k ==> c1[j] == c2[j],
        column_from(lh, paired(lh, c1) - 1, "data"@, 1) == Some(k),
        column_from(lh, paired(lh, c1) - 1, "address"@, 1) != Some(k),
        column_from(lh, paired(lh, c1) - 1, "size"@, 1) != Some(k),
        column_from(lh, paired(lh, c1) - 1, "access"@, 1) != Some(k),
        column_from(lh, paired(lh, c1) - 1, "area"@, 1) != Some(k),
        column_from(lh, paired(lh, c1) - 1, "initial"@, 1) != Some(k),
        column_from(lh, paired(lh, c1) - 1, "range"@, 1) != Some(k),
        column_from(lh, paired(lh, c1) - 1, "unit"@, 1) != Some(k),
        w.len() >= 1,
        forall|j: int| 0 <= j < note.len() ==> note[j] != ']',
        trim(c1[k]) == seq!['['] + w + seq![']'],
        trim(c2[k]) == seq!['['] + w + seq![']'] + seq!['('] + note + seq![')'],
    ensures
        spec_locate_cells(lh, c1, area) == spec_locate_cells(lh, c2, area),
{
    lemma_note_after_name(w, note);
    let end = paired(lh, c1) - 1;
    assert(paired(lh, c2) == paired(lh, c1));
    lemma_column_bounds(lh, end, "address"@, 1);
    lemma_column_bounds(lh, end, "size"@, 1);
    lemma_column_bounds(lh, end, "data"@, 1);
    lemma_column_bounds(lh, end, "access"@, 1);
    lemma_column_bounds(lh, end, "area"@, 1);
    lemma_column_bounds(lh, end, "initial"@, 1);
    lemma_column_bounds(lh, end, "range"@, 1);
    lemma_column_bounds(lh, end, "unit"@, 1);
    assert(field(lh, c1, "address"@) == field(lh, c2, "address"@));
    assert(field(lh, c1, "size"@) == field(lh, c2, "size"@));
    assert(field(lh, c1, "access"@) == field(lh, c2, "access"@));
    assert(field(lh, c1, "area"@) == field(lh, c2, "area"@));
    assert(field(lh, c1, "initial"@) == field(lh, c2, "initial"@));
    assert(field(lh, c1, "range"@) == field(lh, c2, "range"@));
    assert(field(lh, c1, "unit"@) == field(lh, c2, "unit"@));
    assert(bracket_token(or_empty(field(lh, c1, "data"@))) == bracket_token(
        or_empty(field(lh, c2, "data"@)),
    ));
}

/// A parenthetical note after the bracketed name changes nothing that a
/// row gives: `parse_row` reads the two rows alike, under the same
/// conditions as `lemma_note_changes_nothing` on their cells.
pub proof fn lemma_note_changes_nothing_in_row(
    header: Seq<char>,
    row1: Seq<char>,
    row2: Seq<char>,
    area: Option<Seq<char>>,
    k: int,
    w: Seq<char>,
    note: Seq<char>,
)
    requires
        ({
            let lh = split_on(header, '|').map_values(|h: Seq<char>| lower_of(h));
            let c1 = split_on(row1, '|');
            let c2 = split_on(row2, '|');
            let end = paired(lh, c1) - 1;
            &&& c1.len() == c2.len()
            &&& forall|j: int| 0 <= j < c1.len() && j != k ==> c1[j] == c2[j]
            &&& column_from(lh, end, "data"@, 1) == Some(k)
            &&& column_from(lh, end, "address"@, 1) != Some(k)
            &&& column_from(lh, end, "size"@, 1) != Some(k)
            &&& column_from(lh, end, "access"@, 1) != Some(k)
            &&& column_from(lh, end, "area"@, 1) != Some(k)
            &&& column_from(lh, end, "initial"@, 1) != Some(k)
            &&& column_from(lh, end, "range"@, 1) != Some(k)
            &&& column_from(lh, end, "unit"@, 1) != Some(k)
            &&& trim(c1[k]) == seq!['['] + w + seq![']']
            &&& trim(c2[k]) == seq!['['] + w + seq![']'] + seq!['('] + note + seq![')']
        }),
        w.len() >= 1,
        forall|j: int| 0 <= j < note.len() ==> note[j] != ']',
    ensures
        spec_parse_row(header, row1, area) == spec_parse_row(header, row2, area),
{
    let lh = split_on(header, '|').map_values(|h: Seq<char>| lower_of(h));
    lemma_note_changes_nothing(lh, split_on(row1, '|'), split_on(row2, '|'), area, k, w, note);
}

proof fn lemma_column_bounds(lh: Seq<Seq<char>>, end: int, kw: Seq<char>, k: int)
    ensures
        column_from(lh, end, kw, k) matches Some(j) ==> k <= j < end,
    decreases end - k,
{
    if k < end && !contains(lh[k], kw) {
        lemma_column_bounds(lh, end, kw, k + 1);
    }
}

/// The positions of the first and the last `c` in `s`.
pub(crate) fn first_and_last(s: &Vec<char>, c: char) -> (r: (Option<usize>, Option<usize>))
    ensures
        r.0 matches Some(i) ==> first_index(s@, c) == Some(i as int),
        r.0 is None ==> first_index(s@, c) is None,
        r.1 matches Some(i) ==> last_index(s@, c) == Some(i as int),
        r.1 is None ==> last_index(s@, c) is None,
{
    let mut first: Option<usize> = None;
    let mut last: Option<usize> = None;
    let mut i: usize = 0;
    assert(s@.take(0) =~= Seq::<char>::empty());
    while i < s.len()
        invariant
            i <= s@.len(),
            first matches Some(f) ==> first_index(s@.take(i as int), c) == Some(f as int),
            first is None ==> first_index(s@.take(i as int), c) is None,
            last matches Some(l) ==> last_index(s@.take(i as int), c) == Some(l as int),
            last is None ==> last_index(s@.take(i as int), c) is None,
        decreases s@.len() - i,
    {
        assert(s@.take(i + 1).drop_last() =~= s@.take(i as int));
        if s[i] == c {
            if first.is_none() {
                first = Some(i);
            }
            last = Some(i);
        }
        i += 1;
    }
    assert(s@.take(i as int) =~= s@);
    (first, last)
}

/// The name inside brackets, when the cell holds one.
pub fn bracket_name(s: &Vec<char>) -> (r: Option<Vec<char>>)
    ensures
        match bracket_token(s@) {
            Some(t) => r matches Some(v) && v@ == t,
            None => r is None,
        },
{
    proof {
        lemma_index_bounds(s@, '[');
        lemma_index_bounds(s@, ']');
    }
    let (open, _) = first_and_last(s, '[');
    let (_, close) = first_and_last(s, ']');
    match (open, close) {
        (Some(i), Some(j)) => {
            if i < j && j - i >= 2 {
                Some(slice_chars(s, i + 1, j))
            } else {
                None
            }
        },
        _ => None,
    }
}

/// The text without its parenthetical note.
pub fn without_note(s: &Vec<char>) -> (r: Vec<char>)
    ensures
        r@ == strip_note(s@),
{
    proof {
        lemma_index_bounds(s@, '(');
        lemma_index_bounds(s@, ')');
    }
    let (open, _) = first_and_last(s, '(');
    let (_, close) = first_and_last(s, ')');
    match (open, close) {
        (Some(i), Some(j)) => {
            if i < j {
                let n = s.len();
                let mut r = slice_chars(s, 0, i);
                let tail = slice_chars(s, j + 1, n);
                let mut k: usize = 0;
                let ghost head = r@;
                while k < tail.len()
                    invariant
                        k <= tail@.len(),
                        r@ == head + tail@.take(k as int),
                    decreases tail@.len() - k,
                {
                    r.push(tail[k]);
                    k += 1;
                    assert(r@ =~= head + tail@.take(k as int));
                }
                assert(tail@.take(k as int) =~= tail@);
                assert(s@.take(i as int) =~= s@.subrange(0, i as int));
                assert(s@.skip(j + 1) =~= s@.subrange(j + 1, s@.len() as int));
                r
            } else {
                slice_chars(s, 0, s.len())
            }
        },
        _ => slice_chars(s, 0, s.len()),
    }
}

/// The first column at position `k` or later, and before `end`, whose
/// lowercased header cell holds `kw`.
fn find_column(lh: &Vec<Vec<char>>, end: usize, kw: &str) -> (r: Option<usize>)
    requires
        end <= lh@.len(),
    ensures
        match column_from(views(lh@), end as int, kw@, 1) {
            Some(k) => r matches Some(x) && x as int == k,
            None => r is None,
        },
        r matches Some(k) ==> 1 <= k < end,
{
    let mut k: usize = 1;
    while k < end
        invariant
            1 <= k,
            end <= lh@.len(),
            column_from(views(lh@), end as int, kw@, 1) == column_from(
                views(lh@),
                end as int,
                kw@,
                k as int,
            ),
        decreases end - k,
    {
        assert(views(lh@)[k as int] == lh@[k as int]@);
        if contains_str(&lh[k], kw) {
            return Some(k);
        }
        k += 1;
    }
    None
}

/// The trimmed data cell under the first header cell that holds `kw`.
fn find_field(lh: &Vec<Vec<char>>, cells: &Vec<Vec<char>>, kw: &str) -> (r: Option<Vec<char>>)
    ensures
        match field(views(lh@), views(cells@), kw@) {
            Some(t) => r matches Some(v) && v@ == t,
            None => r is None,
        },
{
    let n = if lh.len() <= cells.len() {
        lh.len()
    } else {
        cells.len()
    };
    assert(views(lh@).len() == lh@.len());
    assert(views(cells@).len() == cells@.len());
    if n == 0 {
        return None;
    }
    match find_column(lh, n - 1, kw) {
        Some(k) => {
            assert(views(cells@)[k as int] == cells@[k as int]@);
            Some(trim_chars(&cells[k]))
        },
        None => None,
    }
}

fn empty_if_none(o: Option<Vec<char>>) -> (r: Vec<char>)
    ensures
        r@ == or_empty(
            match o {
                Some(v) => Some(v@),
                None => None,
            },
        ),
{
    match o {
        Some(v) => v,
        None => Vec::new(),
    }
}

/// The fields of a row, given its lowercased header cells and its cells.
pub fn locate_cells(lh: &Vec<Vec<char>>, cells: &Vec<Vec<char>>, area: Option<&Vec<char>>) -> (r:
    Result<RowCells, RowError>)
    ensures
        cells_view(r) == spec_locate_cells(
            views(lh@),
            views(cells@),
            match area {
                Some(a) => Some(a@),
                None => None,
            },
        ),
{
    let address = find_field(lh, cells, "address");
    let size = find_field(lh, cells, "size");
    let data = find_field(lh, cells, "data");
    let access = find_field(lh, cells, "access");
    let own_area = find_field(lh, cells, "area");
    let area_in = area;
    let area: Option<Vec<char>> = match own_area {
        Some(a) => Some(a),
        None => match area {
            Some(a) => Some(slice_chars(a, 0, a.len())),
            None => None,
        },
    };
    if address.is_none() {
        return Err(RowError::MissingColumn(Column::Address));
    }
    if size.is_none() {
        return Err(RowError::MissingColumn(Column::Size));
    }
    if data.is_none() {
        return Err(RowError::MissingColumn(Column::DataName));
    }
    if access.is_none() {
        return Err(RowError::MissingColumn(Column::Access));
    }
    if area.is_none() {
        return Err(RowError::MissingArea);
    }
    let data = empty_if_none(data);
    let token = match bracket_name(&data) {
        Some(t) => t,
        None => return Err(RowError::MissingDataName),
    };
    let name = without_note(&token);
    proof {
        reveal_strlit("<br>");
        reveal_strlit(",");
    }
    let range = empty_if_none(find_field(lh, cells, "range"));
    let range = replace_chars(&range, "<br>", " ");
    let range = replace_chars(&range, ",", "");
    let result = RowCells {
        address: empty_if_none(address),
        size: empty_if_none(size),
        name,
        access: empty_if_none(access),
        initial: empty_if_none(find_field(lh, cells, "initial")),
        range,
        unit: empty_if_none(find_field(lh, cells, "unit")),
        area: empty_if_none(area),
    };
    let ghost expected = spec_locate_cells(
        views(lh@),
        views(cells@),
        match area_in {
            Some(a) => Some(a@),
            None => None,
        },
    );
    assert(expected is Ok);
    assert(expected->Ok_0.address == result@.address);
    assert(expected->Ok_0.name == result@.name);
    assert(expected->Ok_0.range == result@.range);
    assert(expected->Ok_0.area == result@.area);
    Ok(result)
}

/// The fields of a row, given the header line, the row line and the area
/// of the enclosing table.
pub fn read_cells(header: &Vec<char>, row: &Vec<char>, area: Option<&Vec<char>>) -> (r: Result<
    RowCells,
    RowError,
>)
    ensures
        cells_view(r) == spec_read_cells(
            header@,
            row@,
            match area {
                Some(a) => Some(a@),
                None => None,
            },
        ),
{
    let hs = split_chars(header, '|');
    let cells = split_chars(row, '|');
    let mut lh: Vec<Vec<char>> = Vec::new();
    let mut k: usize = 0;
    while k < hs.len()
        invariant
            k <= hs@.len(),
            lh@.len() == k,
            forall|j: int| 0 <= j < k ==> #[trigger] lh@[j]@ == lower_of(hs@[j]@),
        decreases hs@.len() - k,
    {
        let l = lowercase(&hs[k]);
        lh.push(l);
        k += 1;
    }
    assert(views(lh@) =~= views(hs@).map_values(|h: Seq<char>| lower_of(h)));
    locate_cells(&lh, &cells, area)
}

/// The register a row describes, given its fields and its name in Pascal
/// case.
pub fn finish_row(c: &RowCells, pascal: &Vec<char>) -> (r: Result<RowOutcome, RowError>)
    ensures
        outcome_view(r) == spec_finish_row(c@, pascal@),
{
    let g = match Register::from_name(pascal) {
        Some(g) => g,
        None => return Ok(RowOutcome::Unresolved(string_of(&c.name))),
    };
    let no_value = c.initial.len() == 0 || contains_str(&c.initial, "-") || contains_str(
        &c.initial,
        "br",
    );
    let initial_value = if no_value {
        None
    } else {
        proof {
            reveal_strlit(",");
        }
        let digits = replace_chars(&c.initial, ",", "");
        match parse_i32(&digits) {
            Some(v) => Some(v),
            None => return Err(RowError::BadInitialValue),
        }
    };
    let address = match parse_u16(&c.address) {
        Some(a) => a,
        None => return Err(RowError::BadAddress),
    };
    let size = match parse_u16(&c.size) {
        Some(z) => z,
        None => return Err(RowError::BadSize),
    };
    Ok(
        RowOutcome::Entry(
            ControlTableRow {
                address,
                size,
                data_name: g,
                access: string_of(&c.access),
                initial_value,
                range: string_of(&c.range),
                unit: string_of(&c.unit),
                area: string_of(&c.area),
            },
        ),
    )
}

/// Reads one data row against its header row. `area` is the memory area of
/// the enclosing table, used when the header has no area column.
pub fn parse_row(header: &Vec<char>, row: &Vec<char>, area: Option<&Vec<char>>) -> (r: Result<
    RowOutcome,
    RowError,
>)
    ensures
        outcome_view(r) == spec_parse_row(
            header@,
            row@,
            match area {
                Some(a) => Some(a@),
                None => None,
            },
        ),
{
    let cells = match read_cells(header, row, area) {
        Ok(c) => c,
        Err(e) => return Err(e),
    };
    let pascal = to_pascal_case(&cells.name);
    finish_row(&cells, &pascal)
}

/// Reads one data row against its header row, both given as text.
pub fn parse_row_str(header: &str, row: &str, area: Option<&str>) -> (r: Result<
    RowOutcome,
    RowError,
>)
    ensures
        outcome_view(r) == spec_parse_row(
            header@,
            row@,
            match area {
                Some(a) => Some(a@),
                None => None,
            },
        ),
{
    let h = chars_of(header);
    let w = chars_of(row);
    match area {
        Some(a) => {
            let a = chars_of(a);
            parse_row(&h, &w, Some(&a))
        },
        None => parse_row(&h, &w, None),
    }
}

} // verus!
