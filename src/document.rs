//! Reading the control table of one model's documentation page, and
//! deciding which model the page describes.
//!
//! A page either has two tables, one for the EEPROM area and one for the
//! RAM area, or a single table. The two-table form is tried first; when one
//! of its markers is missing, the single table is tried, and when that
//! fails too both failures are reported. A malformed row of a page that
//! has both markers is reported as it is.

use vstd::prelude::*;

use crate::extract::{
    extract_table_lowered, find_marker, lemma_marker_absent, marker_line, spec_extract, table_result_view,
    ParsedTable, TableError, TableErrorModel, TableModel,
};
use crate::models::{model_by_name, model_by_number, Model};
use crate::register::Register;
use crate::row::{first_and_last, first_index, lemma_index_bounds, RowModel};
use crate::table::ControlTableMap;
use crate::text::{
    chars_of, contains, contains_str, lower_of, lowercase, slice_chars, split_chars, split_on, string_of, upper_of,
    uppercase, views, lemma_split_nonempty,
};

verus! {

/// Marker of the EEPROM table of a two-table page.
pub const EEPROM_MARKER: &'static str = "Control Table of EEPROM Area";

/// Marker of the RAM table of a two-table page.
pub const RAM_MARKER: &'static str = "Control Table of RAM Area";

/// Marker of the table of a single-table page.
pub const CONTROL_TABLE_MARKER: &'static str = "Control Table";

/// Area of the registers of the EEPROM table.
pub const EEPROM_AREA: &'static str = "EEPROM";

/// Area of the registers of the RAM table.
pub const RAM_AREA: &'static str = "RAM";

/// A path that does not lead to the page of one supported model: tests,
/// unsupported series, and index pages.
pub open spec fn is_excluded(path: Seq<char>) -> bool {
    contains(path, "test"@) || contains(path, "xl320"@) || contains(path, "2x"@) || contains(
        path,
        "xw430"@,
    ) || contains(path, "x.md"@) || contains(path, "dxl_p.md"@) || contains(path, "y.md"@)
}

/// Whether a documentation file is to be read: false for tests,
/// unsupported series and index pages.
pub fn filter_files(path: &str) -> (r: bool)
    ensures
        r == !is_excluded(path@),
{
    let p = chars_of(path);
    !(contains_str(&p, "test") || contains_str(&p, "xl320") || contains_str(&p, "2x")
        || contains_str(&p, "xw430") || contains_str(&p, "x.md") || contains_str(&p, "dxl_p.md")
        || contains_str(&p, "y.md"))
}

/// `s` without one carriage return at its end.
pub open spec fn strip_cr(s: Seq<char>) -> Seq<char> {
    if s.len() > 0 && s.last() == '\r' {
        s.drop_last()
    } else {
        s
    }
}

/// The lines of a text: split at `\n` or `\r\n`, the final line ending
/// optional.
pub open spec fn lines_of(text: Seq<char>) -> Seq<Seq<char>> {
    let p = split_on(text, '\n');
    let init = p.drop_last().map_values(|l: Seq<char>| strip_cr(l));
    if p.last().len() == 0 {
        init
    } else {
        init.push(p.last())
    }
}

/// The lines of a text.
pub fn split_lines(text: &Vec<char>) -> (r: Vec<Vec<char>>)
    ensures
        views(r@) == lines_of(text@),
{
    let parts = split_chars(text, '\n');
    proof {
        lemma_split_nonempty(text@, '\n');
    }
    let ghost p = split_on(text@, '\n');
    assert(views(parts@).len() == parts@.len());
    let count = parts.len();
    let mut out: Vec<Vec<char>> = Vec::new();
    let mut i: usize = 0;
    while i + 1 < count
        invariant
            i < count,
            count == parts@.len(),
            views(parts@) == p,
            out@.len() == i,
            forall|j: int| 0 <= j < i ==> #[trigger] out@[j]@ == strip_cr(p[j]),
        decreases count - i,
    {
        let part = &parts[i];
        assert(part@ == p[i as int]);
        let n = part.len();
        let line = if n > 0 && part[n - 1] == '\r' {
            slice_chars(part, 0, n - 1)
        } else {
            slice_chars(part, 0, n)
        };
        assert(part@.subrange(0, n as int) =~= part@);
        assert(part@.subrange(0, n - 1) =~= part@.drop_last());
        out.push(line);
        i += 1;
    }
    let last = &parts[count - 1];
    assert(last@ == p.last());
    if last.len() > 0 {
        out.push(slice_chars(last, 0, last.len()));
        assert(last@.subrange(0, last@.len() as int) =~= last@);
    }
    assert(views(out@) =~= lines_of(text@));
    out
}

/// Why a page could not be read.
pub enum ParseErrorModel {
    Table(TableErrorModel, TableErrorModel),
    Row(TableErrorModel),
    UnknownModelIdentity(Seq<char>, u16),
}

/// Why a page could not be read.
#[derive(Clone, Debug)]
pub enum ParseError {
    /// Neither the two-table form nor the single table could be read.
    Table {
        /// Why the two-table form failed.
        double: TableError,
        /// Why the single table failed.
        single: TableError,
    },
    /// A row of the two-table form is malformed.
    Row(TableError),
    /// Neither the file name nor the model number names a known model.
    UnknownModelIdentity {
        /// The model name taken from the file name.
        name: String,
        /// The model number taken from the table.
        number: u16,
    },
}

impl View for ParseError {
    type V = ParseErrorModel;

    open spec fn view(&self) -> ParseErrorModel {
        match self {
            ParseError::Table { double, single } => ParseErrorModel::Table(double@, single@),
            ParseError::Row(e) => ParseErrorModel::Row(e@),
            ParseError::UnknownModelIdentity { name, number } => ParseErrorModel::UnknownModelIdentity(
                name@,
                *number,
            ),
        }
    }
}

/// The value of a page-table result.
pub open spec fn control_table_view(r: Result<ParsedTable, ParseError>) -> Result<TableModel, ParseErrorModel> {
    match r {
        Ok(t) => Ok(t@),
        Err(e) => Err(e@),
    }
}

/// The two tables of a page read as one: on a shared name the RAM table
/// wins, and the dropped names of both are kept.
pub open spec fn merge_tables(a: TableModel, b: TableModel) -> TableModel {
    TableModel { entries: a.entries.union_prefer_right(b.entries), warnings: a.warnings + b.warnings }
}

/// The two-table form of a page, given its lines and their lowercased
/// forms.
pub open spec fn spec_double_table(lines: Seq<Seq<char>>, lowered: Seq<Seq<char>>) -> Result<
    TableModel,
    TableErrorModel,
> {
    match spec_extract(
        lines,
        lowered,
        EEPROM_MARKER@,
        lower_of(EEPROM_MARKER@),
        Some(EEPROM_AREA@),
    ) {
        Err(e) => Err(e),
        Ok(a) => match spec_extract(
            lines,
            lowered,
            RAM_MARKER@,
            lower_of(RAM_MARKER@),
            Some(RAM_AREA@),
        ) {
            Err(e) => Err(e),
            Ok(b) => Ok(merge_tables(a, b)),
        },
    }
}

/// The control table of a page, given its lines and their lowercased
/// forms: the two-table form. When one of its markers is missing, or one
/// of its tables is not found, the single table is read instead; a
/// malformed row of a page that has both markers is final.
pub open spec fn spec_read_control_table(lines: Seq<Seq<char>>, lowered: Seq<Seq<char>>) -> Result<
    TableModel,
    ParseErrorModel,
> {
    match spec_double_table(lines, lowered) {
        Ok(t) => Ok(t),
        Err(double) => if double is Row && has_both_markers(lowered) {
            Err(ParseErrorModel::Row(double))
        } else {
            match spec_extract(
                lines,
                lowered,
                CONTROL_TABLE_MARKER@,
                lower_of(CONTROL_TABLE_MARKER@),
                None,
            ) {
                Ok(t) => Ok(t),
                Err(single) => Err(ParseErrorModel::Table(double, single)),
            }
        },
    }
}

/// Both markers of the two-table form occur on the page, compared without
/// regard to case.
pub open spec fn has_both_markers(lowered: Seq<Seq<char>>) -> bool {
    &&& marker_line(lowered, lower_of(EEPROM_MARKER@), 0) is Some
    &&& marker_line(lowered, lower_of(RAM_MARKER@), 0) is Some
}

/// The lowercased forms of some lines.
pub open spec fn lowered_lines(lines: Seq<Seq<char>>) -> Seq<Seq<char>> {
    lines.map_values(|l: Seq<char>| lower_of(l))
}

/// The control table of a page.
pub open spec fn spec_control_table(text: Seq<char>) -> Result<TableModel, ParseErrorModel> {
    spec_read_control_table(lines_of(text), lowered_lines(lines_of(text)))
}

fn marker_chars(marker: &str) -> (r: Vec<char>)
    ensures
        r@ == lower_of(marker@),
{
    let c = chars_of(marker);
    lowercase(&c)
}

/// Reads the control table of a page, given its lines and their lowercased
/// forms.
pub fn read_control_table(lines: &Vec<Vec<char>>, lowered: &Vec<Vec<char>>) -> (r: Result<
    ParsedTable,
    ParseError,
>)
    requires
        lowered@.len() == lines@.len(),
    ensures
        r matches Ok(t) ==> t.table.wf(),
        control_table_view(r) == spec_read_control_table(views(lines@), views(lowered@)),
{
    let eeprom_marker = marker_chars(EEPROM_MARKER);
    let double = match extract_table_lowered(
        lines,
        lowered,
        EEPROM_MARKER,
        &eeprom_marker,
        Some(EEPROM_AREA),
    ) {
        Err(e) => Err(e),
        Ok(a) => {
            let ram_marker = marker_chars(RAM_MARKER);
            match extract_table_lowered(lines, lowered, RAM_MARKER, &ram_marker, Some(RAM_AREA)) {
                Err(e) => Err(e),
                Ok(b) => {
                    let mut table = a.table;
                    table.append(b.table);
                    let mut warnings = a.warnings;
                    let mut more = b.warnings;
                    let ghost w1 = warnings@.map_values(|s: String| s@);
                    let ghost w2 = more@.map_values(|s: String| s@);
                    warnings.append(&mut more);
                    assert(warnings@.map_values(|s: String| s@) =~= w1 + w2);
                    Ok(ParsedTable { table, warnings })
                },
            }
        },
    };
    assert(table_result_view(double) == spec_double_table(views(lines@), views(lowered@)));
    let both = match find_marker(lowered, &eeprom_marker) {
        Some(_) => {
            let ram_marker = marker_chars(RAM_MARKER);
            find_marker(lowered, &ram_marker).is_some()
        },
        None => false,
    };
    match double {
        Ok(t) => Ok(t),
        Err(TableError::Row { row, error }) if both => Err(
            ParseError::Row(TableError::Row { row, error }),
        ),
        Err(double) => {
            let single_marker = marker_chars(CONTROL_TABLE_MARKER);
            match extract_table_lowered(lines, lowered, CONTROL_TABLE_MARKER, &single_marker, None) {
                Ok(t) => Ok(t),
                Err(single) => Err(ParseError::Table { double, single }),
            }
        },
    }
}

/// Reads the control table of a page.
pub fn parse_control_table(text: &str) -> (r: Result<ParsedTable, ParseError>)
    ensures
        r matches Ok(t) ==> t.table.wf(),
        control_table_view(r) == spec_control_table(text@),
{
    let chars = chars_of(text);
    let lines = split_lines(&chars);
    let mut lowered: Vec<Vec<char>> = Vec::new();
    let mut i: usize = 0;
    while i < lines.len()
        invariant
            i <= lines@.len(),
            lowered@.len() == i,
            forall|j: int| 0 <= j < i ==> #[trigger] lowered@[j]@ == lower_of(lines@[j]@),
        decreases lines@.len() - i,
    {
        lowered.push(lowercase(&lines[i]));
        i += 1;
    }
    assert(views(lowered@) =~= lowered_lines(views(lines@)));
    read_control_table(&lines, &lowered)
}

/// The part of a file name before its first `.`.
pub open spec fn file_stem(name: Seq<char>) -> Seq<char> {
    match first_index(name, '.') {
        Some(i) => name.take(i),
        None => name,
    }
}

/// The part of a file name before its first `.`.
fn stem_of(name: &Vec<char>) -> (r: Vec<char>)
    ensures
        r@ == file_stem(name@),
{
    proof {
        lemma_index_bounds(name@, '.');
    }
    let (dot, _) = first_and_last(name, '.');
    match dot {
        Some(i) => {
            assert(name@.take(i as int) =~= name@.subrange(0, i as int));
            slice_chars(name, 0, i)
        },
        None => {
            assert(name@ =~= name@.subrange(0, name@.len() as int));
            slice_chars(name, 0, name.len())
        },
    }
}

/// `s` with each `-` made `_`.
pub open spec fn underscored(s: Seq<char>) -> Seq<char> {
    s.map_values(|c: char| if c == '-' { '_' } else { c })
}

/// The model number a table gives: the initial value of its model-number
/// register, or 0 when it gives none.
pub open spec fn model_number_of(t: Map<Register, RowModel>) -> u16 {
    if t.contains_key(Register::ModelNumber) {
        match t[Register::ModelNumber].initial_value {
            Some(v) => v as u16,
            None => 0,
        }
    } else {
        0
    }
}

/// The model a page describes, given the uppercased stem of its file name
/// and its table: by name first, by model number otherwise.
pub open spec fn spec_resolve_model(upper_stem: Seq<char>, t: Map<Register, RowModel>) -> Result<
    Model,
    ParseErrorModel,
> {
    let name = underscored(upper_stem);
    match model_by_name(name) {
        Some(m) => Ok(m),
        None => match model_by_number(model_number_of(t)) {
            Some(m) => Ok(m),
            None => Err(ParseErrorModel::UnknownModelIdentity(name, model_number_of(t))),
        },
    }
}

/// The value of a model result.
pub open spec fn model_result_view(r: Result<Model, ParseError>) -> Result<Model, ParseErrorModel> {
    match r {
        Ok(m) => Ok(m),
        Err(e) => Err(e@),
    }
}

/// Decides which model a page describes, given the uppercased stem of its
/// file name and its table: by name first, by model number otherwise.
pub fn resolve_model(upper_stem: &Vec<char>, table: &ControlTableMap) -> (r: Result<
    Model,
    ParseError,
>)
    requires
        table.wf(),
    ensures
        model_result_view(r) == spec_resolve_model(upper_stem@, table@),
{
    let mut name: Vec<char> = Vec::new();
    let mut i: usize = 0;
    while i < upper_stem.len()
        invariant
            i <= upper_stem@.len(),
            name@ == underscored(upper_stem@.take(i as int)),
        decreases upper_stem@.len() - i,
    {
        let c = upper_stem[i];
        name.push(if c == '-' { '_' } else { c });
        i += 1;
        assert(name@ =~= underscored(upper_stem@.take(i as int)));
    }
    assert(upper_stem@.take(i as int) =~= upper_stem@);
    if let Some(m) = Model::from_name(&name) {
        return Ok(m);
    }
    let number: u16 = match table.get(Register::ModelNumber) {
        Some(row) => match row.initial_value {
            Some(v) => v as u16,
            None => 0,
        },
        None => 0,
    };
    match Model::from_number(number) {
        Some(m) => Ok(m),
        None => Err(ParseError::UnknownModelIdentity { name: string_of(&name), number }),
    }
}

/// A page read in full: the model it describes and its control table.
#[derive(Debug)]
pub struct ParsedModel {
    /// The model the page describes.
    pub model: Model,
    /// The registers of its control table.
    pub table: ControlTableMap,
    /// The names of the rows dropped because the vocabulary lacks them.
    pub warnings: Vec<String>,
}

/// What reading a page gives, given its file name and its text.
pub open spec fn spec_parse_table(file_name: Seq<char>, text: Seq<char>) -> Result<
    (Model, TableModel),
    ParseErrorModel,
> {
    match spec_control_table(text) {
        Err(e) => Err(e),
        Ok(t) => match spec_resolve_model(upper_of(file_stem(file_name)), t.entries) {
            Err(e) => Err(e),
            Ok(m) => Ok((m, t)),
        },
    }
}

/// The value of a page result.
pub open spec fn parsed_model_view(r: Result<ParsedModel, ParseError>) -> Result<
    (Model, TableModel),
    ParseErrorModel,
> {
    match r {
        Ok(p) => Ok(
            (
                p.model,
                TableModel { entries: p.table@, warnings: p.warnings@.map_values(|s: String| s@) },
            ),
        ),
        Err(e) => Err(e@),
    }
}

/// Reads the page `text` of the file named `file_name`: its control table,
/// and the model it describes.
pub fn parse_table(file_name: &str, text: &str) -> (r: Result<ParsedModel, ParseError>)
    ensures
        r matches Ok(p) ==> p.table.wf(),
        parsed_model_view(r) == spec_parse_table(file_name@, text@),
{
    let parsed = match parse_control_table(text) {
        Ok(t) => t,
        Err(e) => return Err(e),
    };
    let name = chars_of(file_name);
    let stem = stem_of(&name);
    let upper = uppercase(&stem);
    match resolve_model(&upper, &parsed.table) {
        Ok(model) => Ok(ParsedModel { model, table: parsed.table, warnings: parsed.warnings }),
        Err(e) => Err(e),
    }
}

/// A page in which no line holds, compared without regard to case, the
/// EEPROM marker, the RAM marker or the single-table marker is refused:
/// the error names the two-table attempt's missing EEPROM marker and the
/// single table's missing marker.
pub proof fn lemma_no_marker_no_table(file_name: Seq<char>, text: Seq<char>)
    requires
        forall|i: int|
            0 <= i < lines_of(text).len() ==> {
                let l = lower_of(#[trigger] lines_of(text)[i]);
                &&& !contains(l, lower_of(EEPROM_MARKER@))
                &&& !contains(l, lower_of(RAM_MARKER@))
                &&& !contains(l, lower_of(CONTROL_TABLE_MARKER@))
            },
    ensures
        spec_parse_table(file_name, text) == Err::<(Model, TableModel), ParseErrorModel>(
            ParseErrorModel::Table(
                TableErrorModel::TableNotFound(EEPROM_MARKER@),
                TableErrorModel::TableNotFound(CONTROL_TABLE_MARKER@),
            ),
        ),
{
    let lowered = lowered_lines(lines_of(text));
    assert forall|j: int| 0 <= j < lowered.len() implies !contains(
        #[trigger] lowered[j],
        lower_of(EEPROM_MARKER@),
    ) && !contains(lowered[j], lower_of(CONTROL_TABLE_MARKER@)) by {
        assert(lowered[j] == lower_of(lines_of(text)[j]));
    }
    lemma_marker_absent(lowered, lower_of(EEPROM_MARKER@), 0);
    lemma_marker_absent(lowered, lower_of(CONTROL_TABLE_MARKER@), 0);
}

} // verus!
