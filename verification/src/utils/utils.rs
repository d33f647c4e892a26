//! Tabular text into typed records.
//!
//! The `csv` crate splits the text into rows of cells and reads numbers.
//! What a row means is decided here: a record shape says which cells it
//! takes and what it makes of them, and a table decodes as a whole or not
//! at all.

use crate::error::{AppError, ErrorModel};
use crate::text::same_text;
use vstd::prelude::*;
use vstd::string::*;

verus! {

/// What `csv` makes of `data`: the rows that it reads, each a sequence of
/// cells and the header row the first of them, or the error that it
/// reports. The reader is the crate's default one but for the header,
/// which it hands out like any other row.
pub uninterp spec fn csv_records(data: Seq<char>) -> Result<Seq<Seq<Seq<char>>>, csv::Error>;

/// The number that `csv` reads a cell as when asked for a `u32`, or nothing
/// where it reports an error.
pub uninterp spec fn csv_u32(cell: Seq<char>) -> Option<u32>;

/// `csv::Reader::records` over the whole of `csv_data`, with
/// `has_headers(false)` so that the header row comes first in the result.
/// The result is `csv_records` of the text: the rows in order when every
/// row was read, the crate's error when one was not.
#[verifier::external_body]
fn read_records(csv_data: &str) -> (r: Result<Vec<Vec<String>>, csv::Error>)
    ensures
        match r {
            Ok(rows) => csv_records(csv_data@) == Ok::<Seq<Seq<Seq<char>>>, csv::Error>(
                rows.deep_view(),
            ),
            Err(e) => csv_records(csv_data@) == Err::<Seq<Seq<Seq<char>>>, csv::Error>(e),
        },
{
    let mut reader = csv::ReaderBuilder::new().has_headers(false).from_reader(csv_data.as_bytes());
    let mut rows = Vec::new();
    for record in reader.records() {
        rows.push(record?.iter().map(String::from).collect());
    }
    Ok(rows)
}

/// `csv::StringRecord::deserialize` of a record with the one field `cell`
/// into a `u32`. The result is `csv_u32` of the cell.
#[verifier::external_body]
fn read_u32(cell: &str) -> (r: Option<u32>)
    ensures
        r == csv_u32(cell@),
{
    csv::StringRecord::from(vec![cell]).deserialize::<(u32,)>(None).ok().map(|v| v.0)
}

/// The truth value that a cell spells out: `true` or `false`, in lower
/// case and with nothing around it.
pub open spec fn flag_of(cell: Seq<char>) -> Option<bool> {
    if cell == "true"@ {
        Some(true)
    } else if cell == "false"@ {
        Some(false)
    } else {
        None
    }
}

/// Reads a cell as a truth value.
pub fn read_flag(cell: &str) -> (r: Option<bool>)
    ensures
        r == flag_of(cell@),
{
    if same_text(cell, "true") {
        Some(true)
    } else if same_text(cell, "false") {
        Some(false)
    } else {
        None
    }
}

/// Whether `name` is the heading of column `at` and of no other column.
pub open spec fn heads_only(header: Seq<Seq<char>>, name: Seq<char>, at: int) -> bool {
    &&& 0 <= at < header.len()
    &&& forall|j: int| 0 <= j < header.len() ==> (header[j] == name <==> j == at)
}

/// The column that `name` heads, where it heads exactly one. Names are
/// compared character by character, so case counts.
pub open spec fn column_of(header: Seq<Seq<char>>, name: Seq<char>) -> Option<int> {
    if exists|at: int| heads_only(header, name, at) {
        Some(choose|at: int| heads_only(header, name, at))
    } else {
        None
    }
}

/// The cell of `row` in the column that `name` heads, where there is one.
pub open spec fn cell_of(header: Seq<Seq<char>>, row: Seq<Seq<char>>, name: Seq<char>) -> Option<
    Seq<char>,
> {
    match column_of(header, name) {
        Some(at) => if at < row.len() {
            Some(row[at])
        } else {
            None
        },
        None => None,
    }
}

/// Finds the column that `name` heads.
pub fn find_column(header: &Vec<String>, name: &str) -> (r: Option<usize>)
    ensures
        match r {
            Some(at) => column_of(header.deep_view(), name@) == Some(at as int),
            None => column_of(header.deep_view(), name@) is None,
        },
{
    let ghost h = header.deep_view();
    let mut found: Option<usize> = None;
    let mut i: usize = 0;
    while i < header.len()
        invariant
            i <= header.len(),
            h == header.deep_view(),
            match found {
                Some(at) => at < i && forall|j: int| 0 <= j < i ==> (h[j] == name@ <==> j == at),
                None => forall|j: int| 0 <= j < i ==> h[j] != name@,
            },
        decreases header.len() - i,
    {
        if same_text(header[i].as_str(), name) {
            if found.is_some() {
                proof {
                    let first = found.unwrap() as int;
                    assert forall|at: int| !heads_only(h, name@, at) by {
                        if heads_only(h, name@, at) {
                            assert(h[first] == name@);
                            assert(h[i as int] == name@);
                        }
                    }
                }
                return None;
            }
            found = Some(i);
        }
        i += 1;
    }
    proof {
        match found {
            Some(at) => {
                assert(heads_only(h, name@, at as int));
                assert(h[at as int] == name@);
            },
            None => {
                assert forall|at: int| !heads_only(h, name@, at) by {
                    if heads_only(h, name@, at) {
                        assert(h[at] == name@);
                    }
                }
            },
        }
    }
    found
}

/// The cell of `row` under the heading `name`.
pub fn text_cell<'a>(header: &Vec<String>, row: &'a Vec<String>, name: &str) -> (r: Option<&'a str>)
    ensures
        match r {
            Some(cell) => cell_of(header.deep_view(), row.deep_view(), name@) == Some(cell@),
            None => cell_of(header.deep_view(), row.deep_view(), name@) is None,
        },
{
    match find_column(header, name) {
        Some(at) => if at < row.len() {
            Some(row[at].as_str())
        } else {
            None
        },
        None => None,
    }
}

/// The number in a cell, if there is a cell and it holds one.
pub open spec fn number_in(cell: Option<Seq<char>>) -> Option<u32> {
    match cell {
        Some(text) => csv_u32(text),
        None => None,
    }
}

/// The truth value in a cell, if there is a cell and it holds one.
pub open spec fn flag_in(cell: Option<Seq<char>>) -> Option<bool> {
    match cell {
        Some(text) => flag_of(text),
        None => None,
    }
}

/// Reads the cell of `row` under the heading `name` as a number.
pub fn number_cell(header: &Vec<String>, row: &Vec<String>, name: &str) -> (r: Option<u32>)
    ensures
        r == number_in(cell_of(header.deep_view(), row.deep_view(), name@)),
{
    match text_cell(header, row, name) {
        Some(cell) => read_u32(cell),
        None => None,
    }
}

/// Reads the cell of `row` under the heading `name` as a truth value.
pub fn flag_cell(header: &Vec<String>, row: &Vec<String>, name: &str) -> (r: Option<bool>)
    ensures
        r == flag_in(cell_of(header.deep_view(), row.deep_view(), name@)),
{
    match text_cell(header, row, name) {
        Some(cell) => read_flag(cell),
        None => None,
    }
}

/// A shape that a row of a table can be read into.
pub trait Record: Sized + DeepView {
    /// The record that `row` holds under `header`, if it holds one.
    spec fn row_model(header: Seq<Seq<char>>, row: Seq<Seq<char>>) -> Option<Self::V>;

    /// Reads `row` under `header`.
    fn from_row(header: &Vec<String>, row: &Vec<String>) -> (r: Option<Self>)
        ensures
            r.deep_view() == Self::row_model(header.deep_view(), row.deep_view()),
    ;
}

/// The row of two texts and two numbers that four cells make, where both
/// numbers could be read.
pub open spec fn four_cells_model(
    first: Seq<char>,
    second: Seq<char>,
    third: Option<u32>,
    fourth: Option<u32>,
) -> Option<(Seq<char>, Seq<char>, u32, u32)> {
    match (third, fourth) {
        (Some(c), Some(d)) => Some((first, second, c, d)),
        _ => None,
    }
}

/// Makes a row of two texts and two numbers from four cells, of which the
/// last two were read as numbers.
pub fn four_cells(first: &str, second: &str, third: Option<u32>, fourth: Option<u32>) -> (r:
    Option<(String, String, u32, u32)>)
    ensures
        r.deep_view() == four_cells_model(first@, second@, third, fourth),
{
    match (third, fourth) {
        (Some(c), Some(d)) => Some((String::from_str(first), String::from_str(second), c, d)),
        _ => None,
    }
}

/// A row of two texts and two numbers, taken by position: the first four
/// cells of the row, whatever their headings.
impl Record for (String, String, u32, u32) {
    open spec fn row_model(header: Seq<Seq<char>>, row: Seq<Seq<char>>) -> Option<
        (Seq<char>, Seq<char>, u32, u32),
    > {
        if row.len() < 4 {
            None
        } else {
            four_cells_model(row[0], row[1], csv_u32(row[2]), csv_u32(row[3]))
        }
    }

    fn from_row(header: &Vec<String>, row: &Vec<String>) -> (r: Option<Self>) {
        if row.len() < 4 {
            return None;
        }
        four_cells(
            row[0].as_str(),
            row[1].as_str(),
            read_u32(row[2].as_str()),
            read_u32(row[3].as_str()),
        )
    }
}

/// A row of three texts, taken by position: the first three cells of the
/// row, whatever their headings.
impl Record for (String, String, String) {
    open spec fn row_model(header: Seq<Seq<char>>, row: Seq<Seq<char>>) -> Option<
        (Seq<char>, Seq<char>, Seq<char>),
    > {
        if row.len() < 3 {
            None
        } else {
            Some((row[0], row[1], row[2]))
        }
    }

    fn from_row(header: &Vec<String>, row: &Vec<String>) -> (r: Option<Self>) {
        if row.len() < 3 {
            return None;
        }
        Some((row[0].clone(), row[1].clone(), row[2].clone()))
    }
}

/// What the rows `rows` decode to under `header`: the records in the order
/// of the rows, or the failure that names the first row that has another
/// number of cells than the header or that holds no record.
pub open spec fn rows_model<T: Record>(header: Seq<Seq<char>>, rows: Seq<Seq<Seq<char>>>) -> Result<
    Seq<T::V>,
    ErrorModel,
>
    decreases rows.len(),
{
    if rows.len() == 0 {
        Ok(Seq::empty())
    } else {
        match rows_model::<T>(header, rows.drop_last()) {
            Err(e) => Err(e),
            Ok(head) => match row_fit::<T>(header, rows.last()) {
                Some(record) => Ok(head.push(record)),
                None => Err(ErrorModel::Record { row: (rows.len() - 1) as nat }),
            },
        }
    }
}

/// The record that `row` holds under `header`, given that it has as many
/// cells as the header.
pub open spec fn row_fit<T: Record>(header: Seq<Seq<char>>, row: Seq<Seq<char>>) -> Option<T::V> {
    if row.len() == header.len() {
        T::row_model(header, row)
    } else {
        None
    }
}

/// What a table decodes to: its first row is the header, the others hold
/// the records. A table without rows holds no records.
pub open spec fn table_model<T: Record>(table: Seq<Seq<Seq<char>>>) -> Result<
    Seq<T::V>,
    ErrorModel,
> {
    if table.len() == 0 {
        Ok(Seq::empty())
    } else {
        rows_model::<T>(table[0], table.skip(1))
    }
}

/// The content of a decoded table or of the failure to decode it.
pub open spec fn records_model<T: Record>(r: Result<Vec<T>, AppError>) -> Result<
    Seq<T::V>,
    ErrorModel,
> {
    match r {
        Ok(records) => Ok(records.deep_view()),
        Err(e) => Err(e.deep_view()),
    }
}

/// Decodes a table whose first row is the header.
pub fn decode_table<T: Record>(table: &Vec<Vec<String>>) -> (r: Result<Vec<T>, AppError>)
    ensures
        records_model(r) == table_model::<T>(table.deep_view()),
{
    let mut records: Vec<T> = Vec::new();
    if table.len() == 0 {
        assert(records.deep_view() =~= Seq::<T::V>::empty());
        return Ok(records);
    }
    let header = &table[0];
    let ghost h = header.deep_view();
    let ghost rows = table.deep_view().skip(1);
    let mut i: usize = 1;
    assert(records.deep_view() =~= Seq::<T::V>::empty());
    while i < table.len()
        invariant
            1 <= i <= table.len(),
            h == table.deep_view()[0],
            h == header.deep_view(),
            rows == table.deep_view().skip(1),
            rows_model::<T>(h, rows.take(i - 1)) == Ok::<Seq<T::V>, ErrorModel>(
                records.deep_view(),
            ),
        decreases table.len() - i,
    {
        let row = &table[i];
        let ghost upto = rows.take(i as int);
        let ghost before = records.deep_view();
        proof {
            assert(upto.drop_last() =~= rows.take(i - 1));
        }
        let fit = if row.len() == header.len() {
            T::from_row(header, row)
        } else {
            None
        };
        match fit {
            Some(record) => {
                records.push(record);
                assert(records.deep_view() =~= before.push(record.deep_view()));
            },
            None => {
                proof {
                    lemma_rows_fail_early::<T>(h, rows, i as int);
                }
                return Err(AppError::RecordError { row: i - 1 });
            },
        }
        i += 1;
    }
    assert(rows.take(table.len() - 1) =~= rows);
    Ok(records)
}

/// A failure among the first `n` rows is the failure of all the rows.
pub proof fn lemma_rows_fail_early<T: Record>(
    header: Seq<Seq<char>>,
    rows: Seq<Seq<Seq<char>>>,
    n: int,
)
    requires
        0 <= n <= rows.len(),
        rows_model::<T>(header, rows.take(n)) is Err,
    ensures
        rows_model::<T>(header, rows) == rows_model::<T>(header, rows.take(n)),
    decreases rows.len() - n,
{
    if n == rows.len() {
        assert(rows.take(n) =~= rows);
    } else {
        assert(rows.take(n + 1).drop_last() =~= rows.take(n));
        lemma_rows_fail_early::<T>(header, rows, n + 1);
    }
}

/// What tabular text decodes to: the records of the table that `csv`
/// reads out of it, or the failure where the crate rejects the text.
pub open spec fn text_model<T: Record>(data: Seq<char>) -> Result<Seq<T::V>, ErrorModel> {
    match csv_records(data) {
        Ok(table) => table_model::<T>(table),
        Err(e) => Err(ErrorModel::Csv(e)),
    }
}

/// Decodes tabular text into records of the shape `T`. The text decodes as
/// a whole: where `csv` rejects it the error is the crate's, and where a
/// row does not fit the shape the error names the first such row.
pub fn parse_csv<T: Record>(csv_data: &str) -> (r: Result<Vec<T>, AppError>)
    ensures
        records_model(r) == text_model::<T>(csv_data@),
{
    match read_records(csv_data) {
        Ok(table) => decode_table(&table),
        Err(e) => Err(AppError::CsvError(e)),
    }
}

/// Rows decode one for one and in order, or not at all: a success holds
/// the record of every row at the row's place, and a failure names a row
/// that does not fit, before which every row fits.
pub proof fn lemma_rows_decode_in_order<T: Record>(
    header: Seq<Seq<char>>,
    rows: Seq<Seq<Seq<char>>>,
)
    ensures
        match rows_model::<T>(header, rows) {
            Ok(records) => {
                &&& records.len() == rows.len()
                &&& forall|i: int|
                    0 <= i < rows.len() ==> row_fit::<T>(header, rows[i]) == Some(records[i])
            },
            Err(e) => exists|i: int|
                {
                    &&& 0 <= i < rows.len()
                    &&& e == (ErrorModel::Record { row: i as nat })
                    &&& row_fit::<T>(header, #[trigger] rows[i]) is None
                    &&& forall|j: int| 0 <= j < i ==> row_fit::<T>(header, rows[j]) is Some
                },
        },
    decreases rows.len(),
{
    if rows.len() > 0 {
        let front = rows.drop_last();
        lemma_rows_decode_in_order::<T>(header, front);
        match rows_model::<T>(header, front) {
            Ok(head) => {
                match row_fit::<T>(header, rows.last()) {
                    Some(record) => {
                        assert forall|i: int| 0 <= i < rows.len() implies row_fit::<T>(
                            header,
                            rows[i],
                        ) == Some(head.push(record)[i]) by {
                            if i < front.len() {
                                assert(rows[i] == front[i]);
                            }
                        }
                    },
                    None => {
                        let last = rows.len() - 1;
                        assert forall|j: int| 0 <= j < last implies row_fit::<T>(
                            header,
                            rows[j],
                        ) is Some by {
                            assert(rows[j] == front[j]);
                        }
                    },
                }
            },
            Err(e) => {
                let i = choose|i: int|
                    {
                        &&& 0 <= i < front.len()
                        &&& e == (ErrorModel::Record { row: i as nat })
                        &&& row_fit::<T>(header, #[trigger] front[i]) is None
                        &&& forall|j: int| 0 <= j < i ==> row_fit::<T>(header, front[j]) is Some
                    };
                assert forall|j: int| 0 <= j < i implies row_fit::<T>(header, rows[j]) is Some by {
                    assert(rows[j] == front[j]);
                }
            },
        }
    }
}

/// One row with another number of cells than the header fails the whole
/// table: no record comes out of it, whatever the other rows hold.
pub proof fn lemma_ragged_table_fails<T: Record>(table: Seq<Seq<Seq<char>>>, at: int)
    requires
        1 <= at < table.len(),
        table[at].len() != table[0].len(),
    ensures
        table_model::<T>(table) is Err,
{
    let rows = table.skip(1);
    lemma_rows_decode_in_order::<T>(table[0], rows);
    assert(rows[at - 1] == table[at]);
}

} // verus!
