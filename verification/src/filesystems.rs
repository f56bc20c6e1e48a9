//! The table of filesystems: what stands in its cells. Printing it, and
//! colouring the rows of filesystems that are nearly full, is left to the
//! caller.

use vstd::prelude::*;
use vstd::string::StringExecFns;
use crate::list::{cell_views, gibibytes_text, table_view, Cell, CellView};
use crate::policy::NamedFilesystem;
use crate::text::{append_decimal, append_natural, decimal_text, owned};
use crate::time::{num_days, whole_days};

verus! {

/// The columns of the table of filesystems.
#[derive(Clone, Copy, Debug, PartialEq, Eq, Structural)]
pub enum FilesystemsColumns {
    Name,
    Used,
    Free,
    Total,
    Duration,
    Retention,
}

/// How full a filesystem is, in bytes.
#[derive(Clone, Copy, Debug, PartialEq, Eq, Structural)]
pub struct Usage {
    pub used: u64,
    pub available: u64,
}

/// The columns that are shown where none are asked for.
pub open spec fn default_columns() -> Seq<FilesystemsColumns> {
    seq![
        FilesystemsColumns::Name,
        FilesystemsColumns::Used,
        FilesystemsColumns::Free,
        FilesystemsColumns::Total,
        FilesystemsColumns::Duration,
        FilesystemsColumns::Retention,
    ]
}

/// The columns that are asked for, or the default ones.
pub open spec fn columns_of(output: &Option<Vec<FilesystemsColumns>>) -> Seq<FilesystemsColumns> {
    match output {
        Some(columns) => columns@,
        None => default_columns(),
    }
}

/// A span in whole days, followed by `d`.
pub open spec fn days_text(span: i64) -> Seq<char> {
    decimal_text(whole_days(span as int)) + "d"@
}

/// The cell of one column for a filesystem. The cells of a disabled
/// filesystem are dim, and its longest duration reads `disabled`.
pub open spec fn cell_of(column: FilesystemsColumns, entry: &NamedFilesystem, usage: Usage) -> CellView {
    let dim = entry.filesystem.disabled;
    match column {
        FilesystemsColumns::Name => CellView {
            text: entry.name@,
            right: false,
            bold: false,
            dim,
            color: None,
        },
        FilesystemsColumns::Used => CellView {
            text: gibibytes_text(usage.used as nat),
            right: true,
            bold: false,
            dim,
            color: None,
        },
        FilesystemsColumns::Free => CellView {
            text: gibibytes_text(usage.available as nat),
            right: true,
            bold: false,
            dim,
            color: None,
        },
        FilesystemsColumns::Total => CellView {
            text: gibibytes_text((usage.used + usage.available) as nat),
            right: true,
            bold: false,
            dim,
            color: None,
        },
        FilesystemsColumns::Duration => if entry.filesystem.disabled {
            CellView { text: "disabled"@, right: false, bold: false, dim, color: None }
        } else {
            CellView {
                text: days_text(entry.filesystem.max_duration),
                right: true,
                bold: false,
                dim,
                color: None,
            }
        },
        FilesystemsColumns::Retention => CellView {
            text: days_text(entry.filesystem.expired_retention),
            right: true,
            bold: false,
            dim,
            color: None,
        },
    }
}

/// The cells of a filesystem's row, one for each column.
pub open spec fn row_of(columns: Seq<FilesystemsColumns>, entry: &NamedFilesystem, usage: Usage) -> Seq<
    CellView,
> {
    Seq::new(columns.len(), |c: int| cell_of(columns[c], entry, usage))
}

/// The rows of the table, one for each filesystem.
pub open spec fn rows_of(
    columns: Seq<FilesystemsColumns>,
    filesystems: Seq<NamedFilesystem>,
    usages: Seq<Usage>,
) -> Seq<Seq<CellView>> {
    Seq::new(filesystems.len(), |i: int| row_of(columns, &filesystems[i], usages[i]))
}

/// A size in whole gibibytes, for a number of bytes that may be the sum of
/// two sizes.
fn gibibytes(bytes: u128) -> (text: String)
    requires
        bytes <= 2 * u64::MAX,
    ensures
        text@ == gibibytes_text(bytes as nat),
{
    let mut text = String::new();
    append_natural(&mut text, (bytes / 0x4000_0000) as u64);
    text.append("G");
    assert(text@ =~= gibibytes_text(bytes as nat));
    text
}

/// A span in whole days, followed by `d`.
fn days(span: i64) -> (text: String)
    ensures
        text@ == days_text(span),
{
    let mut text = String::new();
    append_decimal(&mut text, num_days(span));
    text.append("d");
    assert(text@ =~= days_text(span));
    text
}

/// Makes the cells of a filesystem's row.
pub fn row_cells(columns: &Vec<FilesystemsColumns>, entry: &NamedFilesystem, usage: Usage) -> (cells:
    Vec<Cell>)
    ensures
        cell_views(cells@) == row_of(columns@, entry, usage),
{
    let dim = entry.filesystem.disabled;
    let mut cells: Vec<Cell> = Vec::new();
    let mut c: usize = 0;
    while c < columns.len()
        invariant
            c <= columns.len(),
            dim == entry.filesystem.disabled,
            cells@.len() == c,
            forall|k: int| 0 <= k < c ==> (#[trigger] cells@[k])@ == cell_of(columns@[k], entry, usage),
        decreases columns.len() - c,
    {
        let cell = match columns[c] {
            FilesystemsColumns::Name => Cell {
                text: owned(entry.name.as_str()),
                right: false,
                bold: false,
                dim,
                color: None,
            },
            FilesystemsColumns::Used => Cell {
                text: gibibytes(usage.used as u128),
                right: true,
                bold: false,
                dim,
                color: None,
            },
            FilesystemsColumns::Free => Cell {
                text: gibibytes(usage.available as u128),
                right: true,
                bold: false,
                dim,
                color: None,
            },
            FilesystemsColumns::Total => Cell {
                text: gibibytes(usage.used as u128 + usage.available as u128),
                right: true,
                bold: false,
                dim,
                color: None,
            },
            FilesystemsColumns::Duration => if entry.filesystem.disabled {
                Cell { text: owned("disabled"), right: false, bold: false, dim, color: None }
            } else {
                Cell {
                    text: days(entry.filesystem.max_duration),
                    right: true,
                    bold: false,
                    dim,
                    color: None,
                }
            },
            FilesystemsColumns::Retention => Cell {
                text: days(entry.filesystem.expired_retention),
                right: true,
                bold: false,
                dim,
                color: None,
            },
        };
        cells.push(cell);
        c += 1;
    }
    assert(cell_views(cells@) =~= row_of(columns@, entry, usage));
    cells
}

/// Makes the rows of the table of filesystems. `usages` holds, for each
/// filesystem of `configured` in its order, how full it is.
pub fn filesystems(
    configured: &Vec<NamedFilesystem>,
    usages: &Vec<Usage>,
    output: &Option<Vec<FilesystemsColumns>>,
) -> (rows: Vec<Vec<Cell>>)
    requires
        usages.len() == configured.len(),
    ensures
        table_view(rows@) == rows_of(columns_of(output), configured@, usages@),
{
    let mut default: Vec<FilesystemsColumns> = Vec::new();
    default.push(FilesystemsColumns::Name);
    default.push(FilesystemsColumns::Used);
    default.push(FilesystemsColumns::Free);
    default.push(FilesystemsColumns::Total);
    default.push(FilesystemsColumns::Duration);
    default.push(FilesystemsColumns::Retention);
    assert(default@ =~= default_columns());
    let columns: &Vec<FilesystemsColumns> = match output {
        Some(columns) => columns,
        None => &default,
    };
    let mut rows: Vec<Vec<Cell>> = Vec::new();
    let mut i: usize = 0;
    while i < configured.len()
        invariant
            i <= configured.len(),
            usages.len() == configured.len(),
            columns@ == columns_of(output),
            rows@.len() == i,
            forall|k: int|
                0 <= k < i ==> cell_views((#[trigger] rows@[k])@) == row_of(
                    columns@,
                    &configured@[k],
                    usages@[k],
                ),
        decreases configured.len() - i,
    {
        let row = row_cells(columns, &configured[i], usages[i]);
        rows.push(row);
        i += 1;
    }
    assert(table_view(rows@) =~= rows_of(columns_of(output), configured@, usages@));
    rows
}

} // verus!
