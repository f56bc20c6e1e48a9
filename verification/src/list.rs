//! The table of workspaces: which workspaces it shows and what stands in
//! its cells. Printing it is left to the caller.

use vstd::prelude::*;
use vstd::string::StringExecFns;
use crate::maintain::covers;
use crate::policy::{filesystem_position, is_configured, lookup, NamedFilesystem};
use crate::store::{Store, StoreView, Workspace, WorkspaceView};
use crate::text::{
    append_decimal, append_natural, contains_text, decimal_text, natural_text, owned, texts,
};
use crate::time::{whole_days, whole_days_wide};

verus! {

/// The columns of the table of workspaces.
#[derive(Clone, Copy, Debug, PartialEq, Eq, Structural)]
pub enum WorkspacesColumns {
    Name,
    User,
    Fs,
    Size,
    Expiry,
    Mountpoint,
}

/// The colour of a cell.
#[derive(Clone, Copy, Debug, PartialEq, Eq, Structural)]
pub enum Color {
    Red,
    Yellow,
}

/// One cell of a table.
#[derive(Debug)]
pub struct Cell {
    pub text: String,
    /// Whether the text is aligned to the right.
    pub right: bool,
    pub bold: bool,
    pub dim: bool,
    pub color: Option<Color>,
}

/// A cell as a mathematical value.
pub struct CellView {
    pub text: Seq<char>,
    pub right: bool,
    pub bold: bool,
    pub dim: bool,
    pub color: Option<Color>,
}

impl View for Cell {
    type V = CellView;

    open spec fn view(&self) -> CellView {
        CellView {
            text: self.text@,
            right: self.right,
            bold: self.bold,
            dim: self.dim,
            color: self.color,
        }
    }
}

/// The cells of a row, as mathematical values.
pub open spec fn cell_views(cells: Seq<Cell>) -> Seq<CellView> {
    cells.map_values(|cell: Cell| cell@)
}

/// The rows of a table, as mathematical values.
pub open spec fn table_view(rows: Seq<Vec<Cell>>) -> Seq<Seq<CellView>> {
    rows.map_values(|row: Vec<Cell>| cell_views(row@))
}

/// A plain cell, aligned to the left.
pub open spec fn plain(text: Seq<char>) -> CellView {
    CellView { text, right: false, bold: false, dim: false, color: None }
}

/// A plain cell, aligned to the right.
pub open spec fn plain_right(text: Seq<char>) -> CellView {
    CellView { text, right: true, bold: false, dim: false, color: None }
}

/// What the volume manager tells of a workspace's volume.
#[derive(Debug)]
pub struct VolumeInfo {
    /// The bytes that the volume refers to.
    pub referenced: u64,
    /// Where the volume is mounted.
    pub mountpoint: String,
}

/// The columns that are shown where none are asked for.
pub open spec fn default_columns() -> Seq<WorkspacesColumns> {
    seq![
        WorkspacesColumns::Name,
        WorkspacesColumns::User,
        WorkspacesColumns::Fs,
        WorkspacesColumns::Size,
        WorkspacesColumns::Expiry,
        WorkspacesColumns::Mountpoint,
    ]
}

/// Where a workspace stands between creation and removal.
#[derive(Clone, Copy, Debug, PartialEq, Eq, Structural)]
pub enum ExpiryStatus {
    /// The retention window is over: the next maintenance removes it.
    DeletedSoon,
    /// Expired; `days` whole days of the retention window are left.
    DeletedIn { days: i64 },
    /// Not expired, and less than thirty days are left: `days` whole days.
    ExpiresSoon { days: i64 },
    /// Not expired; `days` whole days are left.
    ExpiresIn { days: i64 },
}

/// The status of a workspace at the instant `now`.
pub open spec fn expiry_status_of(expiration: int, retention: int, now: int) -> ExpiryStatus {
    if now > expiration + retention {
        ExpiryStatus::DeletedSoon
    } else if now > expiration {
        ExpiryStatus::DeletedIn { days: whole_days(expiration + retention - now) as i64 }
    } else if expiration - now < 30 * 86_400 {
        ExpiryStatus::ExpiresSoon { days: whole_days(expiration - now) as i64 }
    } else {
        ExpiryStatus::ExpiresIn { days: whole_days(expiration - now) as i64 }
    }
}

/// Works out the status of a workspace at the instant `now`.
pub fn expiry_status(expiration: i64, retention: i64, now: i64) -> (status: ExpiryStatus)
    ensures
        status == expiry_status_of(expiration as int, retention as int, now as int),
{
    let boundary: i128 = expiration as i128 + retention as i128;
    let remaining: i128 = expiration as i128 - now as i128;
    if now as i128 > boundary {
        ExpiryStatus::DeletedSoon
    } else if now > expiration {
        ExpiryStatus::DeletedIn { days: whole_days_wide(boundary - now as i128) }
    } else if remaining < 30 * 86_400 {
        ExpiryStatus::ExpiresSoon { days: whole_days_wide(remaining) }
    } else {
        ExpiryStatus::ExpiresIn { days: whole_days_wide(remaining) }
    }
}

/// A number of days in at least two characters, with a blank before a
/// single digit.
pub open spec fn padded_days(days: int) -> Seq<char> {
    if decimal_text(days).len() < 2 {
        " "@ + decimal_text(days)
    } else {
        decimal_text(days)
    }
}

/// The cell that shows a status: bold red for a workspace that is about to
/// be removed or has expired, yellow for one that expires soon.
pub open spec fn expiry_cell_of(status: ExpiryStatus) -> CellView {
    match status {
        ExpiryStatus::DeletedSoon => CellView {
            text: "deleted soon"@,
            right: false,
            bold: true,
            dim: false,
            color: Some(Color::Red),
        },
        ExpiryStatus::DeletedIn { days } => CellView {
            text: "deleted in "@ + padded_days(days as int) + "d"@,
            right: true,
            bold: true,
            dim: false,
            color: Some(Color::Red),
        },
        ExpiryStatus::ExpiresSoon { days } => CellView {
            text: "expires in "@ + padded_days(days as int) + "d"@,
            right: true,
            bold: false,
            dim: false,
            color: Some(Color::Yellow),
        },
        ExpiryStatus::ExpiresIn { days } => CellView {
            text: "expires in "@ + padded_days(days as int) + "d"@,
            right: true,
            bold: false,
            dim: false,
            color: None,
        },
    }
}

/// Appends a number of days in at least two characters.
fn append_padded_days(out: &mut String, days: i64)
    ensures
        final(out)@ == old(out)@ + padded_days(days as int),
{
    proof {
        reveal_strlit(" ");
        lemma_natural_text_len(days as nat);
    }
    if 0 <= days && days < 10 {
        out.append(" ");
        append_decimal(out, days);
        assert(out@ =~= old(out)@ + padded_days(days as int));
    } else {
        proof {
            if days < 0 {
                lemma_natural_text_len((-days) as nat);
            }
        }
        append_decimal(out, days);
    }
}

/// A number below ten has one digit, any other has more.
pub proof fn lemma_natural_text_len(n: nat)
    ensures
        natural_text(n).len() >= 1,
        n < 10 <==> natural_text(n).len() == 1,
    decreases n,
{
    if n >= 10 {
        lemma_natural_text_len(n / 10);
    }
}

/// Makes the cell that shows a status.
pub fn expiry_cell(status: ExpiryStatus) -> (cell: Cell)
    ensures
        cell@ == expiry_cell_of(status),
{
    match status {
        ExpiryStatus::DeletedSoon => Cell {
            text: owned("deleted soon"),
            right: false,
            bold: true,
            dim: false,
            color: Some(Color::Red),
        },
        ExpiryStatus::DeletedIn { days } => {
            let mut text = String::from_str("deleted in ");
            append_padded_days(&mut text, days);
            text.append("d");
            Cell { text, right: true, bold: true, dim: false, color: Some(Color::Red) }
        },
        ExpiryStatus::ExpiresSoon { days } => {
            let mut text = String::from_str("expires in ");
            append_padded_days(&mut text, days);
            text.append("d");
            Cell { text, right: true, bold: false, dim: false, color: Some(Color::Yellow) }
        },
        ExpiryStatus::ExpiresIn { days } => {
            let mut text = String::from_str("expires in ");
            append_padded_days(&mut text, days);
            text.append("d");
            Cell { text, right: true, bold: false, dim: false, color: None }
        },
    }
}

/// A size in whole gibibytes, rounded down.
pub open spec fn gibibytes_text(bytes: nat) -> Seq<char> {
    natural_text(bytes / 0x4000_0000) + "G"@
}

/// Makes the cell that shows a size.
pub fn size_cell(bytes: u64) -> (cell: Cell)
    ensures
        cell@ == plain_right(gibibytes_text(bytes as nat)),
{
    let mut text = String::new();
    append_natural(&mut text, bytes / 0x4000_0000);
    text.append("G");
    assert(text@ =~= gibibytes_text(bytes as nat));
    Cell { text, right: true, bold: false, dim: false, color: None }
}

/// Makes a plain cell.
pub fn text_cell(text: &str) -> (cell: Cell)
    ensures
        cell@ == plain(text@),
{
    Cell { text: owned(text), right: false, bold: false, dim: false, color: None }
}

/// The texts of an optional filter.
pub open spec fn filter_of(filter: &Option<Vec<String>>) -> Option<Seq<Seq<char>>> {
    match filter {
        Some(list) => Some(texts(list@)),
        None => None,
    }
}

/// Whether a filter lets a text pass: no filter lets everything pass, a
/// filter lets pass what it names.
pub open spec fn passes(filter: Option<Seq<Seq<char>>>, text: Seq<char>) -> bool {
    filter is None || filter->0.contains(text)
}

/// Whether the table shows a workspace of `user` on `filesystem_name`.
pub fn is_listed(
    user: &str,
    filesystem_name: &str,
    filter_users: &Option<Vec<String>>,
    filter_filesystems: &Option<Vec<String>>,
) -> (listed: bool)
    ensures
        listed == (passes(filter_of(filter_users), user@) && passes(
            filter_of(filter_filesystems),
            filesystem_name@,
        )),
{
    let user_passes = match filter_users {
        Some(users) => contains_text(users, user),
        None => true,
    };
    let filesystem_passes = match filter_filesystems {
        Some(names) => contains_text(names, filesystem_name),
        None => true,
    };
    user_passes && filesystem_passes
}

/// The cell of one column for a workspace.
pub open spec fn cell_of(
    column: WorkspacesColumns,
    workspace: WorkspaceView,
    retention: i64,
    referenced: u64,
    mountpoint: Seq<char>,
    now: i64,
) -> CellView {
    match column {
        WorkspacesColumns::Name => plain(workspace.name),
        WorkspacesColumns::User => plain(workspace.owner),
        WorkspacesColumns::Fs => plain(workspace.filesystem),
        WorkspacesColumns::Size => plain_right(gibibytes_text(referenced as nat)),
        WorkspacesColumns::Expiry => expiry_cell_of(
            expiry_status_of(workspace.expiration as int, retention as int, now as int),
        ),
        WorkspacesColumns::Mountpoint => plain(mountpoint),
    }
}

/// The cells of a workspace's row, one for each column.
pub open spec fn row_of(
    columns: Seq<WorkspacesColumns>,
    workspace: WorkspaceView,
    retention: i64,
    referenced: u64,
    mountpoint: Seq<char>,
    now: i64,
) -> Seq<CellView> {
    Seq::new(
        columns.len(),
        |c: int| cell_of(columns[c], workspace, retention, referenced, mountpoint, now),
    )
}

/// Makes the cells of a workspace's row.
pub fn row_cells(
    columns: &Vec<WorkspacesColumns>,
    workspace: &Workspace,
    retention: i64,
    info: &VolumeInfo,
    now: i64,
) -> (cells: Vec<Cell>)
    ensures
        cell_views(cells@) == row_of(
            columns@,
            workspace@,
            retention,
            info.referenced,
            info.mountpoint@,
            now,
        ),
{
    let mut cells: Vec<Cell> = Vec::new();
    let mut c: usize = 0;
    while c < columns.len()
        invariant
            c <= columns.len(),
            cells@.len() == c,
            forall|k: int|
                0 <= k < c ==> (#[trigger] cells@[k])@ == cell_of(
                    columns@[k],
                    workspace@,
                    retention,
                    info.referenced,
                    info.mountpoint@,
                    now,
                ),
        decreases columns.len() - c,
    {
        let cell = match columns[c] {
            WorkspacesColumns::Name => text_cell(workspace.name.as_str()),
            WorkspacesColumns::User => text_cell(workspace.owner.as_str()),
            WorkspacesColumns::Fs => text_cell(workspace.filesystem.as_str()),
            WorkspacesColumns::Size => size_cell(info.referenced),
            WorkspacesColumns::Expiry => expiry_cell(
                expiry_status(workspace.expiration, retention, now),
            ),
            WorkspacesColumns::Mountpoint => text_cell(info.mountpoint.as_str()),
        };
        cells.push(cell);
        c += 1;
    }
    assert(cell_views(cells@) =~= row_of(
        columns@,
        workspace@,
        retention,
        info.referenced,
        info.mountpoint@,
        now,
    ));
    cells
}

/// The retention window of the filesystem named `name`.
pub open spec fn retention_of(filesystems: Seq<NamedFilesystem>, name: Seq<char>) -> i64 {
    filesystems[filesystem_position(filesystems, name, 0)].filesystem.expired_retention
}

/// The rows of the table for the first `upto` workspaces of the store: one
/// row for each workspace that the filters let pass and of whose volume
/// something is known, in the order of the store.
pub open spec fn rows_of(
    store: StoreView,
    filesystems: Seq<NamedFilesystem>,
    infos: Seq<Option<VolumeInfo>>,
    filter_users: Option<Seq<Seq<char>>>,
    filter_filesystems: Option<Seq<Seq<char>>>,
    columns: Seq<WorkspacesColumns>,
    now: i64,
    upto: int,
) -> Seq<Seq<CellView>>
    decreases upto,
{
    if upto <= 0 || upto > store.workspaces.len() || upto > infos.len() {
        Seq::empty()
    } else {
        let rest = rows_of(
            store,
            filesystems,
            infos,
            filter_users,
            filter_filesystems,
            columns,
            now,
            upto - 1,
        );
        let workspace = store.workspaces[upto - 1];
        if passes(filter_users, workspace.owner) && passes(
            filter_filesystems,
            workspace.filesystem,
        ) && infos[upto - 1] is Some {
            rest.push(
                row_of(
                    columns,
                    workspace,
                    retention_of(filesystems, workspace.filesystem),
                    infos[upto - 1]->0.referenced,
                    infos[upto - 1]->0.mountpoint@,
                    now,
                ),
            )
        } else {
            rest
        }
    }
}

/// The columns that are asked for, or the default ones.
pub open spec fn columns_of(output: &Option<Vec<WorkspacesColumns>>) -> Seq<WorkspacesColumns> {
    match output {
        Some(columns) => columns@,
        None => default_columns(),
    }
}

/// Makes the rows of the table of workspaces at the instant `now`.
///
/// `infos` holds, for each workspace of the store in its order, what the
/// volume manager told of its volume, or `None` where it told nothing; such
/// a workspace has no row. Every workspace has to lie on a configured
/// filesystem.
pub fn list(
    store: &Store,
    filesystems: &Vec<NamedFilesystem>,
    infos: &Vec<Option<VolumeInfo>>,
    filter_users: &Option<Vec<String>>,
    filter_filesystems: &Option<Vec<String>>,
    output: &Option<Vec<WorkspacesColumns>>,
    now: i64,
) -> (rows: Vec<Vec<Cell>>)
    requires
        covers(store@, filesystems@),
        infos.len() == store@.workspaces.len(),
    ensures
        table_view(rows@) == rows_of(
            store@,
            filesystems@,
            infos@,
            filter_of(filter_users),
            filter_of(filter_filesystems),
            columns_of(output),
            now,
            store@.workspaces.len() as int,
        ),
{
    let mut default: Vec<WorkspacesColumns> = Vec::new();
    default.push(WorkspacesColumns::Name);
    default.push(WorkspacesColumns::User);
    default.push(WorkspacesColumns::Fs);
    default.push(WorkspacesColumns::Size);
    default.push(WorkspacesColumns::Expiry);
    default.push(WorkspacesColumns::Mountpoint);
    assert(default@ =~= default_columns());
    let columns: &Vec<WorkspacesColumns> = match output {
        Some(columns) => columns,
        None => &default,
    };
    let mut rows: Vec<Vec<Cell>> = Vec::new();
    let mut i: usize = 0;
    assert(table_view(rows@) =~= Seq::empty());
    while i < store.len()
        invariant
            i <= store@.workspaces.len(),
            infos.len() == store@.workspaces.len(),
            covers(store@, filesystems@),
            columns@ == columns_of(output),
            table_view(rows@) == rows_of(
                store@,
                filesystems@,
                infos@,
                filter_of(filter_users),
                filter_of(filter_filesystems),
                columns@,
                now,
                i as int,
            ),
        decreases store@.workspaces.len() - i,
    {
        let workspace = store.workspace(i);
        if is_listed(
            workspace.owner.as_str(),
            workspace.filesystem.as_str(),
            filter_users,
            filter_filesystems,
        ) {
            match &infos[i] {
                Some(info) => {
                    assert(is_configured(filesystems@, store@.workspaces[i as int].filesystem));
                    let retention = match lookup(filesystems, workspace.filesystem.as_str()) {
                        Some(at) => filesystems[at].filesystem.expired_retention,
                        None => 0,
                    };
                    let row = row_cells(columns, workspace, retention, info, now);
                    proof {
                        rows@.lemma_push_map_commute(|row: Vec<Cell>| cell_views(row@), row);
                    }
                    rows.push(row);
                },
                None => {},
            }
        }
        i += 1;
    }
    rows
}

} // verus!
