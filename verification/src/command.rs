//! Dump command construction.
//!
//! For one database, each backend gets the exact external command that
//! dumps it: `mysqldump` writes the dump to its standard output;
//! `pg_dump` writes the dump itself to `<folder>/<name>.sql` via its
//! `--file` flag; `sqlcmd` runs a `BACKUP DATABASE` statement that writes
//! `<folder>\<name>.bak` itself. The argument vector is built
//! structurally (one string per argument), so credentials or paths that
//! contain spaces keep their argument boundaries.

use vstd::prelude::*;
use vstd::string::StringExecFns;

use crate::backend::BackendKind;
use crate::config::ConnectionDescriptor;
use crate::numfmt::dec_rep;
use crate::numfmt::dec_string;
use crate::selection::select;
use crate::selection::selection;
use crate::selection::ExportSpec;

verus! {

/// Path of the captured dump file for one database.
pub open spec fn sql_file_path(folder: Seq<char>, db: Seq<char>) -> Seq<char> {
    folder + "/"@ + db + ".sql"@
}

/// Path of the compressed archive for one database.
pub open spec fn zip_file_path(folder: Seq<char>, db: Seq<char>) -> Seq<char> {
    folder + "/"@ + db + ".zip"@
}

/// Path of the backup file that the SQL Server utility writes itself.
pub open spec fn bak_file_path(folder: Seq<char>, db: Seq<char>) -> Seq<char> {
    folder + "\\"@ + db + ".bak"@
}

/// The dump utility invoked for a backend.
pub open spec fn program_name(kind: BackendKind) -> Seq<char> {
    match kind {
        BackendKind::Mysql => "mysqldump"@,
        BackendKind::Postgres => "pg_dump"@,
        BackendKind::Sqlserver => "sqlcmd"@,
    }
}

/// Arguments of `mysqldump`; the dump arrives on standard output.
pub open spec fn mysql_args(c: ConnectionDescriptor, db: Seq<char>) -> Seq<Seq<char>> {
    seq![
        "--host="@ + c.host@,
        "--port="@ + dec_rep(c.port as nat),
        "--user="@ + c.username@,
        "--password="@ + c.password@,
        db,
    ]
}

/// Arguments of `pg_dump`; the utility writes the dump file itself.
pub open spec fn postgres_args(c: ConnectionDescriptor, db: Seq<char>) -> Seq<Seq<char>> {
    seq![
        "--host="@ + c.host@,
        "--port="@ + dec_rep(c.port as nat),
        "--username="@ + c.username@,
        "--dbname="@ + db,
        "--file="@ + sql_file_path(c.folder@, db),
    ]
}

/// The `BACKUP DATABASE` statement handed to `sqlcmd`.
pub open spec fn backup_statement(folder: Seq<char>, db: Seq<char>) -> Seq<char> {
    "BACKUP DATABASE ["@ + db + "] TO DISK='"@ + bak_file_path(folder, db) + "' WITH FORMAT"@
}

/// Arguments of `sqlcmd`; the statement writes the backup file itself.
pub open spec fn sqlserver_args(c: ConnectionDescriptor, db: Seq<char>) -> Seq<Seq<char>> {
    seq![
        "-S"@,
        "tcp:"@ + c.host@ + ","@ + dec_rep(c.port as nat),
        "-U"@,
        c.username@,
        "-P"@,
        c.password@,
        "-Q"@,
        backup_statement(c.folder@, db),
    ]
}

/// The argument vector for dumping `db` with the configured backend.
pub open spec fn dump_args(c: ConnectionDescriptor, db: Seq<char>) -> Seq<Seq<char>> {
    match c.kind {
        BackendKind::Mysql => mysql_args(c, db),
        BackendKind::Postgres => postgres_args(c, db),
        BackendKind::Sqlserver => sqlserver_args(c, db),
    }
}

/// An executable command line: program name and argument vector.
pub struct DumpCommand {
    pub program: String,
    pub args: Vec<String>,
}

/// Renders `<folder>/<db>.sql`.
pub fn sql_path_string(folder: &String, db: &String) -> (r: String)
    ensures
        r@ == sql_file_path(folder@, db@),
{
    folder.clone().concat("/").concat(db.as_str()).concat(".sql")
}

/// Renders `<folder>/<db>.zip`.
pub fn zip_path_string(folder: &String, db: &String) -> (r: String)
    ensures
        r@ == zip_file_path(folder@, db@),
{
    folder.clone().concat("/").concat(db.as_str()).concat(".zip")
}

/// Renders the `BACKUP DATABASE` statement for `sqlcmd`.
fn backup_statement_string(folder: &String, db: &String) -> (r: String)
    ensures
        r@ == backup_statement(folder@, db@),
{
    let r = "BACKUP DATABASE [".to_owned().concat(db.as_str()).concat("] TO DISK='").concat(
        folder.as_str(),
    ).concat("\\").concat(db.as_str()).concat(".bak").concat("' WITH FORMAT");
    proof {
        assert(r@ =~= backup_statement(folder@, db@));
    }
    r
}

/// Builds the exact dump command for one database.
pub fn build_dump_command(c: &ConnectionDescriptor, db: &String) -> (r: DumpCommand)
    ensures
        r.program@ == program_name(c.kind),
        r.args.deep_view() == dump_args(*c, db@),
{
    let port = dec_string(c.port as u128);
    let mut args: Vec<String> = Vec::new();
    match c.kind {
        BackendKind::Mysql => {
            args.push("--host=".to_owned().concat(c.host.as_str()));
            args.push("--port=".to_owned().concat(port.as_str()));
            args.push("--user=".to_owned().concat(c.username.as_str()));
            args.push("--password=".to_owned().concat(c.password.as_str()));
            args.push(db.clone());
            proof {
                assert(args.deep_view() =~= mysql_args(*c, db@));
            }
            DumpCommand { program: "mysqldump".to_owned(), args }
        },
        BackendKind::Postgres => {
            args.push("--host=".to_owned().concat(c.host.as_str()));
            args.push("--port=".to_owned().concat(port.as_str()));
            args.push("--username=".to_owned().concat(c.username.as_str()));
            args.push("--dbname=".to_owned().concat(db.as_str()));
            args.push("--file=".to_owned().concat(sql_path_string(&c.folder, db).as_str()));
            proof {
                assert(args.deep_view() =~= postgres_args(*c, db@));
            }
            DumpCommand { program: "pg_dump".to_owned(), args }
        },
        BackendKind::Sqlserver => {
            args.push("-S".to_owned());
            args.push("tcp:".to_owned().concat(c.host.as_str()).concat(",").concat(port.as_str()));
            args.push("-U".to_owned());
            args.push(c.username.clone());
            args.push("-P".to_owned());
            args.push(c.password.clone());
            args.push("-Q".to_owned());
            args.push(backup_statement_string(&c.folder, db));
            proof {
                assert(args.deep_view() =~= sqlserver_args(*c, db@));
            }
            DumpCommand { program: "sqlcmd".to_owned(), args }
        },
    }
}

/// One planned export: position in the dump loop, database name, command,
/// and the two output paths of the capture-and-compress step.
pub struct ExportTask {
    pub index: usize,
    pub name: String,
    pub command: DumpCommand,
    pub sql_path: String,
    pub zip_path: String,
}

/// What a task of the plan must hold for database `db` at position `i`.
pub open spec fn task_matches(t: ExportTask, c: ConnectionDescriptor, i: int, db: Seq<char>) -> bool {
    &&& t.index as int == i
    &&& t.name@ == db
    &&& t.command.program@ == program_name(c.kind)
    &&& t.command.args.deep_view() == dump_args(c, db)
    &&& t.sql_path@ == sql_file_path(c.folder@, db)
    &&& t.zip_path@ == zip_file_path(c.folder@, db)
}

/// Applies the selection policy and builds the ordered export plan: one
/// task per selected database, in selection order, carrying its loop
/// index, its dump command, and its output paths.
pub fn plan_exports(c: &ConnectionDescriptor, discovered: &Vec<String>, exports: &ExportSpec) -> (r:
    Vec<ExportTask>)
    ensures
        r@.len() == selection(
            discovered.deep_view(),
            exports.inclusion.deep_view(),
            exports.exclusion.deep_view(),
        ).len(),
        forall|i: int|
            0 <= i < r@.len() ==> task_matches(
                r@[i],
                *c,
                i,
                selection(
                    discovered.deep_view(),
                    exports.inclusion.deep_view(),
                    exports.exclusion.deep_view(),
                )[i],
            ),
{
    let selected = select(discovered, exports);
    let ghost sel = selection(
        discovered.deep_view(),
        exports.inclusion.deep_view(),
        exports.exclusion.deep_view(),
    );
    let mut tasks: Vec<ExportTask> = Vec::new();
    let mut i: usize = 0;
    while i < selected.len()
        invariant
            i <= selected.len(),
            selected.deep_view() == sel,
            tasks@.len() == i,
            forall|k: int| 0 <= k < i ==> task_matches(tasks@[k], *c, k, sel[k]),
        decreases selected.len() - i,
    {
        let name = &selected[i];
        let command = build_dump_command(c, name);
        let sql_path = sql_path_string(&c.folder, name);
        let zip_path = zip_path_string(&c.folder, name);
        tasks.push(ExportTask { index: i, name: name.clone(), command, sql_path, zip_path });
        i += 1;
    }
    tasks
}

} // verus!
