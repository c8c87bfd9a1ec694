//! Backend kinds and their catalog queries.
//!
//! A backend is one supported database server kind. Selecting the backend
//! from its configured name happens once at startup; an unknown name is
//! rejected with `UnsupportedBackend` before any catalog query is issued.

use vstd::prelude::*;
use vstd::string::StringExecFns;

use crate::config::ConnectionDescriptor;
use crate::errors::BackupError;
use crate::numfmt::dec_rep;
use crate::numfmt::dec_string;

verus! {

#[derive(Clone, Copy, PartialEq, Eq, Structural, Debug)]
pub enum BackendKind {
    Mysql,
    Postgres,
    Sqlserver,
}

/// Resolves the configured backend kind string to a backend, or reports
/// `UnsupportedBackend` for any other string.
pub fn backend_from_name(name: &String) -> (r: Result<BackendKind, BackupError>)
    ensures
        name@ == "mysql"@ ==> r == Ok::<BackendKind, BackupError>(BackendKind::Mysql),
        name@ == "postgres"@ ==> r == Ok::<BackendKind, BackupError>(BackendKind::Postgres),
        name@ == "sqlserver"@ ==> r == Ok::<BackendKind, BackupError>(BackendKind::Sqlserver),
        name@ != "mysql"@ && name@ != "postgres"@ && name@ != "sqlserver"@ ==> r == Err::<
            BackendKind,
            BackupError,
        >(BackupError::UnsupportedBackend),
{
    proof {
        reveal_strlit("mysql");
        reveal_strlit("postgres");
        reveal_strlit("sqlserver");
        assert("mysql"@.len() == 5);
        assert("postgres"@.len() == 8);
        assert("sqlserver"@.len() == 9);
    }
    let mysql_name: String = "mysql".to_owned();
    let postgres_name: String = "postgres".to_owned();
    let sqlserver_name: String = "sqlserver".to_owned();
    if *name == mysql_name {
        Ok(BackendKind::Mysql)
    } else if *name == postgres_name {
        Ok(BackendKind::Postgres)
    } else if *name == sqlserver_name {
        Ok(BackendKind::Sqlserver)
    } else {
        Err(BackupError::UnsupportedBackend)
    }
}

/// The backend-native query that lists the databases present on the server.
pub fn list_query(kind: BackendKind) -> (r: String)
    ensures
        kind == BackendKind::Mysql ==> r@ == "SHOW DATABASES"@,
        kind == BackendKind::Postgres ==> r@ == "SELECT datname FROM pg_database"@,
        kind == BackendKind::Sqlserver ==> r@ == "SELECT name FROM sys.databases"@,
{
    match kind {
        BackendKind::Mysql => "SHOW DATABASES".to_owned(),
        BackendKind::Postgres => "SELECT datname FROM pg_database".to_owned(),
        BackendKind::Sqlserver => "SELECT name FROM sys.databases".to_owned(),
    }
}

/// The PostgreSQL connection string (keyword form).
pub open spec fn pg_conn_spec(c: ConnectionDescriptor) -> Seq<char> {
    "host="@ + c.host@ + " port="@ + dec_rep(c.port as nat) + " user="@ + c.username@
        + " password="@ + c.password@
}

/// Renders the PostgreSQL connection string for the catalog query.
pub fn pg_conn_string(c: &ConnectionDescriptor) -> (r: String)
    ensures
        r@ == pg_conn_spec(*c),
{
    let r = "host=".to_owned().concat(c.host.as_str()).concat(" port=").concat(
        dec_string(c.port as u128).as_str(),
    ).concat(" user=").concat(c.username.as_str()).concat(" password=").concat(
        c.password.as_str(),
    );
    proof {
        assert(r@ =~= pg_conn_spec(*c));
    }
    r
}

/// The SQL Server connection string (ADO form).
pub open spec fn ado_conn_spec(c: ConnectionDescriptor) -> Seq<char> {
    "server=tcp:"@ + c.host@ + ","@ + dec_rep(c.port as nat) + ";user id="@ + c.username@
        + ";password="@ + c.password@ + ";"@
}

/// Renders the SQL Server connection string for the catalog query.
pub fn ado_conn_string(c: &ConnectionDescriptor) -> (r: String)
    ensures
        r@ == ado_conn_spec(*c),
{
    let r = "server=tcp:".to_owned().concat(c.host.as_str()).concat(",").concat(
        dec_string(c.port as u128).as_str(),
    ).concat(";user id=").concat(c.username.as_str()).concat(";password=").concat(
        c.password.as_str(),
    ).concat(";");
    proof {
        assert(r@ =~= ado_conn_spec(*c));
    }
    r
}

} // verus!
