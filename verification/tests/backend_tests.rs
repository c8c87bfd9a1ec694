use db_backup::backend::ado_conn_string;
use db_backup::backend::backend_from_name;
use db_backup::backend::list_query;
use db_backup::backend::pg_conn_string;
use db_backup::backend::BackendKind;
use db_backup::config::ConnectionDescriptor;
use db_backup::errors::BackupError;

fn descriptor(kind: BackendKind) -> ConnectionDescriptor {
    ConnectionDescriptor {
        kind,
        host: "localhost".to_string(),
        port: 5432,
        username: "admin".to_string(),
        password: "secret".to_string(),
        folder: "backups".to_string(),
    }
}

#[test]
fn known_backend_names_resolve() {
    assert_eq!(backend_from_name(&"mysql".to_string()), Ok(BackendKind::Mysql));
    assert_eq!(backend_from_name(&"postgres".to_string()), Ok(BackendKind::Postgres));
    assert_eq!(backend_from_name(&"sqlserver".to_string()), Ok(BackendKind::Sqlserver));
}

#[test]
fn unknown_backend_name_is_unsupported() {
    assert_eq!(
        backend_from_name(&"oracle".to_string()),
        Err(BackupError::UnsupportedBackend)
    );
    assert_eq!(
        backend_from_name(&"".to_string()),
        Err(BackupError::UnsupportedBackend)
    );
    assert_eq!(
        backend_from_name(&"MySQL".to_string()),
        Err(BackupError::UnsupportedBackend)
    );
}

#[test]
fn list_queries_are_backend_native() {
    assert_eq!(list_query(BackendKind::Mysql), "SHOW DATABASES");
    assert_eq!(list_query(BackendKind::Postgres), "SELECT datname FROM pg_database");
    assert_eq!(list_query(BackendKind::Sqlserver), "SELECT name FROM sys.databases");
}

#[test]
fn postgres_connection_string_is_keyword_form() {
    let c = descriptor(BackendKind::Postgres);
    assert_eq!(
        pg_conn_string(&c),
        "host=localhost port=5432 user=admin password=secret"
    );
}

#[test]
fn sqlserver_connection_string_is_ado_form() {
    let mut c = descriptor(BackendKind::Sqlserver);
    c.port = 1433;
    assert_eq!(
        ado_conn_string(&c),
        "server=tcp:localhost,1433;user id=admin;password=secret;"
    );
}

#[test]
fn error_descriptions_name_the_kind() {
    assert_eq!(BackupError::UnsupportedBackend.describe(), "unsupported backend kind");
    assert_eq!(
        BackupError::Configuration.describe(),
        "configuration unreadable or malformed"
    );
    assert_eq!(
        BackupError::Connection.describe(),
        "could not reach or authenticate against the server"
    );
    assert_eq!(
        BackupError::ExportProcess.describe(),
        "dump process exited with a failure status"
    );
    assert_eq!(
        BackupError::Persistence.describe(),
        "could not persist or compress the dump"
    );
}
