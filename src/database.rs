//! The data-store side of the probes: the queries, the reading of their
//! rows, and the connectivity probe.

use crate::error::HealthError;
use crate::health::OK;
use crate::health::SERVICE_UNAVAILABLE;
use vstd::prelude::*;

verus! {

#[verifier::external_type_specification]
#[verifier::external_body]
pub struct ExRow(tiberius::Row);

/// Counts the pending tasks; its one row holds the count in `HIQUEUECOUNT`.
pub const HI_QUEUE_QUERY: &'static str = "SELECT COUNT(*) as HIQUEUECOUNT FROM HI_QUEUE";

/// Lists the installed channels whose backlog is above the limit bound to
/// `@P1`.
pub const UNHEALTHY_SPOOL_FILES_QUERY: &'static str = "select DESCRP as description, SPOOl_FILE_COUNT as spool_file_count, SPOOL_DIR as directory from CHANNEL where Installed = 'Y' and SPOOl_FILE_COUNT > @P1";

/// Selects a constant; a live connection answers `1` in `connection_state`.
pub const CONNECTION_QUERY: &'static str = "SELECT 1 as connection_state";

/// What tiberius::Row::try_get gives for the column named `column` read as
/// an `i32`; it depends on the row and the name alone.
pub uninterp spec fn i32_cell_of(row: tiberius::Row, column: Seq<char>) -> Result<Option<i32>, tiberius::error::Error>;

/// What tiberius::Row::try_get gives for the column named `column` read as
/// text, the text copied into a `String`; it depends on the row and the name
/// alone.
pub uninterp spec fn text_cell_of(row: tiberius::Row, column: Seq<char>) -> Result<Option<String>, tiberius::error::Error>;

/// Relies on tiberius::Row::try_get: the column named `column` as an `i32`,
/// `None` for NULL, an error for a missing column or another SQL type.
#[verifier::external_body]
pub(crate) fn column_i32(row: &tiberius::Row, column: &str) -> (r: Result<Option<i32>, tiberius::error::Error>)
    ensures
        r == i32_cell_of(*row, column@),
{
    row.try_get::<i32, &str>(column)
}

/// Relies on tiberius::Row::try_get: the column named `column` as text,
/// `None` for NULL, an error for a missing column or another SQL type.
#[verifier::external_body]
pub(crate) fn column_text(row: &tiberius::Row, column: &str) -> (r: Result<Option<String>, tiberius::error::Error>)
    ensures
        r == text_cell_of(*row, column@),
{
    row.try_get::<&str, &str>(column).map(|v| v.map(String::from))
}

/// The cell held a value.
pub open spec fn cell_has_value<T>(cell: Result<Option<T>, tiberius::error::Error>) -> bool {
    cell matches Ok(Some(_))
}

/// `e` is the error that a cell without a value stands for: the driver's
/// error, or a conversion error for NULL.
pub open spec fn cell_explains<T>(cell: Result<Option<T>, tiberius::error::Error>, e: HealthError) -> bool {
    match cell {
        Err(x) => e == HealthError::Database(x),
        Ok(None) => e is Conversion,
        Ok(Some(_)) => false,
    }
}

/// The value of a cell, or the error it stands for; `message` describes a
/// NULL.
pub fn read_cell<T>(cell: Result<Option<T>, tiberius::error::Error>, message: &str) -> (r: Result<T, HealthError>)
    ensures
        cell matches Ok(Some(v)) ==> r == Ok::<T, HealthError>(v),
        cell matches Ok(None) ==> (r matches Err(HealthError::Conversion(m)) && m@ == message@),
        cell matches Err(x) ==> r == Err::<T, HealthError>(HealthError::Database(x)),
{
    match cell {
        Ok(Some(v)) => Ok(v),
        Ok(None) => Err(HealthError::Conversion(message.to_owned())),
        Err(x) => Err(HealthError::Database(x)),
    }
}

/// The state of the connection to the data store.
#[derive(Clone, Copy, Debug, PartialEq, Eq, Structural)]
pub enum DatabaseConnectionState {
    Healthy,
    Unhealthy,
}

/// The answer of the connectivity probe.
#[derive(Clone, Copy, Debug, PartialEq, Eq, Structural)]
pub struct SelfHealth {
    pub database_health: DatabaseConnectionState,
}

impl SelfHealth {
    pub fn healthy() -> (r: Self)
        ensures
            r.database_health == DatabaseConnectionState::Healthy,
    {
        Self { database_health: DatabaseConnectionState::Healthy }
    }

    pub fn unhealthy() -> (r: Self)
        ensures
            r.database_health == DatabaseConnectionState::Unhealthy,
    {
        Self { database_health: DatabaseConnectionState::Unhealthy }
    }

    /// `OK` for a live connection, `SERVICE_UNAVAILABLE` otherwise.
    pub fn status_code(&self) -> (r: u16)
        ensures
            self.database_health == DatabaseConnectionState::Healthy ==> r == OK,
            self.database_health == DatabaseConnectionState::Unhealthy ==> r == SERVICE_UNAVAILABLE,
    {
        match self.database_health {
            DatabaseConnectionState::Healthy => OK,
            DatabaseConnectionState::Unhealthy => SERVICE_UNAVAILABLE,
        }
    }
}

/// The connection state that the answer cell of the connectivity query
/// shows: healthy exactly when it holds `1`.
pub fn connection_state_of(cell: Result<Option<i32>, tiberius::error::Error>) -> (r: DatabaseConnectionState)
    ensures
        (r == DatabaseConnectionState::Healthy) <==> (cell matches Ok(Some(v)) && v == 1),
{
    match cell {
        Ok(Some(v)) => if v == 1 {
            DatabaseConnectionState::Healthy
        } else {
            DatabaseConnectionState::Unhealthy
        },
        _ => DatabaseConnectionState::Unhealthy,
    }
}

/// The connection state shown by the reply to the connectivity query. A
/// failed query is an error; a missing row is an unhealthy connection, as is
/// a row that does not hold `1`.
pub fn get_db_status(reply: Result<Option<tiberius::Row>, tiberius::error::Error>) -> (r: Result<
    DatabaseConnectionState,
    HealthError,
>)
    ensures
        reply matches Err(x) ==> r == Err::<DatabaseConnectionState, HealthError>(HealthError::Database(x)),
        reply matches Ok(None) ==> r == Ok::<DatabaseConnectionState, HealthError>(DatabaseConnectionState::Unhealthy),
        reply is Ok ==> r is Ok,
        reply matches Ok(Some(rw)) ==> (r == Ok::<DatabaseConnectionState, HealthError>(DatabaseConnectionState::Healthy)
            <==> (i32_cell_of(rw, "connection_state"@) matches Ok(Some(v)) && v == 1)),
{
    match reply {
        Err(x) => Err(HealthError::Database(x)),
        Ok(None) => Ok(DatabaseConnectionState::Unhealthy),
        Ok(Some(row)) => Ok(connection_state_of(column_i32(&row, "connection_state"))),
    }
}

/// The answer of the connectivity probe. It never fails: any error is an
/// unhealthy connection.
pub fn self_health(status: Result<DatabaseConnectionState, HealthError>) -> (r: SelfHealth)
    ensures
        (r.database_health == DatabaseConnectionState::Healthy) <==> (status matches Ok(s) && s
            == DatabaseConnectionState::Healthy),
        status is Err ==> r.database_health == DatabaseConnectionState::Unhealthy,
{
    match status {
        Ok(DatabaseConnectionState::Healthy) => SelfHealth::healthy(),
        Ok(DatabaseConnectionState::Unhealthy) => SelfHealth::unhealthy(),
        Err(_) => SelfHealth::unhealthy(),
    }
}

} // verus!
