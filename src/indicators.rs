//! The readings that the probes produce.

use crate::database::{
    cell_explains, cell_has_value, column_i32, column_text, i32_cell_of, read_cell, text_cell_of,
};
use crate::error::HealthError;
use crate::percentage::Percentage;
use vstd::prelude::*;

verus! {

/// Combined readings of the host, taken from one refreshed snapshot.
#[derive(Clone, Debug)]
pub struct SystemHealth {
    pub service_state: ServiceState,
    pub global_cpu_usage_percentage: Percentage,
    pub used_memory_percentage: Percentage,
}

/// One channel whose spool backlog is above the per-channel limit.
#[derive(Clone, Debug)]
pub struct SpoolFileCount {
    pub spool_file_count: i32,
    pub description: String,
    pub directory: String,
}

/// The three cells of a channel row, in column order.
pub open spec fn description_cell(row: tiberius::Row) -> Result<Option<String>, tiberius::error::Error> {
    text_cell_of(row, "description"@)
}

pub open spec fn count_cell(row: tiberius::Row) -> Result<Option<i32>, tiberius::error::Error> {
    i32_cell_of(row, "spool_file_count"@)
}

pub open spec fn directory_cell(row: tiberius::Row) -> Result<Option<String>, tiberius::error::Error> {
    text_cell_of(row, "directory"@)
}

/// Every cell of the row holds a value.
pub open spec fn row_is_full_channel(row: tiberius::Row) -> bool {
    &&& cell_has_value(description_cell(row))
    &&& cell_has_value(count_cell(row))
    &&& cell_has_value(directory_cell(row))
}

/// `s` holds the row's description, count and directory, field by field.
pub open spec fn is_channel_of(s: SpoolFileCount, row: tiberius::Row) -> bool {
    &&& description_cell(row) == Ok::<Option<String>, tiberius::error::Error>(Some(s.description))
    &&& count_cell(row) == Ok::<Option<i32>, tiberius::error::Error>(Some(s.spool_file_count))
    &&& directory_cell(row) == Ok::<Option<String>, tiberius::error::Error>(Some(s.directory))
}

/// `e` is the error of the row's first cell without a value.
pub open spec fn row_error_explains(row: tiberius::Row, e: HealthError) -> bool {
    if !cell_has_value(description_cell(row)) {
        cell_explains(description_cell(row), e)
    } else if !cell_has_value(count_cell(row)) {
        cell_explains(count_cell(row), e)
    } else {
        cell_explains(directory_cell(row), e)
    }
}

impl SpoolFileCount {
    /// A channel built from the three cells of its row, in column order:
    /// description, backlog count, spool directory. The first cell without a
    /// value gives the error.
    pub fn from_columns(
        description: Result<Option<String>, tiberius::error::Error>,
        spool_file_count: Result<Option<i32>, tiberius::error::Error>,
        directory: Result<Option<String>, tiberius::error::Error>,
    ) -> (r: Result<SpoolFileCount, HealthError>)
        ensures
            r is Ok <==> (cell_has_value(description) && cell_has_value(spool_file_count)
                && cell_has_value(directory)),
            r matches Ok(s) ==> {
                &&& description == Ok::<Option<String>, tiberius::error::Error>(Some(s.description))
                &&& spool_file_count == Ok::<Option<i32>, tiberius::error::Error>(Some(s.spool_file_count))
                &&& directory == Ok::<Option<String>, tiberius::error::Error>(Some(s.directory))
            },
            r matches Err(e) ==> if !cell_has_value(description) {
                cell_explains(description, e)
            } else if !cell_has_value(spool_file_count) {
                cell_explains(spool_file_count, e)
            } else {
                cell_explains(directory, e)
            },
    {
        let description = read_cell(description, "Failed to convert description")?;
        let spool_file_count = read_cell(spool_file_count, "Failed to convert spool_file_count")?;
        let directory = read_cell(directory, "Failed to convert directory")?;
        Ok(SpoolFileCount { spool_file_count, description, directory })
    }

    /// A channel read from a row of the unhealthy-channel query: its fields
    /// are the row's cells; a NULL or unreadable cell is an error.
    pub fn from_row(row: &tiberius::Row) -> (r: Result<SpoolFileCount, HealthError>)
        ensures
            r is Ok <==> row_is_full_channel(*row),
            r matches Ok(s) ==> is_channel_of(s, *row),
            r matches Err(e) ==> row_error_explains(*row, e),
    {
        SpoolFileCount::from_columns(
            column_text(row, "description"),
            column_i32(row, "spool_file_count"),
            column_text(row, "directory"),
        )
    }
}

/// Whether the monitored service has a running process on the host.
#[derive(Clone, Copy, Debug, PartialEq, Eq, Structural)]
pub enum ServiceState {
    Up,
    Down,
}

impl ServiceState {
    /// `Up` exactly when a matching process was found.
    pub fn from_presence(found: bool) -> (r: ServiceState)
        ensures
            r == (if found { ServiceState::Up } else { ServiceState::Down }),
    {
        if found {
            ServiceState::Up
        } else {
            ServiceState::Down
        }
    }
}

} // verus!
