//! Attendance reports from punch clock exports.
//!
//! The rows of an export become records (`record`); the dates with enough
//! records are the reporting period (`active`); for each person of the
//! roster (`roster`), each such date and each of the two checkpoints of a
//! day, the first fitting record says what the cell shows (`matrix`,
//! `reason`); the cells of a department are laid out as one sheet
//! (`layout`), and the sheets make the report (`report`). `import` turns
//! the punch table of a time clock into rows for the office system. `laws`
//! states what holds of every report.

pub mod active;
pub mod calendar;
pub mod import;
pub mod laws;
pub mod layout;
pub mod matrix;
pub mod reason;
pub mod record;
pub mod report;
pub mod roster;
pub mod text;
