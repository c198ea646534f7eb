//! Two pieces of a data warehouse: the interpreter that refreshes an aggregating index, and the
//! suite of checks for implementations of the background API.
//!
//! Both alternate calls to the outside with decisions. This library makes the decisions: it says
//! which call comes next, and what to make of the answer.
pub mod background;
pub mod background_laws;
pub mod check;
pub mod job_run;
pub mod physical_plan;
pub mod refresh;
pub mod refresh_laws;
pub mod refresh_plan;
pub mod schema;
pub mod suite;
pub mod task_run;
pub mod text;
pub mod timestamp;
