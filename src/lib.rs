//! Register addresses of Dynamixel servo models, read from the vendor's
//! documentation tables.
//!
//! The pipeline reads the control table of each model's documentation page
//! (`document`, `extract`, `row`), groups the models whose tables share one
//! layout (`grouping`), and emits the table of each group together with a
//! dispatch from every known model and model family to its table (`emit`).
//! `control_table` gives the table of one model or family at run time.

pub mod text;
pub mod register;
pub mod models;
pub mod row;
pub mod table;
pub mod extract;
pub mod document;
pub mod grouping;
pub mod emit;
pub mod control_table;
