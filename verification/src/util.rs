//! Small building blocks.
pub mod duration_ext;
pub mod epoch;
pub mod error_handling;
pub mod part_file;
pub mod track_map;
pub mod util;
