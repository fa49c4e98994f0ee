//! Infers a structural schema from an example JSON document and lowers it into
//! a netlist of typed streaming components.

pub mod text;
pub mod name_reg;
pub mod types;
pub mod netlist;
pub mod type_reg;
pub mod params;
pub mod components;
pub mod analyzer;
pub mod matcher_manager;
pub mod assembly;
pub mod render;
pub mod file_manager;

