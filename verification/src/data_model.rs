//! The clusters and the objects that they are built from.
pub mod cluster_oven_cavity_operational_state;
pub mod cluster_refrigerator_and_temperature_controlled_cabinet_mode;
pub mod cluster_temperature_control;
pub mod cluster_temperature_measurement;
pub mod objects;
