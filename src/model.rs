pub mod project_models;
pub mod tracking_laws;
