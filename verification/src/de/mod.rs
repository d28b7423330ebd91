pub mod laws;
pub mod methods;
pub mod rules;
