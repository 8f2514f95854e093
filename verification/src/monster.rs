//! The monster records of the dataset and the closed vocabularies they use.

pub mod ailment;
pub mod color;
pub mod effect;
pub mod kinds;
pub mod record;
