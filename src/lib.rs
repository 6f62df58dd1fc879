pub mod natural;
pub mod math;
pub mod generator;
