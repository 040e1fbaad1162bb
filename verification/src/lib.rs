pub mod data;
pub mod pace;
pub mod runner;
pub mod scenario;
pub mod validator;

pub use crate::data::Scenario;
pub use crate::pace::Rate;
