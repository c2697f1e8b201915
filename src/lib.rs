pub mod text;
pub mod gender;
pub mod event;
pub mod table;
pub mod number;
pub mod naming;
pub mod archive;
pub mod preformance;
pub mod methods;
