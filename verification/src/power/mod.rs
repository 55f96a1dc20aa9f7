pub mod dvfs;
pub mod governor;
pub mod sleep;
pub mod thermal;
