pub mod enclaves;
pub mod isolation;
pub mod speculation;
