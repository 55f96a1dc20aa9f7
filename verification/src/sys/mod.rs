pub mod file;
pub mod io;
