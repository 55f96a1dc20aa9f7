pub mod generic;
