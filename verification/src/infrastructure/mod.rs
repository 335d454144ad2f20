pub mod brew;
