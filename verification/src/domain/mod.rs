pub mod entities;
pub mod services;
