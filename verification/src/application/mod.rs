pub mod dto;

pub use dto::{CacheInfoDto, PackageDto};
