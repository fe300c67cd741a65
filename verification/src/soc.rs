//! Error vocabulary of the repository and use-case layers.

pub mod soc_repository;
pub mod soc_usecase;
pub mod soc_usercase;
