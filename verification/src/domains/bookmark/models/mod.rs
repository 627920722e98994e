//! Request DTOs and the persisted entity.

pub mod dto;
pub mod entity;
