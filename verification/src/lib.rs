pub mod elevator;
pub mod entity;
pub mod naming;
pub mod person;
mod random;
