//! The hand-built workflows of each domain.

pub mod academic;
pub mod design;
pub mod engineering;
pub mod gamedev;
pub mod gis;
pub mod paidmedia;
pub mod pm;
pub mod product;
pub mod security;
pub mod spatial;
pub mod specialized;
pub mod strategy;
pub mod support;
pub mod testing;
