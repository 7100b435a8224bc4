//! Reusable interface components.
pub mod element_list;
pub mod item_box;
