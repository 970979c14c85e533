//! Bitmap-filtered vector search: the decision logic of a custom executor that
//! filters the candidates of a graph search by a bitmap of heap tuple
//! identifiers before they are returned.

pub mod item_pointer;
mod sorted_keys;
pub mod tid_bitmap;
pub mod custom_executor;
pub mod plan_analysis;
