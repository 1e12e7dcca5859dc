pub mod fold;
pub mod for_each;
