pub mod slice;
pub mod vec;
pub mod array;
pub mod range;
pub mod iter_mut_handle;
pub mod shared_iter;
pub mod iter;
pub mod iter_x;
pub mod cloned;
pub mod debug_helper;
