pub mod iter;
pub mod buffered_chunk;
pub mod buffered_iter;
pub mod array;
pub mod range;
pub mod slice;
pub mod slice_cloned;
pub mod vec;
pub mod iter_x;
pub mod cloned_buffered_chunk;
