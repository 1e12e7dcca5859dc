pub mod atomic_counter;
pub mod con_iter;
pub mod implementors;
pub mod progress;
pub mod slots;
pub mod atomic_iter;
pub mod cloned;
pub mod copied;
pub mod buffered;
pub mod wrappers;
pub mod default_fns;
pub mod special_iterators;
pub mod no_leak_iter;
