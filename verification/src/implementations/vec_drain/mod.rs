pub mod con_iter;
pub mod drainable;
