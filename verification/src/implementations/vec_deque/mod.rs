pub mod con_iter_ref;
