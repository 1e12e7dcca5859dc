pub mod vec_deque;
pub mod vec_drain;
pub mod empty;
