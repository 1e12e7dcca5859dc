pub mod values;
