pub mod first_order;
pub mod second_order;
