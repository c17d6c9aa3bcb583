pub mod buy;
pub mod change_operator;
pub mod initialize;
pub mod update_price;
