pub mod product;
pub mod ui;
pub mod apps;
pub mod peripherals;
