pub mod board;
pub mod helpers;
pub mod ui;
