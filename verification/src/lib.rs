pub mod clock;
pub mod helper;
pub mod scene;
pub mod selection;
pub mod text;
pub mod ui;
