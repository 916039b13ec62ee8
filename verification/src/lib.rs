pub mod button;
pub mod component;
pub mod dialog;
pub mod display;
pub mod event;
pub mod frame;
pub mod geometry;
pub mod keypad;
pub mod layout;
pub mod numfmt;
pub mod page;
pub mod pin;
pub mod seed_backup;
pub mod text;
pub mod theme;
pub mod words;
