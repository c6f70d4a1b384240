//! The verified core of a Zoo Tycoon (2001) enhancement layer: the game-memory model and the
//! typed reads and writes on it, the game's strings, arrays and image formats, its award, status,
//! terrain and music managers' rules, and the state machines of the in-game overlay (input
//! capture, cursor, tooltips, panels, money and date read-outs).
pub mod awards;
pub mod config;
pub mod displays;
pub mod gamemgr;
pub mod habitats;
pub mod images;
pub mod ledger;
pub mod mapview;
pub mod memory;
pub mod music;
pub mod overlay;
pub mod terrain;
pub mod text;
pub mod tooltip;
pub mod vanilla_ui;
pub mod window_input;
pub mod zoo_settings;
pub mod zoostatus;
