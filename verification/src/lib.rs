pub mod text;
pub mod motion;
pub mod commands;
pub mod editor;
pub mod key;
pub mod export_footer;
pub mod comment;
pub mod nav;
pub mod visual_char;
pub mod fuzzy;
pub mod picker;
pub mod default_filters;
pub mod command;
pub mod help;
pub mod select;
pub mod filter_manage;
pub mod normal;
pub mod visual_line;
pub mod group;
pub mod dlt;
pub mod confirm;
pub mod ui;
pub mod cli;
pub mod value_colors;
pub mod archive;
pub mod completion;
pub mod render;
pub mod highlight;
pub mod archive_picker;
pub mod modebar;
