//! Verified core of a daily time-tracking tool: the week and date
//! arithmetic, the aggregation of parsed days into a weekly rollup, the
//! report text each formatter renders, the key map of the terminal UI and
//! the small decisions around them.

pub mod text;
pub mod date;
pub mod time_utils;
pub mod day;
pub mod display;
pub mod data_svc;
pub mod formatters;
pub mod report;
pub mod event;
pub mod mode;
pub mod keymap;
pub mod keymap_laws;
pub mod editor;
pub mod file_utils;
pub mod clock;
pub mod day_cache;
pub mod width;
pub mod week_list;
pub mod project_list;
pub mod bar_chart;
pub mod terminal;
pub mod layout;
pub mod calendar;
pub mod theme;
pub mod help_popup;
pub mod config;
pub mod graphql;
pub mod cli;
pub mod tui_context;
pub mod app;
pub mod web_data;
