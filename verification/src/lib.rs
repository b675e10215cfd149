//! Configuration editing, language handling and menu decisions of a novel
//! downloader, verified with Verus.

pub mod app_update;
pub mod cli_config;
pub mod cli_menus;
pub mod config;
pub mod cover;
pub mod download;
pub mod i18n;
pub mod labels;
pub mod templates;
pub mod text;
pub mod tui_config;
pub mod tui_download;
