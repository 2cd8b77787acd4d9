pub mod state;
pub mod paths;
pub mod numfmt;
pub mod helper;
pub mod watchdog;
pub mod menu;
pub mod modes;
pub mod subscription;
pub mod netproxy;
pub mod core_process;
pub mod dialogs;
pub mod locate;
pub mod yaml;
pub mod mapping;
pub mod merge;
pub mod merge_laws;
pub mod merge_stable;
pub mod text;
pub mod escape;
pub mod profiles;
