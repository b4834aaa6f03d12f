//! The tools that the model may call. They are the only way for the model to
//! interact with the project; reading and writing is limited by the rules of
//! `pathguard`, which the caller applies to each path.

pub mod add_note;
pub mod aitooltype;
pub mod all_tools;
pub mod ast;
pub mod done;
pub mod failed;
pub mod list_dir;
pub mod load_file;
pub mod load_file_part;
pub mod pathguard;
pub mod reply;
pub mod save_file;
pub mod save_file_replace_part;
pub mod scan_dir;
pub mod set_focus;
pub mod valid;
