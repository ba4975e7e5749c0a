//! Pasting clipboard content into the timeline of a video editor: which
//! content is used, where each item goes, and where and under which name
//! clipboard images are saved.
pub mod batch;
pub mod image_file;
pub mod save_dir;
pub mod dispatch;
