pub mod asset_key;
pub mod email;
pub mod image_size;
pub mod pager;
pub mod string;
pub mod task;
pub mod time;
