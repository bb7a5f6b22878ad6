pub mod data_prep;
pub mod draw;
pub mod sync_submit;
