pub mod text;
pub mod pen;
pub mod args;
pub mod device;
pub mod rotation;
pub mod retry;
pub mod state;
pub mod ssh;
pub mod session;
pub mod ui;
pub mod output;
pub mod laws;
