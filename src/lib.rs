pub mod backoff;
pub mod console;
pub mod text;
pub mod ws_error;
pub mod session;
pub mod url;
