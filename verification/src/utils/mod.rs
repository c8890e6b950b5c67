pub mod credentials;
pub mod logger;
pub mod text;
pub mod time;
