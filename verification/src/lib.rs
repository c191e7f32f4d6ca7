pub mod error;
pub mod keyed;
pub mod manager;
pub mod placeholder;
pub mod runtime;
pub mod state;
pub mod stream_fsm;
pub mod text;
pub mod templates;
pub mod todo;
pub mod tools;
pub mod scenario;
pub mod projects;
pub mod builtin;
pub mod chat_log;
pub mod executor;
pub mod event;
pub mod turn;
pub mod session;
pub mod history;
