pub mod context;
pub mod desk;
pub mod executor;
pub mod io;
pub mod join;
pub mod runtime;
pub mod scheduler;
pub mod task;
pub mod timer;
pub mod entry;
