pub mod class_id;
pub mod effects;
pub mod factory;
pub mod geometry;
pub mod keys;
pub mod laws;
pub mod platform;
pub mod plugin;
pub mod result;
pub mod run_loop;
pub mod task_flow;
pub mod task_queue;
pub mod view;
pub mod wakeup;
