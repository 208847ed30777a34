//! A work/break interval timer: a countdown clock advanced by a background
//! ticker, the keyboard commands that steer it, and the planning of the
//! phases of one work cycle.
pub mod cli_utilities;
pub mod end_events;
pub mod input_handler;
pub mod message_creator;
pub mod pomo_info;
pub mod pomodoro_options;
pub mod text;
pub mod timer;
