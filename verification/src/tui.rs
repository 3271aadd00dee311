//! The state of the terminal front end and what each key does to it. The
//! front end draws the state and performs the commands that the state
//! machine hands out; neither is done here.

pub mod app;
pub mod event;
pub mod modal;
pub mod ui;
