//! State and decisions of the terminal user interface.

pub mod error;
pub mod event_loop;
pub mod events;
pub mod focus;
pub mod console;
pub mod csrs;
pub mod dashboard;
pub mod front_end;
pub mod input;
pub mod out_stream;
pub mod page;
pub mod regs;
pub mod schedulers;
pub mod scrolling;
pub mod selected;
pub mod streams;
pub mod tabs;
