//! Small verified building blocks: option conversions, quota alerts,
//! cons lists, request routing and a timer state machine.

pub mod my_option;
pub mod shared_option;
pub mod quota;
pub mod lists;
pub mod my_box;
pub mod rec_append;
pub mod queue;
pub mod http;
pub mod timer;
pub mod demos;
