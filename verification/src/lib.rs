//! The decisions of a pomodoro timer window: where the window sits, what it shows,
//! how the break after a work period is counted, what the play, adjust and brown
//! noise buttons do, and the texts of its labels.

pub mod brown_noise;
pub mod corner;
pub mod labels;
pub mod session;
pub mod view;
