//! A Pomodoro timer engine: alternating Work, Short Break and Long Break
//! intervals, with a long break granted after every fourth completed Work
//! interval. The engine is pure in-process state; a host event loop drives
//! it with user commands and a periodic tick carrying the wall-clock time.

pub mod app;
