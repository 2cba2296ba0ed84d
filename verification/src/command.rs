//! One argument compiler per supported subcommand verb.

pub mod build_cmd;
pub mod create;
pub mod down;
pub mod events;
pub mod exec;
pub mod images;
pub mod kill;
pub mod logs;
pub mod ls;
pub mod pause;
pub mod ps;
pub mod pull;
pub mod push;
pub mod restart;
pub mod rm;
pub mod run;
pub mod start;
pub mod stop;
pub mod top;
pub mod unpause;
pub mod up;
