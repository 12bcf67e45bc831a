//! The logic of a shell server that speaks JSON-RPC: what it answers, what it
//! runs, and what it does next.

pub mod args;
pub mod catalog;
pub mod command;
pub mod console;
pub mod jobs;
pub mod json;
pub mod output;
pub mod outside;
pub mod registration;
pub mod rpc;
pub mod serve;
pub mod text;
pub mod tools;
