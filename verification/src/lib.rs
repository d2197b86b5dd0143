use vstd::prelude::*;

pub mod cli;
pub mod config;
pub mod greeter;
pub mod info;
pub mod issue;
pub mod output;
pub mod power;
pub mod text;
pub mod types;
pub mod ui;

verus! {

} // verus!
