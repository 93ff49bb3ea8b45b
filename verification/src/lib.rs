use vstd::prelude::*;

pub mod text;
pub mod json;
pub mod llm;
pub mod settings;
pub mod time;
pub mod schedule;
pub mod ids;
pub mod realtime;
pub mod workers;
pub mod bootstrap;
pub mod routes;
pub mod storage;

verus! {

} // verus!
