use vstd::prelude::*;

pub mod text;
pub mod scope;
pub mod error;
pub mod permissions;
pub mod order;
pub mod lifecycle;
pub mod state;
pub mod scheduler;
pub mod threads;
pub mod tasks;
pub mod resources;
pub mod json;
pub mod clock;
pub mod approval;
pub mod capability;
pub mod communication;
pub mod blackboard;
pub mod agents;
pub mod permission_requests;
pub mod review;
pub mod host;
pub mod goals;
pub mod schema;
pub mod artifacts;
pub mod tools;
pub mod client_threads;
pub mod ecosystem;
pub mod memento;
pub mod context;
pub mod automation;
pub mod packages;
pub mod provider;
pub mod recovery;
pub mod sessions;
pub mod syscall;
pub mod tool_output;
pub mod process;
pub mod export;
pub mod seeds;
pub mod runtime_jobs;
pub mod dispatch;
pub mod tool_catalog;
pub mod events;
pub mod bundle;

verus! {

} // verus!
