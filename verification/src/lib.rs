use vstd::prelude::*;

pub mod text;
pub mod access;
pub mod failure;
pub mod analysis;
pub mod youtube_url;
pub mod youtube_access;
pub mod download;
pub mod formats;
pub mod batch;
pub mod engine;
pub mod commands;
pub mod history;
pub mod output;
pub mod worker;

verus! {
} // verus!
