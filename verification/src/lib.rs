//! Resolves a repository release reference, drives the download / unpack /
//! probe pipeline for its assets, and decides where the resulting executable
//! is linked. All decision logic is verified; network, file system and
//! process work is performed by an unverified shell around this library.

pub mod commands;
pub mod errors;
pub mod probe;
pub mod release;
pub mod repo;
pub mod text;
pub mod transfer;
