//! A relay of checkins from a location-sharing service to posts on a
//! federated social network.
//!
//! Checkins arrive by two channels, a webhook to which the origin service
//! pushes and a periodic poll of every account's feed. The library decides
//! which checkins are new, in what order they are relayed, what a post says,
//! and when an account's watermark advances. It makes no call to either
//! service: a driver performs the actions that it asks for and reports back.

pub mod account;
pub mod dispatch;
pub mod engine;
pub mod friends;
pub mod poll;
pub mod push;
pub mod swarm;
pub mod text;
pub mod watermark;
pub mod web;
