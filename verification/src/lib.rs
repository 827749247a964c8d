//! Verified decision logic of a Matrix homeserver's storage layer.
use vstd::prelude::*;

pub mod text;
pub mod numeric;
pub mod error;
pub mod membership;
pub mod membership_ops;
pub mod room;
pub mod power_levels;
pub mod authorization;
pub mod push;
pub mod push_service;
pub mod codec;
pub mod oauth2;
pub mod room_alias;
pub mod pusher;
pub mod push_gateway;
pub mod push_notification;
pub mod push_rule;
pub mod notification;
pub mod media;
pub mod public_rooms;
pub mod room_discovery;
pub mod metrics;
pub mod monitoring;
pub mod reading_cache;
pub mod presence;
pub mod mention;
pub mod messaging;
pub mod pdu;
pub mod profile;
pub mod receipt;
pub mod reactions;
pub mod relations;
pub mod registration;
pub mod reports;
pub mod room_join;
pub mod space_hierarchy;
pub mod room_context;
pub mod room_upgrade;
pub mod profile_service;

verus! {
} // verus!
