//! Display model for decoded IGMP messages.
//!
//! A closed set of IGMP message shapes (v1/v2/v3, query/report), a
//! numeric-to-symbolic type classifier, and a renderer that turns any
//! variant into a vertical title label plus a two-column field table
//! drawn into a rectangular screen region.

pub mod draw;
pub mod igmp;
pub mod igmpv1;
pub mod igmpv2;
pub mod igmpv3;
pub mod screen;
pub mod text;
