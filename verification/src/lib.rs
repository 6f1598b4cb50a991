//! Verified core of a UI kit for iced: page routing with back/forward
//! history and page lifecycles, animation keys, texture-cache
//! invalidation, and the plain decisions of its widgets (type scale,
//! sidebar toggle, autoplay timing, rebuild counting).

pub mod key;
pub mod history;
pub mod error;
pub mod message;
pub mod page;
pub mod router;
pub mod reaction;
pub mod ancestors;
pub mod autoplay;
pub mod rebuilds;
pub mod typography;
pub mod sidebar;
pub mod border;
