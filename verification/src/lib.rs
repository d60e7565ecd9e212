//! Decision and compaction engine for a dynamic virtual-desktop manager.
//!
//! The library keeps the number of workspaces matched to window occupancy:
//! it grows the workspace set when the trailing workspace gains a window,
//! shrinks it when the two trailing workspaces are both empty, and compacts
//! interior empty workspaces by shifting windows left while keeping the
//! user's focus stable. All window-system queries and mutations are left to
//! the surrounding program; the library works on plain snapshots of that
//! state and says, with proofs, what each decision is.

pub mod compact;
pub mod controller;
pub mod filter;
pub mod model;
pub mod policy;
