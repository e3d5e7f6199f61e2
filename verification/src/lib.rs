//! Safe mutable access to several resources of a world at a time, with Rust's mutability rules
//! checked at run time.
//!
//! A [`WorldCell`] hands out borrows of resources: [`WorldBorrow`] for reading, and
//! [`WorldBorrowMut`] for writing. It keeps a record of who is accessing what
//! ([`ArchetypeComponentAccess`]) and refuses a request for access that would let somebody write
//! what another is reading or writing.
//!
//! What the cell records, and what it answers, is stated by the contract of each function;
//! what holds of accesses as a whole is proved in [`laws`].

pub mod access;
pub mod archetype;
pub mod borrow;
pub mod change_detection;
pub mod component;
pub mod error;
pub mod event;
pub mod laws;
pub mod sparse_set;
pub mod world;
pub mod world_cell;

pub use crate::access::{ArchetypeComponentAccess, BASE_ACCESS, UNIQUE_ACCESS};
pub use crate::archetype::ArchetypeComponentId;
pub use crate::borrow::{WorldBorrow, WorldBorrowMut, WorldBorrowWitness};
pub use crate::change_detection::{Mut, TicksMut};
pub use crate::component::{ComponentId, Components, TypeId};
pub use crate::error::BorrowError;
pub use crate::event::Events;
pub use crate::sparse_set::SparseSet;
pub use crate::world::{ResourceData, ResourceIds, Storages, World};
pub use crate::world_cell::WorldCell;
