//! Particula: the integer core of an experimental granular-cloud effect.
//!
//! The audio path itself works on floating-point samples; this crate holds
//! the parts of the engine and of its control surface that decide *what*
//! happens and *where*: the seedable random generator, the spawn clock, the
//! particle slot pool, ring-buffer slot arithmetic, the texture refresh and
//! crossfade schedule, per-particle life clocks and the panel/label logic of
//! the control surface.

pub mod engine;
pub mod history;
pub mod particle;
pub mod pool;
pub mod rng;
pub mod spawner;
pub mod texture;
pub mod ui;

pub use engine::CloudState;
pub use history::{feedback_slot, history_target_capacity, resize_tail};
pub use particle::{LifeClock, LifeStep};
pub use pool::{ParticlePool, DEFAULT_POOL_CAPACITY};
pub use rng::SplitMix64;
pub use spawner::{poll_schedule, Spawner, SpawnEvent};
pub use texture::TextureClock;
pub use ui::{label, PanelNav};
