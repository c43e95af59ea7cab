//! Logic core of the fleet-health floating widget: the `/state` snapshot
//! model, the health vocabulary and its colours, the glance view that the
//! window paints every tick, and the endpoint resolution through delightd.

pub mod fetch;
pub mod model;
pub mod ordered_map;
pub mod panel;
pub mod render;
pub mod resolve;
pub mod text;

pub use fetch::Config;
pub use model::{Health, Snapshot};
pub use ordered_map::OrderedMap;
pub use render::{colour_for, RenderModel, Rgb, Row};
