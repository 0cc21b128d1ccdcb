//! SuperScrub: a programmatic slideshow/video project library.
//!
//! Times are carried as the bit patterns of IEEE-754 binary64 values and
//! ordered by the exact IEEE comparison rules (see [`seconds`]); the
//! arithmetic on them is done by callers, which hand the results back.

pub mod seconds;
pub mod anim_builder;
pub mod app_config;
pub mod audio_clip_builder;
pub mod clip_builder;
pub mod editor_state;
pub mod group_builder;
pub mod ken_burns;
pub mod model;
pub mod opacity;
pub mod playback;
pub mod preview;
pub mod project_watcher;
pub mod project_builder;
pub mod text;
pub mod timeline;
pub mod transport;
pub mod validation;
