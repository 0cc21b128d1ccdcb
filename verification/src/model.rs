//! The project data model: animation tracks, timeline items, audio clips and
//! the top-level project.

use vstd::prelude::*;
use crate::seconds::{Scalar, Seconds};

verus! {

/// A property of an item that an animation track can drive.
#[derive(Clone, Copy, Debug, PartialEq, Eq, Structural)]
pub enum AnimatableProperty {
    ScaleX,
    ScaleY,
    TranslateX,
    TranslateY,
    Rotation,
    Opacity,
}

/// The easing curve applied between a keyframe and the next one.
#[derive(Clone, Copy, Debug, PartialEq, Eq, Structural)]
pub enum Easing {
    Linear,
    SineInOut,
}

/// A property value at a point in time.
#[derive(Clone, Copy, Debug, PartialEq, Eq, Structural)]
pub struct Keyframe {
    pub time: Seconds,
    pub value: Scalar,
    pub easing: Easing,
}

/// The keyframes of one animated property.
#[derive(Clone, Debug, PartialEq, Eq)]
pub struct AnimationTrack {
    pub property: AnimatableProperty,
    pub keyframes: Vec<Keyframe>,
}

/// How an image is fitted into a target rectangle.
#[derive(Clone, Copy, Debug, PartialEq, Eq, Structural)]
pub enum FitMode {
    /// Fill the rectangle, cropping what overflows.
    Cover,
    /// Fit inside the rectangle, letterboxing what is left.
    Contain,
}

/// Where a fitted image is anchored in its rectangle.
#[derive(Clone, Copy, Debug, PartialEq, Eq, Structural)]
pub enum FitAnchor {
    Center,
}

/// How an item's image is sized.
#[derive(Clone, Copy, Debug, PartialEq, Eq, Structural)]
pub enum Sizing {
    /// The image's native dimensions.
    Natural,
    /// Explicit width and height in pixels.
    Explicit { width: u32, height: u32 },
    /// Fitted into a rectangle.
    FitRect { x: i32, y: i32, w: u32, h: u32, mode: FitMode, anchor: FitAnchor },
    /// A uniform scale factor.
    Scale(Scalar),
}

/// What an item shows: an image, or a group of child items.
#[derive(Debug, PartialEq, Eq)]
pub enum ItemContent {
    Image { path: String },
    Group { children: Vec<ItemDef> },
}

/// An item placed on the timeline.
#[derive(Debug, PartialEq, Eq)]
pub struct ItemDef {
    pub id: String,
    pub content: ItemContent,
    pub track: u32,
    pub start_time: Seconds,
    pub end_time: Seconds,
    pub z_index: i32,
    pub sizing: Sizing,
    pub pivot: [Scalar; 2],
    pub animations: Vec<AnimationTrack>,
}

/// An audio clip placed on an audio track.
#[derive(Clone, Debug, PartialEq, Eq)]
pub struct AudioClipDef {
    pub id: String,
    pub path: String,
    pub track: u32,
    pub start_time: Seconds,
    pub end_time: Seconds,
    pub volume: Scalar,
    pub source_offset: Seconds,
    pub trim_end: Seconds,
}

/// Output encoding settings.
#[derive(Clone, Debug, PartialEq, Eq)]
pub struct EncodingConfig {
    pub crf: u32,
    pub preset: String,
    pub pixel_format: String,
}

impl EncodingConfig {
    /// The default encoding settings: quality 18, preset `medium`, pixel
    /// format `yuv420p`.
    pub open spec fn is_default(self) -> bool {
        &&& self.crf == 18
        &&& self.preset@ == "medium"@
        &&& self.pixel_format@ == "yuv420p"@
    }
}

impl Default for EncodingConfig {
    fn default() -> (r: EncodingConfig)
        ensures
            r.is_default(),
    {
        EncodingConfig {
            crf: 18,
            preset: String::from_str("medium"),
            pixel_format: String::from_str("yuv420p"),
        }
    }
}

/// A complete project: output settings, timeline items and audio clips.
#[derive(Debug, PartialEq, Eq)]
pub struct Project {
    pub resolution: [u32; 2],
    pub fps: u32,
    pub duration: Seconds,
    pub output: String,
    pub background: [u8; 4],
    pub audio_clips: Vec<AudioClipDef>,
    pub encoding: EncodingConfig,
    pub items: Vec<ItemDef>,
}

} // verus!
