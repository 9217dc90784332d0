//! Verified core of the scenix scene, animation, input and asset runtime.

pub mod action;
pub mod asset;
pub mod binding;
pub mod blend;
pub mod clip_import;
pub mod editor;
pub mod export;
pub mod ids;
pub mod input;
pub mod keyframe;
pub mod loop_mode;
pub mod mixer;
pub mod picking;
pub mod retarget;
pub mod skinning;
pub mod web;
