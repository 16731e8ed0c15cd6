//! A verified core for a small 2D game engine: geometry primitives, a batched
//! renderer model with a fixed-resolution virtual canvas, a sprite/animation
//! system, input device state machines, and hot-reload coordination that keeps
//! resource IDs stable while assets change on disk.

pub mod animation;
pub mod aseprite_data;
pub mod audio;
pub mod audio_reload;
pub mod button;
pub mod file_watch;
pub mod fonts;
pub mod fullscreen;
pub mod geometry;
pub mod input;
pub mod input_stack;
pub mod keyboard;
pub mod midpoint;
pub mod mouse;
pub mod renderer;
pub mod seq_util;
pub mod sprite_reload;
pub mod sprites;
pub mod ui;
