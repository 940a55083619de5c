//! The immutable settings record the rotation core consumes, and the
//! command-line override record that refines it.
//!
//! Resolving the record from files and the environment is the surrounding
//! binary's job; this module only defines the record itself, its defaults,
//! and how explicit command-line values override a base record.

use vstd::prelude::*;

verus! {

/// Which compositor is asked for the active outputs.
#[derive(Clone, Copy, PartialEq, Eq, Structural, Debug)]
pub enum BackendType {
    Hyprland,
    Sway,
}

/// Which external tool renders the chosen wallpapers.
#[derive(Clone, Copy, PartialEq, Eq, Structural, Debug)]
pub enum RendererType {
    Swaybg,
    Swww,
}

/// The resolved configuration record.
///
/// `time` is the rotation period as the user wrote it (for example "5m");
/// its absence selects one-shot mode. `outputs` is the override list: when
/// non-empty, discovery is bypassed and exactly these outputs are used.
#[derive(Clone, Debug)]
pub struct Config {
    pub wallpaper_dir: String,
    pub time: Option<String>,
    pub backend: BackendType,
    pub renderer: RendererType,
    pub outputs: Vec<String>,
    pub transition_type: String,
    pub transition_step: u8,
    pub transition_fps: u8,
}

/// Command-line values: each present field overrides the base record.
#[derive(Clone, Debug)]
pub struct Cli {
    pub wallpaper_dir: Option<String>,
    pub time: Option<String>,
    pub backend: Option<BackendType>,
    pub renderer: Option<RendererType>,
    pub outputs: Option<Vec<String>>,
    pub transition_type: Option<String>,
    pub transition_step: Option<u8>,
    pub transition_fps: Option<u8>,
}

impl Default for Config {
    /// The baseline record before any file or command-line value is merged.
    fn default() -> (c: Config)
        ensures
            c.wallpaper_dir@ == "."@,
            c.time is None,
            c.backend == BackendType::Sway,
            c.renderer == RendererType::Swaybg,
            c.outputs@ =~= Seq::<String>::empty(),
            c.transition_type@ == "simple"@,
            c.transition_step == 90u8,
            c.transition_fps == 30u8,
    {
        Config {
            wallpaper_dir: String::from_str("."),
            time: None,
            backend: BackendType::Sway,
            renderer: RendererType::Swaybg,
            outputs: Vec::new(),
            transition_type: String::from_str("simple"),
            transition_step: 90,
            transition_fps: 30,
        }
    }
}

impl Config {
    /// Merges explicit command-line values over this record: a present
    /// command-line field always wins, an absent one keeps the base value.
    pub fn with_cli_overrides(self, cli: Cli) -> (c: Config)
        ensures
            c.wallpaper_dir == (if cli.wallpaper_dir is Some {
                cli.wallpaper_dir->0
            } else {
                self.wallpaper_dir
            }),
            c.time == (if cli.time is Some {
                cli.time
            } else {
                self.time
            }),
            c.backend == (if cli.backend is Some {
                cli.backend->0
            } else {
                self.backend
            }),
            c.renderer == (if cli.renderer is Some {
                cli.renderer->0
            } else {
                self.renderer
            }),
            c.outputs == (if cli.outputs is Some {
                cli.outputs->0
            } else {
                self.outputs
            }),
            c.transition_type == (if cli.transition_type is Some {
                cli.transition_type->0
            } else {
                self.transition_type
            }),
            c.transition_step == (if cli.transition_step is Some {
                cli.transition_step->0
            } else {
                self.transition_step
            }),
            c.transition_fps == (if cli.transition_fps is Some {
                cli.transition_fps->0
            } else {
                self.transition_fps
            }),
    {
        Config {
            wallpaper_dir: match cli.wallpaper_dir {
                Some(d) => d,
                None => self.wallpaper_dir,
            },
            time: match cli.time {
                Some(t) => Some(t),
                None => self.time,
            },
            backend: match cli.backend {
                Some(b) => b,
                None => self.backend,
            },
            renderer: match cli.renderer {
                Some(r) => r,
                None => self.renderer,
            },
            outputs: match cli.outputs {
                Some(o) => o,
                None => self.outputs,
            },
            transition_type: match cli.transition_type {
                Some(t) => t,
                None => self.transition_type,
            },
            transition_step: match cli.transition_step {
                Some(s) => s,
                None => self.transition_step,
            },
            transition_fps: match cli.transition_fps {
                Some(f) => f,
                None => self.transition_fps,
            },
        }
    }
}

} // verus!
