//! The settings record and the store that owns the one live copy of it.

use crate::error::LauncherError;
use vstd::prelude::*;
use vstd::string::*;

verus! {

/// Memory handed to the game when nothing else was chosen, in megabytes.
pub const DEFAULT_ALLOCATED_MEMORY_MB: u32 = 4096;

/// Window width when nothing else was chosen.
pub const DEFAULT_RESOLUTION_WIDTH: u32 = 1920;

/// Window height when nothing else was chosen.
pub const DEFAULT_RESOLUTION_HEIGHT: u32 = 1080;

/// Render distance when nothing else was chosen, in chunks.
pub const DEFAULT_RENDER_DISTANCE: u32 = 12;

/// Bit pattern of the single-precision number nearest to 0.8, the master
/// volume when nothing else was chosen.
pub const DEFAULT_MASTER_VOLUME_BITS: u32 = 0x3F4C_CCCD;

/// Bit pattern of the single-precision number 1.0.
pub const FULL_VOLUME_BITS: u32 = 0x3F80_0000;

/// Bit pattern of the single-precision number -0.0.
pub const NEGATIVE_ZERO_BITS: u32 = 0x8000_0000;

/// Size of the game window in pixels.
#[derive(Clone, Copy, Debug, PartialEq, Eq, Structural)]
pub struct Resolution {
    pub width: u32,
    pub height: u32,
}

/// The configuration under which the game is started.
///
/// The master volume is a single-precision number; the record carries its
/// IEEE 754 bit pattern, so that a value is kept bit for bit.
#[derive(Debug, PartialEq, Eq)]
pub struct GameSettings {
    pub allocated_memory_mb: u32,
    pub runtime_path: String,
    pub resolution: Resolution,
    pub fullscreen: bool,
    pub render_distance: u32,
    pub master_volume_bits: u32,
}

/// What a settings record says, with the runtime path as a sequence of
/// characters.
pub struct GameSettingsView {
    pub allocated_memory_mb: u32,
    pub runtime_path: Seq<char>,
    pub resolution: Resolution,
    pub fullscreen: bool,
    pub render_distance: u32,
    pub master_volume_bits: u32,
}

impl View for GameSettings {
    type V = GameSettingsView;

    open spec fn view(&self) -> GameSettingsView {
        GameSettingsView {
            allocated_memory_mb: self.allocated_memory_mb,
            runtime_path: self.runtime_path@,
            resolution: self.resolution,
            fullscreen: self.fullscreen,
            render_distance: self.render_distance,
            master_volume_bits: self.master_volume_bits,
        }
    }
}

/// The settings of a fresh installation.
pub open spec fn default_settings() -> GameSettingsView {
    GameSettingsView {
        allocated_memory_mb: DEFAULT_ALLOCATED_MEMORY_MB,
        runtime_path: "/usr/bin/java"@,
        resolution: Resolution {
            width: DEFAULT_RESOLUTION_WIDTH,
            height: DEFAULT_RESOLUTION_HEIGHT,
        },
        fullscreen: false,
        render_distance: DEFAULT_RENDER_DISTANCE,
        master_volume_bits: DEFAULT_MASTER_VOLUME_BITS,
    }
}

/// Whether `bits` is the pattern of a single-precision number in [0.0, 1.0].
///
/// The patterns of the non-negative numbers are ordered as the numbers are,
/// so the interval is everything up to the pattern of 1.0, and -0.0 besides.
pub open spec fn volume_in_unit_interval(bits: u32) -> bool {
    bits <= FULL_VOLUME_BITS || bits == NEGATIVE_ZERO_BITS
}

impl GameSettingsView {
    /// Whether every field lies in the range that the game can use: the
    /// sizes positive, the volume between silence and full.
    pub open spec fn plausible(self) -> bool {
        &&& self.allocated_memory_mb > 0
        &&& self.resolution.width > 0
        &&& self.resolution.height > 0
        &&& self.render_distance > 0
        &&& volume_in_unit_interval(self.master_volume_bits)
    }
}

impl Default for GameSettings {
    fn default() -> (settings: GameSettings)
        ensures
            settings@ == default_settings(),
    {
        GameSettings {
            allocated_memory_mb: DEFAULT_ALLOCATED_MEMORY_MB,
            runtime_path: String::from_str("/usr/bin/java"),
            resolution: Resolution {
                width: DEFAULT_RESOLUTION_WIDTH,
                height: DEFAULT_RESOLUTION_HEIGHT,
            },
            fullscreen: false,
            render_distance: DEFAULT_RENDER_DISTANCE,
            master_volume_bits: DEFAULT_MASTER_VOLUME_BITS,
        }
    }
}

impl Clone for GameSettings {
    fn clone(&self) -> (copy: GameSettings)
        ensures
            copy == *self,
    {
        GameSettings {
            allocated_memory_mb: self.allocated_memory_mb,
            runtime_path: self.runtime_path.clone(),
            resolution: self.resolution,
            fullscreen: self.fullscreen,
            render_distance: self.render_distance,
            master_volume_bits: self.master_volume_bits,
        }
    }
}

impl GameSettings {
    /// Tells whether the record is one the game can use. Nothing in the
    /// store asks for it: a record is kept whatever it holds.
    pub fn is_plausible(&self) -> (ok: bool)
        ensures
            ok == self@.plausible(),
    {
        self.allocated_memory_mb > 0 && self.resolution.width > 0 && self.resolution.height > 0
            && self.render_distance > 0 && (self.master_volume_bits <= FULL_VOLUME_BITS
            || self.master_volume_bits == NEGATIVE_ZERO_BITS)
    }
}

/// The record that a store holds once `new` was saved over `current`: a
/// save replaces the record whole.
pub open spec fn saved(current: GameSettings, new: GameSettings) -> GameSettings {
    new
}

/// The record that a store holds once the records of `saves` were saved one
/// after the other, starting from a store that held `initial`.
pub open spec fn after_saves(initial: GameSettings, saves: Seq<GameSettings>) -> GameSettings
    decreases saves.len(),
{
    if saves.len() == 0 {
        initial
    } else {
        saved(after_saves(initial, saves.drop_last()), saves.last())
    }
}

/// Owner of the current settings. There is one record at any time, and a
/// save replaces it whole.
pub struct SettingsStore {
    current: GameSettings,
}

impl View for SettingsStore {
    type V = GameSettings;

    /// The record that the store holds.
    closed spec fn view(&self) -> GameSettings {
        self.current
    }
}

impl SettingsStore {
    /// A store that holds the default settings.
    pub fn new() -> (store: SettingsStore)
        ensures
            store@@ == default_settings(),
    {
        SettingsStore { current: GameSettings::default() }
    }

    /// Returns a copy of the current settings.
    pub fn load(&self) -> (settings: GameSettings)
        ensures
            settings == self@,
    {
        self.current.clone()
    }

    /// Replaces the current settings by `new`, whatever `new` holds, and
    /// succeeds.
    pub fn save(&mut self, new: GameSettings) -> (outcome: Result<(), LauncherError>)
        ensures
            outcome is Ok,
            final(self)@ == saved(old(self)@, new),
    {
        self.current = new;
        Ok(())
    }
}

} // verus!
