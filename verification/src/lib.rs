//! Decision logic of the ScreenSaver BATTLE auto splitter.
//!
//! The splitter locates the game's `BattleManager` by walking the Unity 2023
//! native scene hierarchy and decides, tick by tick, when LiveSplit resets,
//! starts and splits. Everything here is free of I/O: memory reads and timer
//! commands are requests and answers exchanged with the host runtime.
//!
//! * [`layout`]: the measured Unity layout and address arithmetic.
//! * [`memory`]: read requests, their answers, and the model of a memory image
//!   that the contracts are stated over.
//! * [`resolver`]: the search for the live `BattleManager`.
//! * [`probe`]: whether a `UnityEngine.Object` reference still has a native object.
//! * [`splitter`]: the per-tick timer decisions.

pub mod layout;
pub mod memory;
pub mod resolver;
pub mod probe;
pub mod splitter;
