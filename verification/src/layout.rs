//! Offsets of the Unity 2023.2.20f1 structures that the splitter reads, and
//! the address arithmetic used on them.
use vstd::prelude::*;

verus! {

/// Offset of the native object pointer inside a managed `UnityEngine.Object`
/// (64-bit Mono). Null when the native object is gone.
pub const UNITY_OBJECT_CACHED_PTR: u64 = 0x10;

/// Offsets, inside a native `Scene`, of the two root linked lists.
pub const SCENE_ROOT_A: u64 = 0xE8;
pub const SCENE_ROOT_B: u64 = 0xF0;

/// Offset of the `Transform` inside a root list node.
pub const ROOT_NODE_TRANSFORM: u64 = 0x10;

/// Offset of the owning `GameObject` inside a native `Component`.
pub const COMPONENT_GAME_OBJECT: u64 = 0x20;

/// Offset of the component array inside a `GameObject`.
pub const GAME_OBJECT_COMPONENTS: u64 = 0x20;

/// Offset of the name C string pointer inside a `GameObject`.
pub const GAME_OBJECT_NAME: u64 = 0x50;

/// Offset of the scripting object handle inside a native `Component`.
pub const SCRIPTING_OBJECT_HANDLE: u64 = 0x18;

/// The component array holds a component pointer at `+0x08`, `+0x18`, `+0x28`, ...
pub const COMPONENT_PAIR_FIRST: u64 = 0x08;
pub const COMPONENT_PAIR_STRIDE: u64 = 0x10;

/// Number of component slots examined per `GameObject`.
pub const COMPONENT_SCAN_COUNT: u32 = 16;

/// Number of root list nodes visited at most per list.
pub const ROOT_LIST_MAX_NODES: u32 = 128;

/// Number of (scene root offset, link offset) pairs tried.
pub const ROOT_PATH_COUNT: usize = 4;

/// Length of the name that identifies the manager object, NUL included.
pub const BATTLE_MANAGER_NAME_LEN: usize = 14;

/// Game time given to the run when it starts, in milliseconds: the stage select
/// fades out for about a second before the battle scene is loaded.
pub const START_TIME_CORRECTION_MS: i64 = 1000;

/// Number of ticks during which a failed read of the result object is retried.
pub const FINISH_VIDEO_RETRY_TICKS: u8 = 30;

/// Width of a pointer in the game process.
#[derive(Clone, Copy, Debug, PartialEq, Eq, Structural)]
pub enum PointerSize {
    Bit16,
    Bit32,
    Bit64,
}

/// `base + offset` on 64-bit addresses, wrapping at 2^64.
pub open spec fn at(base: u64, offset: u64) -> u64 {
    if base + offset > u64::MAX {
        (base + offset - 0x1_0000_0000_0000_0000) as u64
    } else {
        (base + offset) as u64
    }
}

/// `base + offset` on 64-bit addresses, wrapping at 2^64.
pub fn offset_address(base: u64, offset: u64) -> (r: u64)
    ensures
        r == at(base, offset),
{
    base.wrapping_add(offset)
}

/// Offset, inside a component array, of the component pointer in slot `index`.
pub open spec fn component_pair_offset(index: int) -> u64 {
    (COMPONENT_PAIR_FIRST + index * COMPONENT_PAIR_STRIDE) as u64
}

/// Offset, inside a component array, of the component pointer in slot `index`.
pub fn pair_offset(index: u32) -> (r: u64)
    requires
        index < COMPONENT_SCAN_COUNT,
    ensures
        r == component_pair_offset(index as int),
{
    COMPONENT_PAIR_FIRST + (index as u64) * COMPONENT_PAIR_STRIDE
}

/// The (scene root offset, link offset) pair tried in position `i`; the first
/// one is the path the game was measured to use, the others are fallbacks.
pub open spec fn root_path(i: int) -> (u64, u64) {
    if i == 0 {
        (SCENE_ROOT_A, 0x00)
    } else if i == 1 {
        (SCENE_ROOT_A, 0x08)
    } else if i == 2 {
        (SCENE_ROOT_B, 0x00)
    } else {
        (SCENE_ROOT_B, 0x08)
    }
}

/// The (scene root offset, link offset) pair tried in position `i`.
pub fn root_path_at(i: usize) -> (r: (u64, u64))
    requires
        i < ROOT_PATH_COUNT,
    ensures
        r == root_path(i as int),
{
    if i == 0 {
        (SCENE_ROOT_A, 0x00)
    } else if i == 1 {
        (SCENE_ROOT_A, 0x08)
    } else if i == 2 {
        (SCENE_ROOT_B, 0x00)
    } else {
        (SCENE_ROOT_B, 0x08)
    }
}

/// The splitter only supports 64-bit game processes.
pub fn pointer_size_supported(size: PointerSize) -> (r: bool)
    ensures
        r == (size == PointerSize::Bit64),
{
    match size {
        PointerSize::Bit64 => true,
        _ => false,
    }
}

} // verus!
