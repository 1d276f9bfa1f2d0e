//! The search for the live `BattleManager`.
//!
//! The search walks the native scene hierarchy of Unity 2023.2.20f1:
//!
//! ```text
//! Scene -> root linked list -> Transform -> GameObject "BattleManager"
//!       -> component array -> native MonoBehaviour -> scripting handle
//!       -> managed BattleManager
//! ```
//!
//! A managed candidate is accepted when its cached native pointer leads back to
//! the component it was found through and its watched fields hold values of a
//! live manager. Four (root list, link) layouts are tried in turn. Only on a
//! tick where the current scene could not be had at all is the manager used
//! on the previous tick read again instead; when the scene was had and its
//! hierarchy holds no manager, there is none.
//!
//! The spec functions below state the search over a [`MemoryImage`]. The
//! executable [`BattleResolver`] performs the same search one read at a time:
//! it asks for a read, is handed the answer, and so on until it is done.
use crate::layout::{
    at, component_pair_offset, offset_address, pair_offset, root_path, root_path_at, PointerSize,
    BATTLE_MANAGER_NAME_LEN, COMPONENT_GAME_OBJECT, COMPONENT_SCAN_COUNT, GAME_OBJECT_COMPONENTS,
    GAME_OBJECT_NAME, ROOT_LIST_MAX_NODES, ROOT_NODE_TRANSFORM, ROOT_PATH_COUNT,
    SCRIPTING_OBJECT_HANDLE, UNITY_OBJECT_CACHED_PTR,
};
use crate::memory::{
    battle_values, bytes_of, checked_values, first_found, i32_of, i32_value, is_battle_manager_name,
    names_battle_manager, native_alive, native_alive_from, non_null, non_null_pointer, pointer_of,
    pointer_value, read_bytes, read_non_null_pointer, reading_from, reading_of, u8_of, u8_value,
    validate_battle_values, values_from_finish, values_from_stage, values_from_start, BattleReading,
    BattleValues, FieldOffsets, MemoryImage, ReadRequest, ReadResponse, ResponseView,
};
use vstd::prelude::*;

verus! {

// ---------------------------------------------------------------------------
// The search, stated over a memory image
// ---------------------------------------------------------------------------

/// The candidate reached through a managed object: accepted when the managed
/// object's cached native pointer is the component it was found through and
/// its fields are those of a live manager.
pub open spec fn candidate_from_managed(
    mem: MemoryImage,
    native: u64,
    managed: u64,
    offsets: FieldOffsets,
    size: PointerSize,
) -> Option<BattleReading> {
    if read_non_null_pointer(mem, at(managed, UNITY_OBJECT_CACHED_PTR), size) == Some(native) {
        reading_of(managed, battle_values(mem, managed, offsets, size))
    } else {
        None
    }
}

pub open spec fn candidate_from_handle(
    mem: MemoryImage,
    native: u64,
    handle: u64,
    offsets: FieldOffsets,
    size: PointerSize,
) -> Option<BattleReading> {
    match read_non_null_pointer(mem, handle, size) {
        Some(managed) => candidate_from_managed(mem, native, managed, offsets, size),
        None => None,
    }
}

pub open spec fn candidate_from_owned(
    mem: MemoryImage,
    native: u64,
    offsets: FieldOffsets,
    size: PointerSize,
) -> Option<BattleReading> {
    match read_non_null_pointer(mem, at(native, SCRIPTING_OBJECT_HANDLE), size) {
        Some(handle) => candidate_from_handle(mem, native, handle, offsets, size),
        None => None,
    }
}

/// The candidate reached through a native component: only one that belongs
/// to `game_object` is followed.
pub open spec fn candidate_from_native(
    mem: MemoryImage,
    game_object: u64,
    native: u64,
    offsets: FieldOffsets,
    size: PointerSize,
) -> Option<BattleReading> {
    if read_non_null_pointer(mem, at(native, COMPONENT_GAME_OBJECT), size) == Some(game_object) {
        candidate_from_owned(mem, native, offsets, size)
    } else {
        None
    }
}

/// The candidate in component slot `index` of `array`.
pub open spec fn component_candidate(
    mem: MemoryImage,
    game_object: u64,
    array: u64,
    index: int,
    offsets: FieldOffsets,
    size: PointerSize,
) -> Option<BattleReading> {
    match read_non_null_pointer(mem, at(array, component_pair_offset(index)), size) {
        Some(native) => candidate_from_native(mem, game_object, native, offsets, size),
        None => None,
    }
}

/// The first accepted candidate among component slots `index..16`.
pub open spec fn scan_components(
    mem: MemoryImage,
    game_object: u64,
    array: u64,
    index: int,
    offsets: FieldOffsets,
    size: PointerSize,
) -> Option<BattleReading>
    decreases COMPONENT_SCAN_COUNT - index,
{
    if 0 <= index < COMPONENT_SCAN_COUNT {
        first_found(
            component_candidate(mem, game_object, array, index, offsets, size),
            scan_components(mem, game_object, array, index + 1, offsets, size),
        )
    } else {
        None
    }
}

/// The manager held by `game_object`, found among its first 16 components.
pub open spec fn resolve_managed_battle_from_game_object(
    mem: MemoryImage,
    game_object: u64,
    offsets: FieldOffsets,
    size: PointerSize,
) -> Option<BattleReading> {
    match read_non_null_pointer(mem, at(game_object, GAME_OBJECT_COMPONENTS), size) {
        Some(array) => scan_components(mem, game_object, array, 0, offsets, size),
        None => None,
    }
}

/// The manager held by `game_object` when its name is `"BattleManager"`.
pub open spec fn node_after_name(
    mem: MemoryImage,
    game_object: u64,
    name_pointer: u64,
    offsets: FieldOffsets,
    size: PointerSize,
) -> Option<BattleReading> {
    if names_battle_manager(read_bytes(mem, name_pointer, BATTLE_MANAGER_NAME_LEN)) {
        resolve_managed_battle_from_game_object(mem, game_object, offsets, size)
    } else {
        None
    }
}

pub open spec fn node_after_game_object(
    mem: MemoryImage,
    game_object: u64,
    offsets: FieldOffsets,
    size: PointerSize,
) -> Option<BattleReading> {
    match read_non_null_pointer(mem, at(game_object, GAME_OBJECT_NAME), size) {
        Some(name_pointer) => node_after_name(mem, game_object, name_pointer, offsets, size),
        None => None,
    }
}

pub open spec fn node_after_transform(
    mem: MemoryImage,
    transform: u64,
    offsets: FieldOffsets,
    size: PointerSize,
) -> Option<BattleReading> {
    match read_non_null_pointer(mem, at(transform, COMPONENT_GAME_OBJECT), size) {
        Some(game_object) => node_after_game_object(mem, game_object, offsets, size),
        None => None,
    }
}

/// The manager found through the root list node at `node`.
pub open spec fn node_candidate(
    mem: MemoryImage,
    node: u64,
    offsets: FieldOffsets,
    size: PointerSize,
) -> Option<BattleReading> {
    match read_non_null_pointer(mem, at(node, ROOT_NODE_TRANSFORM), size) {
        Some(transform) => node_after_transform(mem, transform, offsets, size),
        None => None,
    }
}

/// The walk ends when the next node is the current one, or, past the first
/// node, the node the walk started from.
pub open spec fn stops_walk(next: u64, current: u64, start: u64, depth: int) -> bool {
    next == current || (depth > 0 && next == start)
}

/// The first manager found from node `current` (the `depth`-th visited) of a
/// root list that started at `start`, following links at `link`; at most 128
/// nodes are visited.
pub open spec fn walk_root_list(
    mem: MemoryImage,
    start: u64,
    current: u64,
    depth: int,
    link: u64,
    offsets: FieldOffsets,
    size: PointerSize,
) -> Option<BattleReading>
    decreases ROOT_LIST_MAX_NODES - depth, 1int,
{
    if 0 <= depth < ROOT_LIST_MAX_NODES {
        first_found(
            node_candidate(mem, current, offsets, size),
            walk_next(mem, start, current, depth, link, offsets, size),
        )
    } else {
        None
    }
}

/// The rest of the walk after node `current`.
pub open spec fn walk_next(
    mem: MemoryImage,
    start: u64,
    current: u64,
    depth: int,
    link: u64,
    offsets: FieldOffsets,
    size: PointerSize,
) -> Option<BattleReading>
    decreases ROOT_LIST_MAX_NODES - depth, 0int,
{
    if 0 <= depth < ROOT_LIST_MAX_NODES {
        match read_non_null_pointer(mem, at(current, link), size) {
            Some(next) => if stops_walk(next, current, start, depth) {
                None
            } else {
                walk_root_list(mem, start, next, depth + 1, link, offsets, size)
            },
            None => None,
        }
    } else {
        None
    }
}

/// The manager found through the root list at `scene + root_offset`.
pub open spec fn resolve_battle_from_root_list(
    mem: MemoryImage,
    scene: u64,
    root_offset: u64,
    link: u64,
    offsets: FieldOffsets,
    size: PointerSize,
) -> Option<BattleReading> {
    match read_non_null_pointer(mem, at(scene, root_offset), size) {
        Some(start) => walk_root_list(mem, start, start, 0, link, offsets, size),
        None => None,
    }
}

/// The first manager found along root paths `i..4`.
pub open spec fn resolve_root_paths(
    mem: MemoryImage,
    scene: u64,
    i: int,
    offsets: FieldOffsets,
    size: PointerSize,
) -> Option<BattleReading>
    decreases ROOT_PATH_COUNT - i,
{
    if 0 <= i < ROOT_PATH_COUNT {
        first_found(
            resolve_battle_from_root_list(mem, scene, root_path(i).0, root_path(i).1, offsets, size),
            resolve_root_paths(mem, scene, i + 1, offsets, size),
        )
    } else {
        None
    }
}

/// The manager found in the hierarchy of the current scene, when the scene
/// could be had.
pub open spec fn resolve_battle_manager_unity2023(
    mem: MemoryImage,
    scene: Option<u64>,
    offsets: FieldOffsets,
    size: PointerSize,
) -> Option<BattleReading> {
    match scene {
        Some(s) => resolve_root_paths(mem, s, 0, offsets, size),
        None => None,
    }
}

/// The manager used on the previous tick, read again: the fallback of a tick
/// whose scene could not be had.
pub open spec fn fallback_reading(
    mem: MemoryImage,
    preferred: Option<u64>,
    offsets: FieldOffsets,
    size: PointerSize,
) -> Option<BattleReading> {
    match preferred {
        Some(a) => reading_of(a, battle_values(mem, a, offsets, size)),
        None => None,
    }
}

/// The live manager: when the current scene was had, the one found in its
/// hierarchy (or none); when the scene could not be had, the previous tick's
/// manager if it still reads as a live manager.
pub open spec fn resolve_active_battle_manager_unity2023(
    mem: MemoryImage,
    scene: Option<u64>,
    preferred: Option<u64>,
    offsets: FieldOffsets,
    size: PointerSize,
) -> Option<BattleReading> {
    match scene {
        Some(s) => resolve_root_paths(mem, s, 0, offsets, size),
        None => fallback_reading(mem, preferred, offsets, size),
    }
}

// ---------------------------------------------------------------------------
// The search, one read at a time
// ---------------------------------------------------------------------------

/// Where the reading of a manager's fields stands: the next read is its
/// cached native pointer, `stageNum`, `startFlg` or `finishFlg`.
#[derive(Clone, Copy)]
enum ValuesStep {
    Alive,
    Stage,
    Start { stage_num: i32 },
    Finish { stage_num: i32, start_flg: u8 },
}

/// Where the examination of one component slot stands.
#[derive(Clone, Copy)]
enum ComponentStep {
    Native,
    Owner { native: u64 },
    Handle { native: u64 },
    Managed { native: u64, handle: u64 },
    NativeBack { native: u64, managed: u64 },
    Values { managed: u64, step: ValuesStep },
}

/// Where the examination of one root list node stands.
#[derive(Clone, Copy)]
enum NodeStep {
    Transform,
    GameObject { transform: u64 },
    NamePointer { game_object: u64 },
    Name { game_object: u64, name_pointer: u64 },
    ComponentArray { game_object: u64 },
    Scan { game_object: u64, array: u64, index: u32, step: ComponentStep },
    Next,
}

/// Where the walk of one root list stands.
#[derive(Clone, Copy)]
enum WalkStep {
    Start,
    Node { start: u64, current: u64, depth: u32, step: NodeStep },
}

/// Where the whole search stands.
#[derive(Clone, Copy)]
enum Phase {
    Hierarchy { path: usize, step: WalkStep },
    Fallback { address: u64, values: ValuesStep },
    Done { result: Option<BattleReading> },
}

/// The search for the live `BattleManager` of one tick, performed one read at
/// a time: [`BattleResolver::next_request`] names the next read, and
/// [`BattleResolver::feed`] takes its answer.
pub struct BattleResolver {
    scene: u64,
    preferred: Option<u64>,
    offsets: FieldOffsets,
    size: PointerSize,
    phase: Phase,
}

enum ValuesNext {
    Continue(ValuesStep),
    Finished(Option<BattleValues>),
}

enum ComponentNext {
    Continue(ComponentStep),
    Finished(Option<BattleReading>),
}

spec fn values_request(address: u64, offsets: FieldOffsets, size: PointerSize, step: ValuesStep) -> ReadRequest {
    match step {
        ValuesStep::Alive => ReadRequest::Pointer { address: at(address, UNITY_OBJECT_CACHED_PTR), size },
        ValuesStep::Stage => ReadRequest::I32 { address: at(address, offsets.stage_num as u64) },
        ValuesStep::Start { .. } => ReadRequest::U8 { address: at(address, offsets.start_flg as u64) },
        ValuesStep::Finish { .. } => ReadRequest::U8 { address: at(address, offsets.finish_flg as u64) },
    }
}

spec fn component_request(
    array: u64,
    index: u32,
    offsets: FieldOffsets,
    size: PointerSize,
    step: ComponentStep,
) -> ReadRequest {
    match step {
        ComponentStep::Native => ReadRequest::Pointer {
            address: at(array, component_pair_offset(index as int)),
            size,
        },
        ComponentStep::Owner { native } => ReadRequest::Pointer { address: at(native, COMPONENT_GAME_OBJECT), size },
        ComponentStep::Handle { native } => ReadRequest::Pointer { address: at(native, SCRIPTING_OBJECT_HANDLE), size },
        ComponentStep::Managed { handle, .. } => ReadRequest::Pointer { address: handle, size },
        ComponentStep::NativeBack { managed, .. } => ReadRequest::Pointer {
            address: at(managed, UNITY_OBJECT_CACHED_PTR),
            size,
        },
        ComponentStep::Values { managed, step } => values_request(managed, offsets, size, step),
    }
}

spec fn node_request(current: u64, link: u64, offsets: FieldOffsets, size: PointerSize, step: NodeStep) -> ReadRequest {
    match step {
        NodeStep::Transform => ReadRequest::Pointer { address: at(current, ROOT_NODE_TRANSFORM), size },
        NodeStep::GameObject { transform } => ReadRequest::Pointer { address: at(transform, COMPONENT_GAME_OBJECT), size },
        NodeStep::NamePointer { game_object } => ReadRequest::Pointer { address: at(game_object, GAME_OBJECT_NAME), size },
        NodeStep::Name { name_pointer, .. } => ReadRequest::Bytes { address: name_pointer, len: BATTLE_MANAGER_NAME_LEN },
        NodeStep::ComponentArray { game_object } => ReadRequest::Pointer {
            address: at(game_object, GAME_OBJECT_COMPONENTS),
            size,
        },
        NodeStep::Scan { array, index, step, .. } => component_request(array, index, offsets, size, step),
        NodeStep::Next => ReadRequest::Pointer { address: at(current, link), size },
    }
}

spec fn values_next(step: ValuesStep, r: ResponseView) -> ValuesNext {
    match step {
        ValuesStep::Alive => if native_alive(pointer_of(r)) == Some(false) {
            ValuesNext::Finished(None)
        } else {
            ValuesNext::Continue(ValuesStep::Stage)
        },
        ValuesStep::Stage => match i32_of(r) {
            Some(stage_num) => ValuesNext::Continue(ValuesStep::Start { stage_num }),
            None => ValuesNext::Finished(None),
        },
        ValuesStep::Start { stage_num } => match u8_of(r) {
            Some(start_flg) => ValuesNext::Continue(ValuesStep::Finish { stage_num, start_flg }),
            None => ValuesNext::Finished(None),
        },
        ValuesStep::Finish { stage_num, start_flg } => match u8_of(r) {
            Some(finish_flg) => ValuesNext::Finished(checked_values(stage_num, start_flg, finish_flg)),
            None => ValuesNext::Finished(None),
        },
    }
}

spec fn component_next(game_object: u64, step: ComponentStep, r: ResponseView) -> ComponentNext {
    let p = non_null(pointer_of(r));
    match step {
        ComponentStep::Native => match p {
            Some(native) => ComponentNext::Continue(ComponentStep::Owner { native }),
            None => ComponentNext::Finished(None),
        },
        ComponentStep::Owner { native } => if p == Some(game_object) {
            ComponentNext::Continue(ComponentStep::Handle { native })
        } else {
            ComponentNext::Finished(None)
        },
        ComponentStep::Handle { native } => match p {
            Some(handle) => ComponentNext::Continue(ComponentStep::Managed { native, handle }),
            None => ComponentNext::Finished(None),
        },
        ComponentStep::Managed { native, .. } => match p {
            Some(managed) => ComponentNext::Continue(ComponentStep::NativeBack { native, managed }),
            None => ComponentNext::Finished(None),
        },
        ComponentStep::NativeBack { native, managed } => if p == Some(native) {
            ComponentNext::Continue(ComponentStep::Values { managed, step: ValuesStep::Alive })
        } else {
            ComponentNext::Finished(None)
        },
        ComponentStep::Values { managed, step } => match values_next(step, r) {
            ValuesNext::Continue(s) => ComponentNext::Continue(ComponentStep::Values { managed, step: s }),
            ValuesNext::Finished(v) => ComponentNext::Finished(reading_of(managed, v)),
        },
    }
}

spec fn values_outcome(
    mem: MemoryImage,
    address: u64,
    offsets: FieldOffsets,
    size: PointerSize,
    step: ValuesStep,
) -> Option<BattleValues> {
    match step {
        ValuesStep::Alive => battle_values(mem, address, offsets, size),
        ValuesStep::Stage => values_from_stage(mem, address, offsets),
        ValuesStep::Start { stage_num } => values_from_start(mem, address, offsets, stage_num),
        ValuesStep::Finish { stage_num, start_flg } => values_from_finish(mem, address, offsets, stage_num, start_flg),
    }
}

spec fn component_outcome(
    mem: MemoryImage,
    game_object: u64,
    array: u64,
    index: u32,
    offsets: FieldOffsets,
    size: PointerSize,
    step: ComponentStep,
) -> Option<BattleReading> {
    match step {
        ComponentStep::Native => component_candidate(mem, game_object, array, index as int, offsets, size),
        ComponentStep::Owner { native } => candidate_from_native(mem, game_object, native, offsets, size),
        ComponentStep::Handle { native } => candidate_from_owned(mem, native, offsets, size),
        ComponentStep::Managed { native, handle } => candidate_from_handle(mem, native, handle, offsets, size),
        ComponentStep::NativeBack { native, managed } => candidate_from_managed(mem, native, managed, offsets, size),
        ComponentStep::Values { managed, step } => reading_of(managed, values_outcome(mem, managed, offsets, size, step)),
    }
}

spec fn node_outcome(
    mem: MemoryImage,
    start: u64,
    current: u64,
    depth: u32,
    link: u64,
    offsets: FieldOffsets,
    size: PointerSize,
    step: NodeStep,
) -> Option<BattleReading> {
    let rest = walk_next(mem, start, current, depth as int, link, offsets, size);
    match step {
        NodeStep::Transform => walk_root_list(mem, start, current, depth as int, link, offsets, size),
        NodeStep::GameObject { transform } => first_found(node_after_transform(mem, transform, offsets, size), rest),
        NodeStep::NamePointer { game_object } => first_found(node_after_game_object(mem, game_object, offsets, size), rest),
        NodeStep::Name { game_object, name_pointer } => first_found(
            node_after_name(mem, game_object, name_pointer, offsets, size),
            rest,
        ),
        NodeStep::ComponentArray { game_object } => first_found(
            resolve_managed_battle_from_game_object(mem, game_object, offsets, size),
            rest,
        ),
        NodeStep::Scan { game_object, array, index, step } => first_found(
            first_found(
                component_outcome(mem, game_object, array, index, offsets, size, step),
                scan_components(mem, game_object, array, index + 1, offsets, size),
            ),
            rest,
        ),
        NodeStep::Next => rest,
    }
}

spec fn node_wf(step: NodeStep) -> bool {
    match step {
        NodeStep::Scan { index, .. } => index < COMPONENT_SCAN_COUNT,
        _ => true,
    }
}

spec fn values_left(step: ValuesStep) -> nat {
    match step {
        ValuesStep::Alive => 4,
        ValuesStep::Stage => 3,
        ValuesStep::Start { .. } => 2,
        ValuesStep::Finish { .. } => 1,
    }
}

spec fn component_left(step: ComponentStep) -> nat {
    match step {
        ComponentStep::Native => 9,
        ComponentStep::Owner { .. } => 8,
        ComponentStep::Handle { .. } => 7,
        ComponentStep::Managed { .. } => 6,
        ComponentStep::NativeBack { .. } => 5,
        ComponentStep::Values { step, .. } => values_left(step),
    }
}

spec fn node_left(step: NodeStep) -> int {
    match step {
        NodeStep::Transform => 150,
        NodeStep::GameObject { .. } => 149,
        NodeStep::NamePointer { .. } => 148,
        NodeStep::Name { .. } => 147,
        NodeStep::ComponentArray { .. } => 146,
        NodeStep::Scan { index, step, .. } => (15 - index) * 9 + component_left(step) + 1,
        NodeStep::Next => 1,
    }
}

/// Reads left, at most, in one root path: 19201 for the whole path (its
/// start, and 150 for each of up to 128 nodes).
spec fn walk_left(step: WalkStep) -> int {
    match step {
        WalkStep::Start => 19201,
        WalkStep::Node { depth, step, .. } => (127 - depth) * 150 + node_left(step),
    }
}

impl BattleResolver {
    /// The structural invariant: indices stay in their ranges, and the
    /// fallback reads the manager of the previous tick.
    #[verifier::type_invariant]
    pub closed spec fn inv(self) -> bool {
        match self.phase {
            Phase::Hierarchy { path, step } => {
                &&& path < ROOT_PATH_COUNT
                &&& match step {
                    WalkStep::Start => true,
                    WalkStep::Node { depth, step, .. } => depth < ROOT_LIST_MAX_NODES && node_wf(step),
                }
            },
            Phase::Fallback { address, .. } => self.preferred == Some(address),
            Phase::Done { .. } => true,
        }
    }

    /// The read that the search needs next, or none once it is done.
    pub closed spec fn request(self) -> Option<ReadRequest> {
        match self.phase {
            Phase::Hierarchy { path, step } => Some(
                match step {
                    WalkStep::Start => ReadRequest::Pointer {
                        address: at(self.scene, root_path(path as int).0),
                        size: self.size,
                    },
                    WalkStep::Node { current, step, .. } => node_request(
                        current,
                        root_path(path as int).1,
                        self.offsets,
                        self.size,
                        step,
                    ),
                },
            ),
            Phase::Fallback { address, values } => Some(values_request(address, self.offsets, self.size, values)),
            Phase::Done { .. } => None,
        }
    }

    /// The result of the search once it is done.
    pub closed spec fn result(self) -> Option<Option<BattleReading>> {
        match self.phase {
            Phase::Done { result } => Some(result),
            _ => None,
        }
    }

    /// The result the search will reach when every answer handed to it from
    /// now on comes from `mem`.
    pub closed spec fn outcome(self, mem: MemoryImage) -> Option<BattleReading> {
        match self.phase {
            Phase::Hierarchy { path, step } => {
                let here = match step {
                    WalkStep::Start => resolve_battle_from_root_list(
                        mem,
                        self.scene,
                        root_path(path as int).0,
                        root_path(path as int).1,
                        self.offsets,
                        self.size,
                    ),
                    WalkStep::Node { start, current, depth, step } => node_outcome(
                        mem,
                        start,
                        current,
                        depth,
                        root_path(path as int).1,
                        self.offsets,
                        self.size,
                        step,
                    ),
                };
                first_found(here, resolve_root_paths(mem, self.scene, path + 1, self.offsets, self.size))
            },
            Phase::Fallback { address, values } => reading_of(
                address,
                values_outcome(mem, address, self.offsets, self.size, values),
            ),
            Phase::Done { result } => result,
        }
    }

    /// An upper bound on the reads the search still makes.
    pub closed spec fn measure(self) -> nat {
        match self.phase {
            Phase::Hierarchy { path, step } => ((3 - path) * 19201 + walk_left(step)) as nat,
            Phase::Fallback { values, .. } => values_left(values),
            Phase::Done { .. } => 0,
        }
    }

    spec fn with_phase(self, phase: Phase) -> BattleResolver {
        BattleResolver { phase, ..self }
    }

    /// The phase after root path `path` found nothing: the next path, and
    /// after the last one, the end of the search without a manager.
    spec fn after_path(self, path: int) -> Phase {
        if path + 1 < ROOT_PATH_COUNT {
            Phase::Hierarchy { path: (path + 1) as usize, step: WalkStep::Start }
        } else {
            Phase::Done { result: None }
        }
    }

    spec fn node_phase(path: usize, start: u64, current: u64, depth: u32, step: NodeStep) -> Phase {
        Phase::Hierarchy { path, step: WalkStep::Node { start, current, depth, step } }
    }

    /// The phase after the answer `r` while examining the root list node
    /// `current`.
    spec fn node_step(
        self,
        path: usize,
        start: u64,
        current: u64,
        depth: u32,
        step: NodeStep,
        r: ResponseView,
    ) -> Phase {
        let p = non_null(pointer_of(r));
        let next_node = Self::node_phase(path, start, current, depth, NodeStep::Next);
        match step {
            NodeStep::Transform => match p {
                Some(transform) => Self::node_phase(
                    path,
                    start,
                    current,
                    depth,
                    NodeStep::GameObject { transform },
                ),
                None => next_node,
            },
            NodeStep::GameObject { .. } => match p {
                Some(game_object) => Self::node_phase(
                    path,
                    start,
                    current,
                    depth,
                    NodeStep::NamePointer { game_object },
                ),
                None => next_node,
            },
            NodeStep::NamePointer { game_object } => match p {
                Some(name_pointer) => Self::node_phase(
                    path,
                    start,
                    current,
                    depth,
                    NodeStep::Name { game_object, name_pointer },
                ),
                None => next_node,
            },
            NodeStep::Name { game_object, .. } => if names_battle_manager(bytes_of(r)) {
                Self::node_phase(path, start, current, depth, NodeStep::ComponentArray { game_object })
            } else {
                next_node
            },
            NodeStep::ComponentArray { game_object } => match p {
                Some(array) => Self::node_phase(
                    path,
                    start,
                    current,
                    depth,
                    NodeStep::Scan { game_object, array, index: 0, step: ComponentStep::Native },
                ),
                None => next_node,
            },
            NodeStep::Scan { game_object, array, index, step } => match component_next(
                game_object,
                step,
                r,
            ) {
                ComponentNext::Continue(s) => Self::node_phase(
                    path,
                    start,
                    current,
                    depth,
                    NodeStep::Scan { game_object, array, index, step: s },
                ),
                ComponentNext::Finished(Some(found)) => Phase::Done { result: Some(found) },
                ComponentNext::Finished(None) => if index + 1 < COMPONENT_SCAN_COUNT {
                    Self::node_phase(
                        path,
                        start,
                        current,
                        depth,
                        NodeStep::Scan {
                            game_object,
                            array,
                            index: (index + 1) as u32,
                            step: ComponentStep::Native,
                        },
                    )
                } else {
                    next_node
                },
            },
            NodeStep::Next => match p {
                Some(next) => if stops_walk(next, current, start, depth as int) || depth + 1
                    >= ROOT_LIST_MAX_NODES {
                    self.after_path(path as int)
                } else {
                    Self::node_phase(path, start, next, (depth + 1) as u32, NodeStep::Transform)
                },
                None => self.after_path(path as int),
            },
        }
    }

    /// The state after the answer `r` to [`Self::request`].
    pub closed spec fn step(self, r: ResponseView) -> BattleResolver {
        let p = non_null(pointer_of(r));
        let phase = match self.phase {
            Phase::Hierarchy { path, step } => match step {
                WalkStep::Start => match p {
                    Some(start) => Self::node_phase(path, start, start, 0, NodeStep::Transform),
                    None => self.after_path(path as int),
                },
                WalkStep::Node { start, current, depth, step } => self.node_step(
                    path,
                    start,
                    current,
                    depth,
                    step,
                    r,
                ),
            },
            Phase::Fallback { address, values } => match values_next(values, r) {
                ValuesNext::Continue(s) => Phase::Fallback { address, values: s },
                ValuesNext::Finished(v) => Phase::Done { result: reading_of(address, v) },
            },
            Phase::Done { result } => Phase::Done { result },
        };
        self.with_phase(phase)
    }

    /// The state after the answers that `mem` gives to `fuel` requests in turn.
    pub closed spec fn run(self, mem: MemoryImage, fuel: nat) -> BattleResolver
        decreases fuel,
    {
        if fuel == 0 {
            self
        } else {
            match self.request() {
                Some(req) => self.step(mem(req)).run(mem, (fuel - 1) as nat),
                None => self,
            }
        }
    }
}


proof fn lemma_values_step(mem: MemoryImage, address: u64, offsets: FieldOffsets, size: PointerSize, step: ValuesStep)
    ensures
        ({
            let r = mem(values_request(address, offsets, size, step));
            match values_next(step, r) {
                ValuesNext::Continue(s) => values_outcome(mem, address, offsets, size, s) == values_outcome(
                    mem,
                    address,
                    offsets,
                    size,
                    step,
                ) && values_left(s) < values_left(step),
                ValuesNext::Finished(v) => v == values_outcome(mem, address, offsets, size, step),
            }
        }),
{
}

proof fn lemma_component_step(
    mem: MemoryImage,
    game_object: u64,
    array: u64,
    index: u32,
    offsets: FieldOffsets,
    size: PointerSize,
    step: ComponentStep,
)
    ensures
        ({
            let r = mem(component_request(array, index, offsets, size, step));
            match component_next(game_object, step, r) {
                ComponentNext::Continue(s) => component_outcome(mem, game_object, array, index, offsets, size, s)
                    == component_outcome(mem, game_object, array, index, offsets, size, step)
                    && component_left(s) < component_left(step),
                ComponentNext::Finished(v) => v == component_outcome(
                    mem,
                    game_object,
                    array,
                    index,
                    offsets,
                    size,
                    step,
                ),
            }
        }),
{
    match step {
        ComponentStep::Values { managed, step: vs } => {
            lemma_values_step(mem, managed, offsets, size, vs);
        },
        _ => {},
    }
}

proof fn lemma_after_path(s: BattleResolver, mem: MemoryImage, path: usize)
    requires
        s.inv(),
        path < ROOT_PATH_COUNT,
    ensures
        ({
            let t = s.with_phase(s.after_path(path as int));
            &&& t.inv()
            &&& t.outcome(mem) == resolve_root_paths(mem, s.scene, path + 1, s.offsets, s.size)
            &&& t.measure() <= (3 - path) * 19201
        }),
{
    let t = s.with_phase(s.after_path(path as int));
    if path + 1 < ROOT_PATH_COUNT {
        let q = (path + 1) as usize;
        assert(t.phase == (Phase::Hierarchy { path: q, step: WalkStep::Start }));
        assert(resolve_root_paths(mem, s.scene, q as int, s.offsets, s.size) == first_found(
            resolve_battle_from_root_list(
                mem,
                s.scene,
                root_path(q as int).0,
                root_path(q as int).1,
                s.offsets,
                s.size,
            ),
            resolve_root_paths(mem, s.scene, q + 1, s.offsets, s.size),
        ));
    } else {
        assert(resolve_root_paths(mem, s.scene, path + 1, s.offsets, s.size) == None::<BattleReading>);
        assert(t.phase == (Phase::Done { result: None }));
    }
}

proof fn lemma_node_scan(
    s: BattleResolver,
    mem: MemoryImage,
    path: usize,
    start: u64,
    current: u64,
    depth: u32,
    game_object: u64,
    array: u64,
    index: u32,
    cs: ComponentStep,
)
    requires
        s.inv(),
        s.phase == (Phase::Hierarchy {
            path,
            step: WalkStep::Node {
                start,
                current,
                depth,
                step: NodeStep::Scan { game_object, array, index, step: cs },
            },
        }),
    ensures
        ({
            let t = s.step(mem(s.request()->0));
            &&& t.inv()
            &&& t.outcome(mem) == s.outcome(mem)
            &&& t.measure() < s.measure()
        }),
{
    let link = root_path(path as int).1;
    let r = mem(s.request()->0);
    assert(r == mem(component_request(array, index, s.offsets, s.size, cs)));
    lemma_component_step(mem, game_object, array, index, s.offsets, s.size, cs);
    let t = s.step(r);
    assert(t.phase == s.node_step(path, start, current, depth, NodeStep::Scan { game_object, array, index, step: cs }, r));
    match component_next(game_object, cs, r) {
        ComponentNext::Finished(None) => {
            if index + 1 < COMPONENT_SCAN_COUNT {
                assert(scan_components(mem, game_object, array, index + 1, s.offsets, s.size) == first_found(
                    component_candidate(mem, game_object, array, index + 1, s.offsets, s.size),
                    scan_components(mem, game_object, array, index + 2, s.offsets, s.size),
                ));
            } else {
                assert(scan_components(mem, game_object, array, index + 1, s.offsets, s.size)
                    == None::<BattleReading>);
            }
        },
        _ => {},
    }
}

proof fn lemma_node_next(
    s: BattleResolver,
    mem: MemoryImage,
    path: usize,
    start: u64,
    current: u64,
    depth: u32,
)
    requires
        s.inv(),
        s.phase == (Phase::Hierarchy {
            path,
            step: WalkStep::Node { start, current, depth, step: NodeStep::Next },
        }),
    ensures
        ({
            let t = s.step(mem(s.request()->0));
            &&& t.inv()
            &&& t.outcome(mem) == s.outcome(mem)
            &&& t.measure() < s.measure()
        }),
{
    let link = root_path(path as int).1;
    let r = mem(s.request()->0);
    assert(r == mem(ReadRequest::Pointer { address: at(current, link), size: s.size }));
    let t = s.step(r);
    assert(t.phase == s.node_step(path, start, current, depth, NodeStep::Next, r));
    lemma_after_path(s, mem, path);
    let p = non_null(pointer_of(r));
    match p {
        Some(next) => {
            if !stops_walk(next, current, start, depth as int) && depth + 1 >= ROOT_LIST_MAX_NODES {
                assert(walk_root_list(mem, start, next, depth + 1, link, s.offsets, s.size)
                    == None::<BattleReading>);
            }
        },
        None => {},
    }
}

proof fn lemma_step_node(
    s: BattleResolver,
    mem: MemoryImage,
    path: usize,
    start: u64,
    current: u64,
    depth: u32,
    step: NodeStep,
)
    requires
        s.inv(),
        s.phase == (Phase::Hierarchy { path, step: WalkStep::Node { start, current, depth, step } }),
    ensures
        ({
            let t = s.step(mem(s.request()->0));
            &&& t.inv()
            &&& t.outcome(mem) == s.outcome(mem)
            &&& t.measure() < s.measure()
        }),
{
    let link = root_path(path as int).1;
    let r = mem(s.request()->0);
    let t = s.step(r);
    assert(t.phase == s.node_step(path, start, current, depth, step, r));
    let rest = walk_next(mem, start, current, depth as int, link, s.offsets, s.size);
    match step {
        NodeStep::Transform => {
            assert(walk_root_list(mem, start, current, depth as int, link, s.offsets, s.size) == first_found(
                node_candidate(mem, current, s.offsets, s.size),
                rest,
            ));
        },
        NodeStep::ComponentArray { game_object } => {
            let p = non_null(pointer_of(r));
            if let Some(array) = p {
                assert(scan_components(mem, game_object, array, 0, s.offsets, s.size) == first_found(
                    component_candidate(mem, game_object, array, 0, s.offsets, s.size),
                    scan_components(mem, game_object, array, 1, s.offsets, s.size),
                ));
            }
        },
        NodeStep::Scan { game_object, array, index, step: cs } => {
            lemma_node_scan(s, mem, path, start, current, depth, game_object, array, index, cs);
        },
        NodeStep::Next => {
            lemma_node_next(s, mem, path, start, current, depth);
        },
        _ => {},
    }
}

/// One answer taken from a memory image leaves the search's outcome in that
/// image unchanged, keeps the invariant, and brings the search closer to its end.
pub proof fn lemma_step(s: BattleResolver, mem: MemoryImage)
    requires
        s.inv(),
        s.request() is Some,
    ensures
        ({
            let t = s.step(mem(s.request()->0));
            &&& t.inv()
            &&& t.outcome(mem) == s.outcome(mem)
            &&& t.measure() < s.measure()
        }),
{
    let r = mem(s.request()->0);
    match s.phase {
        Phase::Hierarchy { path, step } => match step {
            WalkStep::Start => {
                lemma_after_path(s, mem, path);
                let p = non_null(pointer_of(r));
                if let Some(start) = p {
                    let link = root_path(path as int).1;
                    assert(walk_root_list(mem, start, start, 0, link, s.offsets, s.size) == first_found(
                        node_candidate(mem, start, s.offsets, s.size),
                        walk_next(mem, start, start, 0, link, s.offsets, s.size),
                    ));
                }
            },
            WalkStep::Node { start, current, depth, step } => {
                lemma_step_node(s, mem, path, start, current, depth, step);
            },
        },
        Phase::Fallback { address, values } => {
            lemma_values_step(mem, address, s.offsets, s.size, values);
        },
        Phase::Done { .. } => {},
    }
}

/// The answers of one memory image, whatever they are, keep the invariant.
proof fn lemma_step_inv(s: BattleResolver, r: ResponseView)
    requires
        s.inv(),
    ensures
        s.step(r).inv(),
{
    if s.request() is Some {
        let mem = |q: ReadRequest| r;
        lemma_step(s, mem);
        assert(mem(s.request()->0) == r);
    }
}

/// Once done, the search stays done; before that, reads are still owed.
proof fn lemma_done(s: BattleResolver)
    requires
        s.inv(),
    ensures
        (s.request() is None) == (s.result() is Some),
        s.request() is None ==> s.measure() == 0,
        s.request() is Some ==> s.measure() > 0,
{
}

/// Driving the search with the answers that one memory image gives ends
/// within `s.measure()` reads, with the outcome the search had in that image.
pub proof fn lemma_run(s: BattleResolver, mem: MemoryImage, fuel: nat)
    requires
        s.inv(),
        fuel >= s.measure(),
    ensures
        s.run(mem, fuel).result() == Some(s.outcome(mem)),
    decreases fuel,
{
    lemma_done(s);
    if s.request() is None {
        assert(s.run(mem, fuel) == s);
    } else {
        lemma_step(s, mem);
        let t = s.step(mem(s.request()->0));
        lemma_run(t, mem, (fuel - 1) as nat);
    }
}

/// The number of reads a search makes at most: 19201 for each of the four
/// root paths (its start, and 150 for each of up to 128 nodes).
pub open spec fn max_reads() -> nat {
    76804
}

impl BattleResolver {
    /// The search of one tick, before its first read.
    pub closed spec fn initial(
        scene: Option<u64>,
        preferred: Option<u64>,
        offsets: FieldOffsets,
        size: PointerSize,
    ) -> BattleResolver {
        let fallback = match preferred {
            Some(address) => Phase::Fallback { address, values: ValuesStep::Alive },
            None => Phase::Done { result: None },
        };
        match scene {
            Some(s) => BattleResolver {
                scene: s,
                preferred,
                offsets,
                size,
                phase: Phase::Hierarchy { path: 0, step: WalkStep::Start },
            },
            None => BattleResolver { scene: 0, preferred, offsets, size, phase: fallback },
        }
    }
}

/// A new search has as outcome, in every memory image, the active manager of
/// that image, and makes at most `max_reads()` reads.
pub proof fn lemma_initial(
    scene: Option<u64>,
    preferred: Option<u64>,
    offsets: FieldOffsets,
    size: PointerSize,
    mem: MemoryImage,
)
    ensures
        BattleResolver::initial(scene, preferred, offsets, size).inv(),
        BattleResolver::initial(scene, preferred, offsets, size).measure() <= max_reads(),
        BattleResolver::initial(scene, preferred, offsets, size).outcome(mem)
            == resolve_active_battle_manager_unity2023(mem, scene, preferred, offsets, size),
{
    if let Some(s) = scene {
        assert(resolve_root_paths(mem, s, 0, offsets, size) == first_found(
            resolve_battle_from_root_list(mem, s, root_path(0).0, root_path(0).1, offsets, size),
            resolve_root_paths(mem, s, 1, offsets, size),
        ));
    }
}

/// The central law of the search: driven with the answers of one memory
/// image, a new search is done within `max_reads()` reads, and its result is
/// the manager found in that image's scene hierarchy along the first root
/// path that yields one, else none; on a tick without a scene, it is the
/// previous tick's manager if that still reads as a live manager.
pub proof fn lemma_search_resolves(
    scene: Option<u64>,
    preferred: Option<u64>,
    offsets: FieldOffsets,
    size: PointerSize,
    mem: MemoryImage,
)
    ensures
        BattleResolver::initial(scene, preferred, offsets, size).run(mem, max_reads()).result() == Some(
            resolve_active_battle_manager_unity2023(mem, scene, preferred, offsets, size),
        ),
{
    lemma_initial(scene, preferred, offsets, size, mem);
    lemma_run(BattleResolver::initial(scene, preferred, offsets, size), mem, max_reads());
}

impl BattleResolver {
    /// Whether the search is examining the components of a `GameObject`
    /// named `"BattleManager"`: about to read its component array, or within
    /// the scan of its component slots.
    pub closed spec fn in_component_scan(self) -> bool {
        match self.phase {
            Phase::Hierarchy { step: WalkStep::Node { step, .. }, .. } => match step {
                NodeStep::ComponentArray { .. } => true,
                NodeStep::Scan { .. } => true,
                _ => false,
            },
            _ => false,
        }
    }

    /// Reads left, at most, in the examination of the current `GameObject`'s
    /// components: 145 from its start (the array pointer, then 9 for each of
    /// 16 slots).
    spec fn scan_left(self) -> nat {
        match self.phase {
            Phase::Hierarchy { step: WalkStep::Node { step, .. }, .. } => match step {
                NodeStep::ComponentArray { .. } => 145,
                NodeStep::Scan { .. } => (node_left(step) - 1) as nat,
                _ => 0,
            },
            _ => 0,
        }
    }

    /// The number of reads, up to `fuel`, that the search makes with the
    /// answers of `mem` before it leaves the examination of the current
    /// `GameObject`'s components.
    pub closed spec fn component_scan_reads(self, mem: MemoryImage, fuel: nat) -> nat
        decreases fuel,
    {
        if fuel == 0 || !self.in_component_scan() {
            0
        } else {
            match self.request() {
                Some(q) => 1 + self.step(mem(q)).component_scan_reads(mem, (fuel - 1) as nat),
                None => 0,
            }
        }
    }
}

proof fn lemma_scan_step(s: BattleResolver, mem: MemoryImage)
    requires
        s.inv(),
        s.in_component_scan(),
    ensures
        s.request() is Some,
        s.scan_left() > 0,
        s.scan_left() <= 145,
        ({
            let t = s.step(mem(s.request()->0));
            t.in_component_scan() ==> t.scan_left() < s.scan_left()
        }),
{
    match s.phase {
        Phase::Hierarchy { step: WalkStep::Node { step, .. }, .. } => match step {
            NodeStep::Scan { game_object, array, index, step: cs } => {
                lemma_component_step(mem, game_object, array, index, s.offsets, s.size, cs);
            },
            _ => {},
        },
        _ => {},
    }
}

proof fn lemma_scan_reads(s: BattleResolver, mem: MemoryImage, fuel: nat)
    requires
        s.inv(),
        fuel >= s.scan_left(),
    ensures
        s.component_scan_reads(mem, fuel) <= s.scan_left(),
        !s.run(mem, s.component_scan_reads(mem, fuel)).in_component_scan(),
    decreases fuel,
{
    if s.in_component_scan() {
        lemma_scan_step(s, mem);
        lemma_step_inv(s, mem(s.request()->0));
        let t = s.step(mem(s.request()->0));
        lemma_scan_reads(t, mem, (fuel - 1) as nat);
        let k = t.component_scan_reads(mem, (fuel - 1) as nat);
        assert(s.run(mem, k + 1) == t.run(mem, k));
    } else {
        assert(s.run(mem, 0) == s);
    }
}

/// The examination of one `GameObject`'s components makes at most 145 reads
/// (the array pointer, then at most 9 for each of 16 slots): from any point in
/// it, driven with the answers of a memory image, the search has left it after
/// at most 145 reads.
pub proof fn lemma_component_scan_bound(s: BattleResolver, mem: MemoryImage)
    requires
        s.inv(),
        s.in_component_scan(),
    ensures
        s.component_scan_reads(mem, 145) <= 145,
        !s.run(mem, s.component_scan_reads(mem, 145)).in_component_scan(),
{
    lemma_scan_step(s, mem);
    lemma_scan_reads(s, mem, 145);
}

impl BattleResolver {
    /// The reads the search makes, in order, with the answers of `mem`, up to
    /// `fuel` of them: the words it reaches from the scene (or from the
    /// previous tick's manager).
    pub closed spec fn trace(self, mem: MemoryImage, fuel: nat) -> Seq<ReadRequest>
        decreases fuel,
    {
        if fuel == 0 {
            Seq::empty()
        } else {
            match self.request() {
                Some(q) => seq![q] + self.step(mem(q)).trace(mem, (fuel - 1) as nat),
                None => Seq::empty(),
            }
        }
    }
}

proof fn lemma_trace_agree(s: BattleResolver, mem1: MemoryImage, mem2: MemoryImage, fuel: nat)
    requires
        forall|q: ReadRequest| #[trigger] s.trace(mem1, fuel).contains(q) ==> mem1(q) == mem2(q),
    ensures
        s.run(mem1, fuel) == s.run(mem2, fuel),
        s.trace(mem1, fuel) == s.trace(mem2, fuel),
    decreases fuel,
{
    if fuel > 0 {
        if let Some(q) = s.request() {
            let tr = s.trace(mem1, fuel);
            let t = s.step(mem1(q));
            let rest = t.trace(mem1, (fuel - 1) as nat);
            assert(tr == seq![q] + rest);
            assert(tr[0] == q);
            assert(tr.contains(q));
            assert forall|x: ReadRequest| #[trigger] rest.contains(x) implies mem1(x) == mem2(x) by {
                let i = choose|i: int| 0 <= i < rest.len() && rest[i] == x;
                assert(tr[i + 1] == x);
                assert(tr.contains(x));
            }
            lemma_trace_agree(t, mem1, mem2, (fuel - 1) as nat);
            assert(s.step(mem2(q)) == t);
        }
    }
}

/// The search depends only on the words it reaches: two memory images that
/// give the same answer to every read the search makes in the first give the
/// same result, and the search makes the same reads in both. Nothing outside
/// the scene hierarchy (or, without a scene, the previous tick's manager) is
/// read.
pub proof fn lemma_search_reads_only_reached_words(
    scene: Option<u64>,
    preferred: Option<u64>,
    offsets: FieldOffsets,
    size: PointerSize,
    mem1: MemoryImage,
    mem2: MemoryImage,
)
    requires
        forall|q: ReadRequest| #[trigger]
            BattleResolver::initial(scene, preferred, offsets, size).trace(mem1, max_reads()).contains(q)
                ==> mem1(q) == mem2(q),
    ensures
        resolve_active_battle_manager_unity2023(mem1, scene, preferred, offsets, size)
            == resolve_active_battle_manager_unity2023(mem2, scene, preferred, offsets, size),
        BattleResolver::initial(scene, preferred, offsets, size).trace(mem1, max_reads())
            == BattleResolver::initial(scene, preferred, offsets, size).trace(mem2, max_reads()),
{
    let s = BattleResolver::initial(scene, preferred, offsets, size);
    lemma_trace_agree(s, mem1, mem2, max_reads());
    lemma_search_resolves(scene, preferred, offsets, size, mem1);
    lemma_search_resolves(scene, preferred, offsets, size, mem2);
}

/// The first node of a root list is examined: when the list's first node
/// leads to a manager, the list gives that manager.
pub proof fn lemma_first_node_examined(
    mem: MemoryImage,
    scene: u64,
    root_offset: u64,
    link: u64,
    offsets: FieldOffsets,
    size: PointerSize,
)
    ensures
        read_non_null_pointer(mem, at(scene, root_offset), size) matches Some(start) ==> (node_candidate(
            mem,
            start,
            offsets,
            size,
        ) matches Some(x) ==> resolve_battle_from_root_list(mem, scene, root_offset, link, offsets, size)
            == Some(x)),
{
    if let Some(start) = read_non_null_pointer(mem, at(scene, root_offset), size) {
        assert(walk_root_list(mem, start, start, 0, link, offsets, size) == first_found(
            node_candidate(mem, start, offsets, size),
            walk_next(mem, start, start, 0, link, offsets, size),
        ));
    }
}

/// Nodes are examined in list order: a manager reached through node `current`
/// of a walk (at most the 128th node) is the walk's result, whatever comes after.
pub proof fn lemma_walk_takes_current_node(
    mem: MemoryImage,
    start: u64,
    current: u64,
    depth: int,
    link: u64,
    offsets: FieldOffsets,
    size: PointerSize,
)
    requires
        0 <= depth < ROOT_LIST_MAX_NODES,
    ensures
        node_candidate(mem, current, offsets, size) matches Some(x) ==> walk_root_list(
            mem,
            start,
            current,
            depth,
            link,
            offsets,
            size,
        ) == Some(x),
{
}

/// A manager that is the first root object of the scene's first root list is
/// the tick's result, whatever the previous tick's manager was, and the
/// step-by-step search driven by that memory image ends with it.
pub proof fn lemma_first_root_object_found(
    mem: MemoryImage,
    scene: u64,
    preferred: Option<u64>,
    offsets: FieldOffsets,
    size: PointerSize,
)
    ensures
        read_non_null_pointer(mem, at(scene, root_path(0).0), size) matches Some(start) ==> (node_candidate(
            mem,
            start,
            offsets,
            size,
        ) matches Some(x) ==> resolve_active_battle_manager_unity2023(mem, Some(scene), preferred, offsets, size)
            == Some(x) && BattleResolver::initial(Some(scene), preferred, offsets, size).run(mem, max_reads()).result()
            == Some(Some(x))),
{
    lemma_search_resolves(Some(scene), preferred, offsets, size, mem);
    lemma_first_node_examined(mem, scene, root_path(0).0, root_path(0).1, offsets, size);
    assert(resolve_root_paths(mem, scene, 0, offsets, size) == first_found(
        resolve_battle_from_root_list(mem, scene, root_path(0).0, root_path(0).1, offsets, size),
        resolve_root_paths(mem, scene, 1, offsets, size),
    ));
}

/// A search result, when there is one, holds the values of a live manager.
pub open spec fn plausible(r: Option<BattleReading>) -> bool {
    r matches Some(x) ==> crate::memory::valid_battle_values(x.stage_num, x.start_flg, x.finish_flg)
}

proof fn lemma_values_plausible(mem: MemoryImage, address: u64, offsets: FieldOffsets, size: PointerSize)
    ensures
        plausible(reading_of(address, battle_values(mem, address, offsets, size))),
{
}

proof fn lemma_scan_plausible(
    mem: MemoryImage,
    game_object: u64,
    array: u64,
    index: int,
    offsets: FieldOffsets,
    size: PointerSize,
)
    ensures
        plausible(scan_components(mem, game_object, array, index, offsets, size)),
    decreases COMPONENT_SCAN_COUNT - index,
{
    if 0 <= index < COMPONENT_SCAN_COUNT {
        lemma_scan_plausible(mem, game_object, array, index + 1, offsets, size);
        let native = read_non_null_pointer(mem, at(array, component_pair_offset(index)), size);
        if let Some(n) = native {
            if let Some(h) = read_non_null_pointer(mem, at(n, SCRIPTING_OBJECT_HANDLE), size) {
                if let Some(m) = read_non_null_pointer(mem, h, size) {
                    lemma_values_plausible(mem, m, offsets, size);
                }
            }
        }
    }
}

proof fn lemma_walk_plausible(
    mem: MemoryImage,
    start: u64,
    current: u64,
    depth: int,
    link: u64,
    offsets: FieldOffsets,
    size: PointerSize,
)
    ensures
        plausible(walk_root_list(mem, start, current, depth, link, offsets, size)),
        plausible(walk_next(mem, start, current, depth, link, offsets, size)),
    decreases ROOT_LIST_MAX_NODES - depth,
{
    if 0 <= depth < ROOT_LIST_MAX_NODES {
        if let Some(next) = read_non_null_pointer(mem, at(current, link), size) {
            lemma_walk_plausible(mem, start, next, depth + 1, link, offsets, size);
        }
        if let Some(t) = read_non_null_pointer(mem, at(current, ROOT_NODE_TRANSFORM), size) {
            if let Some(go) = read_non_null_pointer(mem, at(t, COMPONENT_GAME_OBJECT), size) {
                if let Some(a) = read_non_null_pointer(mem, at(go, GAME_OBJECT_COMPONENTS), size) {
                    lemma_scan_plausible(mem, go, a, 0, offsets, size);
                }
            }
        }
    }
}

proof fn lemma_paths_plausible(mem: MemoryImage, scene: u64, i: int, offsets: FieldOffsets, size: PointerSize)
    ensures
        plausible(resolve_root_paths(mem, scene, i, offsets, size)),
    decreases ROOT_PATH_COUNT - i,
{
    if 0 <= i < ROOT_PATH_COUNT {
        lemma_paths_plausible(mem, scene, i + 1, offsets, size);
        if let Some(st) = read_non_null_pointer(mem, at(scene, root_path(i).0), size) {
            lemma_walk_plausible(mem, st, st, 0, root_path(i).1, offsets, size);
        }
    }
}

/// Every manager the search returns holds values of a live manager: a stage
/// number in `0..=20` and flags that are 0 or 1.
pub proof fn lemma_result_plausible(
    mem: MemoryImage,
    scene: Option<u64>,
    preferred: Option<u64>,
    offsets: FieldOffsets,
    size: PointerSize,
)
    ensures
        plausible(resolve_active_battle_manager_unity2023(mem, scene, preferred, offsets, size)),
{
    if let Some(s) = scene {
        lemma_paths_plausible(mem, s, 0, offsets, size);
    }
    if let Some(a) = preferred {
        lemma_values_plausible(mem, a, offsets, size);
    }
}

/// The previous tick's manager is a fallback only on a tick where the scene
/// could not be had. When the scene was had, the result is what its hierarchy
/// holds, whatever the previous manager was: a manager recreated by a retry is
/// picked up, and an empty hierarchy gives no manager.
pub proof fn lemma_fallback_only_without_scene(
    mem: MemoryImage,
    scene: Option<u64>,
    preferred: Option<u64>,
    offsets: FieldOffsets,
    size: PointerSize,
)
    ensures
        scene is Some ==> resolve_active_battle_manager_unity2023(mem, scene, preferred, offsets, size)
            == resolve_battle_manager_unity2023(mem, scene, offsets, size),
        scene is None ==> resolve_active_battle_manager_unity2023(mem, scene, preferred, offsets, size)
            == fallback_reading(mem, preferred, offsets, size),
{
}

// ---------------------------------------------------------------------------
// Executable search
// ---------------------------------------------------------------------------

fn values_request_of(address: u64, offsets: FieldOffsets, size: PointerSize, step: ValuesStep) -> (q: ReadRequest)
    ensures
        q == values_request(address, offsets, size, step),
{
    match step {
        ValuesStep::Alive => ReadRequest::Pointer {
            address: offset_address(address, UNITY_OBJECT_CACHED_PTR),
            size,
        },
        ValuesStep::Stage => ReadRequest::I32 { address: offset_address(address, offsets.stage_num as u64) },
        ValuesStep::Start { .. } => ReadRequest::U8 {
            address: offset_address(address, offsets.start_flg as u64),
        },
        ValuesStep::Finish { .. } => ReadRequest::U8 {
            address: offset_address(address, offsets.finish_flg as u64),
        },
    }
}

fn component_request_of(
    array: u64,
    index: u32,
    offsets: FieldOffsets,
    size: PointerSize,
    step: ComponentStep,
) -> (q: ReadRequest)
    requires
        index < COMPONENT_SCAN_COUNT,
    ensures
        q == component_request(array, index, offsets, size, step),
{
    match step {
        ComponentStep::Native => ReadRequest::Pointer {
            address: offset_address(array, pair_offset(index)),
            size,
        },
        ComponentStep::Owner { native } => ReadRequest::Pointer {
            address: offset_address(native, COMPONENT_GAME_OBJECT),
            size,
        },
        ComponentStep::Handle { native } => ReadRequest::Pointer {
            address: offset_address(native, SCRIPTING_OBJECT_HANDLE),
            size,
        },
        ComponentStep::Managed { handle, .. } => ReadRequest::Pointer { address: handle, size },
        ComponentStep::NativeBack { managed, .. } => ReadRequest::Pointer {
            address: offset_address(managed, UNITY_OBJECT_CACHED_PTR),
            size,
        },
        ComponentStep::Values { managed, step } => values_request_of(managed, offsets, size, step),
    }
}

fn node_request_of(current: u64, link: u64, offsets: FieldOffsets, size: PointerSize, step: NodeStep) -> (q: ReadRequest)
    requires
        node_wf(step),
    ensures
        q == node_request(current, link, offsets, size, step),
{
    match step {
        NodeStep::Transform => ReadRequest::Pointer {
            address: offset_address(current, ROOT_NODE_TRANSFORM),
            size,
        },
        NodeStep::GameObject { transform } => ReadRequest::Pointer {
            address: offset_address(transform, COMPONENT_GAME_OBJECT),
            size,
        },
        NodeStep::NamePointer { game_object } => ReadRequest::Pointer {
            address: offset_address(game_object, GAME_OBJECT_NAME),
            size,
        },
        NodeStep::Name { name_pointer, .. } => ReadRequest::Bytes {
            address: name_pointer,
            len: BATTLE_MANAGER_NAME_LEN,
        },
        NodeStep::ComponentArray { game_object } => ReadRequest::Pointer {
            address: offset_address(game_object, GAME_OBJECT_COMPONENTS),
            size,
        },
        NodeStep::Scan { array, index, step, .. } => component_request_of(array, index, offsets, size, step),
        NodeStep::Next => ReadRequest::Pointer { address: offset_address(current, link), size },
    }
}

/// Reads of a manager's fields: the cached native pointer first (a
/// destroyed native object ends the reading), then `stageNum`, `startFlg`
/// and `finishFlg`, whose values must be those of a live manager.
fn values_advance(step: ValuesStep, r: &ReadResponse) -> (n: ValuesNext)
    ensures
        n == values_next(step, r@),
{
    match step {
        ValuesStep::Alive => {
            if native_alive_from(pointer_value(r)) == Some(false) {
                ValuesNext::Finished(None)
            } else {
                ValuesNext::Continue(ValuesStep::Stage)
            }
        },
        ValuesStep::Stage => match i32_value(r) {
            Some(stage_num) => ValuesNext::Continue(ValuesStep::Start { stage_num }),
            None => ValuesNext::Finished(None),
        },
        ValuesStep::Start { stage_num } => match u8_value(r) {
            Some(start_flg) => ValuesNext::Continue(ValuesStep::Finish { stage_num, start_flg }),
            None => ValuesNext::Finished(None),
        },
        ValuesStep::Finish { stage_num, start_flg } => match u8_value(r) {
            Some(finish_flg) => ValuesNext::Finished(validate_battle_values(stage_num, start_flg, finish_flg)),
            None => ValuesNext::Finished(None),
        },
    }
}

/// Reads through one component slot: the native component, its owner (which
/// must be the `GameObject` examined), its scripting handle, the managed
/// object, the managed object's cached native pointer (which must lead back to
/// the component), then the manager's fields.
fn component_advance(game_object: u64, step: ComponentStep, r: &ReadResponse) -> (n: ComponentNext)
    ensures
        n == component_next(game_object, step, r@),
{
    let p = non_null_pointer(pointer_value(r));
    match step {
        ComponentStep::Native => match p {
            Some(native) => ComponentNext::Continue(ComponentStep::Owner { native }),
            None => ComponentNext::Finished(None),
        },
        ComponentStep::Owner { native } => {
            let owner_matches = match p {
                Some(owner) => owner == game_object,
                None => false,
            };
            if owner_matches {
                ComponentNext::Continue(ComponentStep::Handle { native })
            } else {
                ComponentNext::Finished(None)
            }
        },
        ComponentStep::Handle { native } => match p {
            Some(handle) => ComponentNext::Continue(ComponentStep::Managed { native, handle }),
            None => ComponentNext::Finished(None),
        },
        ComponentStep::Managed { native, .. } => match p {
            Some(managed) => ComponentNext::Continue(ComponentStep::NativeBack { native, managed }),
            None => ComponentNext::Finished(None),
        },
        ComponentStep::NativeBack { native, managed } => {
            let native_back_matches = match p {
                Some(back) => back == native,
                None => false,
            };
            if native_back_matches {
                ComponentNext::Continue(ComponentStep::Values { managed, step: ValuesStep::Alive })
            } else {
                ComponentNext::Finished(None)
            }
        },
        ComponentStep::Values { managed, step } => match values_advance(step, r) {
            ValuesNext::Continue(s) => ComponentNext::Continue(ComponentStep::Values { managed, step: s }),
            ValuesNext::Finished(v) => ComponentNext::Finished(reading_from(managed, v)),
        },
    }
}

fn stops_walk_at(next: u64, current: u64, start: u64, depth: u32) -> (b: bool)
    ensures
        b == stops_walk(next, current, start, depth as int),
{
    next == current || (depth > 0 && next == start)
}

impl BattleResolver {
    /// Starts the search of one tick: in the hierarchy of the current scene
    /// when it could be had (`scene`); when it could not, in the manager of
    /// the previous tick (`preferred`).
    pub fn new(scene: Option<u64>, preferred: Option<u64>, offsets: FieldOffsets, size: PointerSize) -> (r: Self)
        ensures
            r == Self::initial(scene, preferred, offsets, size),
            r.measure() <= max_reads(),
            forall|mem: MemoryImage| #[trigger]
                r.outcome(mem) == resolve_active_battle_manager_unity2023(mem, scene, preferred, offsets, size),
    {
        proof {
            assert forall|mem: MemoryImage| #[trigger]
                Self::initial(scene, preferred, offsets, size).outcome(mem)
                    == resolve_active_battle_manager_unity2023(mem, scene, preferred, offsets, size) by {
                lemma_initial(scene, preferred, offsets, size, mem);
            }
            lemma_initial(scene, preferred, offsets, size, |q: ReadRequest| ResponseView::Failed);
        }
        match scene {
            Some(s) => BattleResolver {
                scene: s,
                preferred,
                offsets,
                size,
                phase: Phase::Hierarchy { path: 0, step: WalkStep::Start },
            },
            None => {
                let phase = match preferred {
                    Some(address) => Phase::Fallback { address, values: ValuesStep::Alive },
                    None => Phase::Done { result: None },
                };
                BattleResolver { scene: 0, preferred, offsets, size, phase }
            },
        }
    }

    /// The read the search needs next; none once it is done.
    pub fn next_request(&self) -> (q: Option<ReadRequest>)
        ensures
            q == self.request(),
    {
        proof {
            use_type_invariant(self);
        }
        match self.phase {
            Phase::Hierarchy { path, step } => {
                let (root_offset, link) = root_path_at(path);
                match step {
                    WalkStep::Start => Some(
                        ReadRequest::Pointer { address: offset_address(self.scene, root_offset), size: self.size },
                    ),
                    WalkStep::Node { current, step, .. } => Some(
                        node_request_of(current, link, self.offsets, self.size, step),
                    ),
                }
            },
            Phase::Fallback { address, values } => Some(values_request_of(address, self.offsets, self.size, values)),
            Phase::Done { .. } => None,
        }
    }

    /// The result, once the search is done.
    pub fn finished(&self) -> (r: Option<Option<BattleReading>>)
        ensures
            r == self.result(),
            (r is Some) == (self.request() is None),
            r matches Some(found) ==> forall|mem: MemoryImage| #[trigger] self.outcome(mem) == found,
    {
        proof {
            use_type_invariant(self);
            lemma_done(*self);
        }
        match self.phase {
            Phase::Done { result } => Some(result),
            _ => None,
        }
    }

    fn after_path_phase(&self, path: usize) -> (p: Phase)
        requires
            path < ROOT_PATH_COUNT,
        ensures
            p == self.after_path(path as int),
    {
        if path + 1 < ROOT_PATH_COUNT {
            Phase::Hierarchy { path: path + 1, step: WalkStep::Start }
        } else {
            Phase::Done { result: None }
        }
    }

    fn node_step_phase(
        &self,
        path: usize,
        start: u64,
        current: u64,
        depth: u32,
        step: NodeStep,
        r: &ReadResponse,
    ) -> (ph: Phase)
        requires
            path < ROOT_PATH_COUNT,
            depth < ROOT_LIST_MAX_NODES,
            node_wf(step),
        ensures
            ph == self.node_step(path, start, current, depth, step, r@),
    {
        let p = non_null_pointer(pointer_value(r));
        let next_node = Phase::Hierarchy {
            path,
            step: WalkStep::Node { start, current, depth, step: NodeStep::Next },
        };
        let node = |s: NodeStep| -> (ph: Phase)
            ensures
                ph == Self::node_phase(path, start, current, depth, s),
            { Phase::Hierarchy { path, step: WalkStep::Node { start, current, depth, step: s } } };
        match step {
            NodeStep::Transform => match p {
                Some(transform) => node(NodeStep::GameObject { transform }),
                None => next_node,
            },
            NodeStep::GameObject { .. } => match p {
                Some(game_object) => node(NodeStep::NamePointer { game_object }),
                None => next_node,
            },
            NodeStep::NamePointer { game_object } => match p {
                Some(name_pointer) => node(NodeStep::Name { game_object, name_pointer }),
                None => next_node,
            },
            NodeStep::Name { game_object, .. } => if is_battle_manager_name(r) {
                node(NodeStep::ComponentArray { game_object })
            } else {
                next_node
            },
            NodeStep::ComponentArray { game_object } => match p {
                Some(array) => node(NodeStep::Scan { game_object, array, index: 0, step: ComponentStep::Native }),
                None => next_node,
            },
            NodeStep::Scan { game_object, array, index, step } => match component_advance(game_object, step, r) {
                ComponentNext::Continue(s) => node(NodeStep::Scan { game_object, array, index, step: s }),
                ComponentNext::Finished(Some(found)) => Phase::Done { result: Some(found) },
                ComponentNext::Finished(None) => if index + 1 < COMPONENT_SCAN_COUNT {
                    node(NodeStep::Scan { game_object, array, index: index + 1, step: ComponentStep::Native })
                } else {
                    next_node
                },
            },
            NodeStep::Next => match p {
                Some(next) => if stops_walk_at(next, current, start, depth) || depth + 1 >= ROOT_LIST_MAX_NODES {
                    self.after_path_phase(path)
                } else {
                    Phase::Hierarchy {
                        path,
                        step: WalkStep::Node { start, current: next, depth: depth + 1, step: NodeStep::Transform },
                    }
                },
                None => self.after_path_phase(path),
            },
        }
    }

    /// Takes the answer to the read that [`Self::next_request`] named.
    pub fn feed(&mut self, response: &ReadResponse)
        ensures
            *final(self) == old(self).step(response@),
            old(self).request() is Some ==> final(self).measure() < old(self).measure(),
            forall|mem: MemoryImage|
                old(self).request() matches Some(q) && mem(q) == response@ ==> #[trigger] final(self).outcome(mem)
                    == old(self).outcome(mem),
    {
        proof {
            use_type_invariant(&*self);
            lemma_step_inv(*self, response@);
            let s = *self;
            if s.request() is Some {
                lemma_step(s, |q: ReadRequest| response@);
                assert forall|mem: MemoryImage|
                    s.request() matches Some(q) && mem(q) == response@ implies #[trigger] s.step(response@).outcome(
                    mem,
                ) == s.outcome(mem) by {
                    lemma_step(s, mem);
                }
            }
        }
        let phase = match self.phase {
            Phase::Hierarchy { path, step } => match step {
                WalkStep::Start => match non_null_pointer(pointer_value(response)) {
                    Some(start) => Phase::Hierarchy {
                        path,
                        step: WalkStep::Node { start, current: start, depth: 0, step: NodeStep::Transform },
                    },
                    None => self.after_path_phase(path),
                },
                WalkStep::Node { start, current, depth, step } => self.node_step_phase(
                    path,
                    start,
                    current,
                    depth,
                    step,
                    response,
                ),
            },
            Phase::Fallback { address, values } => match values_advance(values, response) {
                ValuesNext::Continue(s) => Phase::Fallback { address, values: s },
                ValuesNext::Finished(v) => Phase::Done { result: reading_from(address, v) },
            },
            Phase::Done { result } => Phase::Done { result },
        };
        self.phase = phase;
    }
}

} // verus!
