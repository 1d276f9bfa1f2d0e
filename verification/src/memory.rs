//! Reads of the game's memory, as requests and answers.
//!
//! The library never touches the game process itself: it asks for a read with
//! a [`ReadRequest`] and is handed the outcome as a [`ReadResponse`]. The
//! contracts speak of a [`MemoryImage`], the answer that memory gives to each
//! request at one moment; the search results are stated for the case where
//! every answer handed in comes from one such image.
use crate::layout::{at, PointerSize, BATTLE_MANAGER_NAME_LEN, UNITY_OBJECT_CACHED_PTR};
use vstd::prelude::*;

verus! {

/// One read of the game's memory.
#[derive(Clone, Copy, Debug, PartialEq, Eq, Structural)]
pub enum ReadRequest {
    /// A pointer of the given width, zero-extended to 64 bits.
    Pointer { address: u64, size: PointerSize },
    /// A little-endian `i32`.
    I32 { address: u64 },
    /// One byte.
    U8 { address: u64 },
    /// `len` consecutive bytes.
    Bytes { address: u64, len: usize },
}

/// The outcome of a read: the value read, or `Failed` when the memory could
/// not be read.
#[derive(Clone, Debug)]
pub enum ReadResponse {
    Failed,
    Pointer(u64),
    I32(i32),
    U8(u8),
    Bytes(Vec<u8>),
}

/// A [`ReadResponse`] as a mathematical value.
pub enum ResponseView {
    Failed,
    Pointer(u64),
    I32(i32),
    U8(u8),
    Bytes(Seq<u8>),
}

impl View for ReadResponse {
    type V = ResponseView;

    open spec fn view(&self) -> ResponseView {
        match self {
            ReadResponse::Failed => ResponseView::Failed,
            ReadResponse::Pointer(p) => ResponseView::Pointer(*p),
            ReadResponse::I32(v) => ResponseView::I32(*v),
            ReadResponse::U8(v) => ResponseView::U8(*v),
            ReadResponse::Bytes(b) => ResponseView::Bytes(b@),
        }
    }
}

/// What memory answers to each read request at one moment.
pub type MemoryImage = spec_fn(ReadRequest) -> ResponseView;

/// The pointer carried by an answer; an answer of another kind counts as a
/// failed read.
pub open spec fn pointer_of(r: ResponseView) -> Option<u64> {
    match r {
        ResponseView::Pointer(p) => Some(p),
        _ => None,
    }
}

pub open spec fn i32_of(r: ResponseView) -> Option<i32> {
    match r {
        ResponseView::I32(v) => Some(v),
        _ => None,
    }
}

pub open spec fn u8_of(r: ResponseView) -> Option<u8> {
    match r {
        ResponseView::U8(v) => Some(v),
        _ => None,
    }
}

pub open spec fn bytes_of(r: ResponseView) -> Option<Seq<u8>> {
    match r {
        ResponseView::Bytes(b) => Some(b),
        _ => None,
    }
}

pub fn pointer_value(r: &ReadResponse) -> (v: Option<u64>)
    ensures
        v == pointer_of(r@),
{
    match r {
        ReadResponse::Pointer(p) => Some(*p),
        _ => None,
    }
}

pub fn i32_value(r: &ReadResponse) -> (v: Option<i32>)
    ensures
        v == i32_of(r@),
{
    match r {
        ReadResponse::I32(x) => Some(*x),
        _ => None,
    }
}

pub fn u8_value(r: &ReadResponse) -> (v: Option<u8>)
    ensures
        v == u8_of(r@),
{
    match r {
        ReadResponse::U8(x) => Some(*x),
        _ => None,
    }
}

/// Reading a pointer from the image.
pub open spec fn read_pointer(mem: MemoryImage, address: u64, size: PointerSize) -> Option<u64> {
    pointer_of(mem(ReadRequest::Pointer { address, size }))
}

pub open spec fn read_i32(mem: MemoryImage, address: u64) -> Option<i32> {
    i32_of(mem(ReadRequest::I32 { address }))
}

pub open spec fn read_u8(mem: MemoryImage, address: u64) -> Option<u8> {
    u8_of(mem(ReadRequest::U8 { address }))
}

pub open spec fn read_bytes(mem: MemoryImage, address: u64, len: usize) -> Option<Seq<u8>> {
    bytes_of(mem(ReadRequest::Bytes { address, len }))
}

/// A pointer that was read and is not null.
pub open spec fn non_null(p: Option<u64>) -> Option<u64> {
    match p {
        Some(a) => if a != 0 {
            Some(a)
        } else {
            None
        },
        None => None,
    }
}

/// Reads a pointer and keeps it only when it is not null.
pub open spec fn read_non_null_pointer(mem: MemoryImage, address: u64, size: PointerSize) -> Option<u64> {
    non_null(read_pointer(mem, address, size))
}

/// Keeps a pointer that was read only when it is not null.
pub fn non_null_pointer(p: Option<u64>) -> (r: Option<u64>)
    ensures
        r == non_null(p),
        r matches Some(a) ==> a != 0,
{
    match p {
        Some(a) => if a != 0 {
            Some(a)
        } else {
            None
        },
        None => None,
    }
}

/// Whether a managed `UnityEngine.Object` still has its native object, from
/// the read of its cached native pointer: `Some(true)` when that pointer is
/// set, `Some(false)` when it is null (destroyed), `None` when the read failed.
pub open spec fn native_alive(cached: Option<u64>) -> Option<bool> {
    match cached {
        Some(p) => Some(p != 0),
        None => None,
    }
}

/// Whether the managed object at `managed` still has its native object.
pub open spec fn unity_native_alive(mem: MemoryImage, managed: u64, size: PointerSize) -> Option<bool> {
    native_alive(read_pointer(mem, at(managed, UNITY_OBJECT_CACHED_PTR), size))
}

/// Whether a managed object still has its native object, from the read of its
/// cached native pointer.
pub fn native_alive_from(cached: Option<u64>) -> (r: Option<bool>)
    ensures
        r == native_alive(cached),
{
    match cached {
        Some(p) => Some(p != 0),
        None => None,
    }
}

/// The name bytes, NUL included, of the `GameObject` that holds the manager:
/// `"BattleManager\0"`.
pub open spec fn battle_manager_name() -> Seq<u8> {
    seq![66u8, 97u8, 116u8, 116u8, 108u8, 101u8, 77u8, 97u8, 110u8, 97u8, 103u8, 101u8, 114u8, 0u8]
}

/// Whether the bytes read at a name pointer spell the manager's name.
pub open spec fn names_battle_manager(bytes: Option<Seq<u8>>) -> bool {
    bytes == Some(battle_manager_name())
}

/// Whether the answer to a name read spells `"BattleManager\0"`.
pub fn is_battle_manager_name(r: &ReadResponse) -> (b: bool)
    ensures
        b == names_battle_manager(bytes_of(r@)),
{
    match r {
        ReadResponse::Bytes(v) => {
            let ghost name = battle_manager_name();
            if v.len() != BATTLE_MANAGER_NAME_LEN {
                assert(v@.len() != name.len());
                return false;
            }
            let b = v[0] == 66 && v[1] == 97 && v[2] == 116 && v[3] == 116 && v[4] == 108
                && v[5] == 101 && v[6] == 77 && v[7] == 97 && v[8] == 110 && v[9] == 97
                && v[10] == 103 && v[11] == 101 && v[12] == 114 && v[13] == 0;
            if b {
                assert(v@ =~= name);
            } else {
                assert(v@ != name) by {
                    if v@ == name {
                        assert(v@[0] == name[0] && v@[1] == name[1] && v@[2] == name[2]);
                        assert(v@[3] == name[3] && v@[4] == name[4] && v@[5] == name[5]);
                        assert(v@[6] == name[6] && v@[7] == name[7] && v@[8] == name[8]);
                        assert(v@[9] == name[9] && v@[10] == name[10] && v@[11] == name[11]);
                        assert(v@[12] == name[12] && v@[13] == name[13]);
                    }
                }
            }
            b
        },
        _ => false,
    }
}

/// The three fields of a `BattleManager` that the splitter watches.
#[derive(Clone, Copy, Debug, PartialEq, Eq, Structural)]
pub struct BattleValues {
    /// `stageNum`: 0 for stage 1.
    pub stage_num: i32,
    /// `startFlg`.
    pub start_flg: u8,
    /// `finishFlg`: becomes 1 when the stage ends.
    pub finish_flg: u8,
}

/// A `BattleManager` found in memory, with its watched fields.
#[derive(Clone, Copy, Debug, PartialEq, Eq, Structural)]
pub struct BattleReading {
    /// Address of the managed `BattleManager`.
    pub address: u64,
    pub stage_num: i32,
    pub start_flg: u8,
    pub finish_flg: u8,
}

/// Field offsets of `stageNum`, `startFlg` and `finishFlg` inside a managed
/// `BattleManager`, as Mono reports them.
#[derive(Clone, Copy, Debug, PartialEq, Eq, Structural)]
pub struct FieldOffsets {
    pub stage_num: u32,
    pub start_flg: u32,
    pub finish_flg: u32,
}

/// Values that a live `BattleManager` can hold: a stage number in `0..=20` and
/// flags that are 0 or 1. Anything else is taken for a stale or wrong object.
pub open spec fn valid_battle_values(stage_num: i32, start_flg: u8, finish_flg: u8) -> bool {
    &&& 0 <= stage_num <= 20
    &&& start_flg <= 1
    &&& finish_flg <= 1
}

pub open spec fn checked_values(stage_num: i32, start_flg: u8, finish_flg: u8) -> Option<BattleValues> {
    if valid_battle_values(stage_num, start_flg, finish_flg) {
        Some(BattleValues { stage_num, start_flg, finish_flg })
    } else {
        None
    }
}

/// Accepts the three fields only when a live `BattleManager` can hold them.
pub fn validate_battle_values(stage_num: i32, start_flg: u8, finish_flg: u8) -> (r: Option<BattleValues>)
    ensures
        r == checked_values(stage_num, start_flg, finish_flg),
{
    if !(0 <= stage_num && stage_num <= 20) {
        return None;
    }
    if start_flg > 1 {
        return None;
    }
    if finish_flg > 1 {
        return None;
    }
    Some(BattleValues { stage_num, start_flg, finish_flg })
}

/// The watched fields of the `BattleManager` at `address`, read from the
/// image: none when its native object is known to be destroyed, when a read
/// fails, or when the values are not those of a live manager.
pub open spec fn battle_values(mem: MemoryImage, address: u64, offsets: FieldOffsets, size: PointerSize) -> Option<BattleValues> {
    if unity_native_alive(mem, address, size) == Some(false) {
        None
    } else {
        values_from_stage(mem, address, offsets)
    }
}

pub open spec fn values_from_stage(mem: MemoryImage, address: u64, offsets: FieldOffsets) -> Option<BattleValues> {
    match read_i32(mem, at(address, offsets.stage_num as u64)) {
        Some(stage_num) => values_from_start(mem, address, offsets, stage_num),
        None => None,
    }
}

pub open spec fn values_from_start(mem: MemoryImage, address: u64, offsets: FieldOffsets, stage_num: i32) -> Option<BattleValues> {
    match read_u8(mem, at(address, offsets.start_flg as u64)) {
        Some(start_flg) => values_from_finish(mem, address, offsets, stage_num, start_flg),
        None => None,
    }
}

pub open spec fn values_from_finish(mem: MemoryImage, address: u64, offsets: FieldOffsets, stage_num: i32, start_flg: u8) -> Option<BattleValues> {
    match read_u8(mem, at(address, offsets.finish_flg as u64)) {
        Some(finish_flg) => checked_values(stage_num, start_flg, finish_flg),
        None => None,
    }
}

/// The reading of the manager at `address` with the given values.
pub open spec fn reading_of(address: u64, v: Option<BattleValues>) -> Option<BattleReading> {
    match v {
        Some(v) => Some(
            BattleReading {
                address,
                stage_num: v.stage_num,
                start_flg: v.start_flg,
                finish_flg: v.finish_flg,
            },
        ),
        None => None,
    }
}

pub fn reading_from(address: u64, v: Option<BattleValues>) -> (r: Option<BattleReading>)
    ensures
        r == reading_of(address, v),
{
    match v {
        Some(v) => Some(
            BattleReading {
                address,
                stage_num: v.stage_num,
                start_flg: v.start_flg,
                finish_flg: v.finish_flg,
            },
        ),
        None => None,
    }
}

/// The first of two search results that is found.
pub open spec fn first_found<T>(a: Option<T>, b: Option<T>) -> Option<T> {
    match a {
        Some(x) => Some(x),
        None => b,
    }
}

} // verus!
