use screensaver_battle_autosplitter::layout::PointerSize;
use screensaver_battle_autosplitter::memory::{BattleReading, FieldOffsets, ReadRequest, ReadResponse};
use screensaver_battle_autosplitter::probe::AliveProbe;
use screensaver_battle_autosplitter::resolver::BattleResolver;
use std::collections::HashMap;

/// A frozen image of the game's memory.
#[derive(Default, Clone)]
struct Image {
    pointers: HashMap<u64, u64>,
    ints: HashMap<u64, i32>,
    bytes: HashMap<u64, u8>,
    strings: HashMap<u64, Vec<u8>>,
}

impl Image {
    fn ptr(&mut self, at: u64, value: u64) {
        self.pointers.insert(at, value);
    }

    fn answer(&self, q: ReadRequest) -> ReadResponse {
        match q {
            ReadRequest::Pointer { address, .. } => match self.pointers.get(&address) {
                Some(p) => ReadResponse::Pointer(*p),
                None => ReadResponse::Failed,
            },
            ReadRequest::I32 { address } => match self.ints.get(&address) {
                Some(v) => ReadResponse::I32(*v),
                None => ReadResponse::Failed,
            },
            ReadRequest::U8 { address } => match self.bytes.get(&address) {
                Some(v) => ReadResponse::U8(*v),
                None => ReadResponse::Failed,
            },
            ReadRequest::Bytes { address, len } => match self.strings.get(&address) {
                Some(v) if v.len() >= len => ReadResponse::Bytes(v[..len].to_vec()),
                _ => ReadResponse::Failed,
            },
        }
    }
}

const OFFSETS: FieldOffsets = FieldOffsets { stage_num: 0x20, start_flg: 0x24, finish_flg: 0x25 };
const SCENE: u64 = 0x1000;

fn name(s: &str) -> Vec<u8> {
    let mut v = s.as_bytes().to_vec();
    v.push(0);
    while v.len() < 20 {
        v.push(0x41);
    }
    v
}

/// Writes a live manager at `managed` reachable through component `native`
/// of `game_object`, whose scripting handle is at `handle`.
fn add_component(img: &mut Image, game_object: u64, native: u64, handle: u64, managed: u64) {
    img.ptr(native + 0x20, game_object);
    img.ptr(native + 0x18, handle);
    img.ptr(handle, managed);
    img.ptr(managed + 0x10, native);
}

fn add_values(img: &mut Image, managed: u64, stage: i32, start: u8, finish: u8) {
    img.ints.insert(managed + 0x20, stage);
    img.bytes.insert(managed + 0x24, start);
    img.bytes.insert(managed + 0x25, finish);
}

/// Root list node at `node` whose GameObject `go` is named `label`.
fn add_node(img: &mut Image, node: u64, go: u64, label: &str) {
    let transform = node + 0x100_0000;
    let name_ptr = go + 0x10_0000;
    img.ptr(node + 0x10, transform);
    img.ptr(transform + 0x20, go);
    img.ptr(go + 0x50, name_ptr);
    img.strings.insert(name_ptr, name(label));
}

/// A scene whose first root list holds a camera, then the manager; the
/// manager's first component is a decoy whose managed object points elsewhere.
fn standard_image() -> Image {
    let mut img = Image::default();
    img.ptr(SCENE + 0xE8, 0x2000);
    add_node(&mut img, 0x2000, 0x4000, "Main Camera");
    img.ptr(0x2000, 0x2100);
    add_node(&mut img, 0x2100, 0x4100, "BattleManager");
    img.ptr(0x2100, 0x2000);
    img.ptr(0x4100 + 0x20, 0x6000);
    // slot 0: a component whose managed object does not lead back to it
    img.ptr(0x6000 + 0x08, 0x7000);
    add_component(&mut img, 0x4100, 0x7000, 0x8000, 0x9000);
    img.ptr(0x9000 + 0x10, 0x7777);
    // slot 1: the manager
    img.ptr(0x6000 + 0x18, 0x7100);
    add_component(&mut img, 0x4100, 0x7100, 0x8100, 0x9100);
    add_values(&mut img, 0x9100, 0, 1, 0);
    img
}

fn resolve(img: &Image, scene: Option<u64>, preferred: Option<u64>) -> (Option<BattleReading>, usize) {
    let mut r = BattleResolver::new(scene, preferred, OFFSETS, PointerSize::Bit64);
    let mut reads = 0;
    while let Some(q) = r.next_request() {
        let a = img.answer(q);
        r.feed(&a);
        reads += 1;
        assert!(reads <= 76804);
    }
    (r.finished().unwrap(), reads)
}

fn reading(address: u64, stage_num: i32, start_flg: u8, finish_flg: u8) -> BattleReading {
    BattleReading { address, stage_num, start_flg, finish_flg }
}

#[test]
fn finds_manager_in_hierarchy() {
    let img = standard_image();
    let (found, _) = resolve(&img, Some(SCENE), None);
    assert_eq!(found, Some(reading(0x9100, 0, 1, 0)));
}

#[test]
fn first_request_reads_the_scene_root() {
    let r = BattleResolver::new(Some(SCENE), None, OFFSETS, PointerSize::Bit64);
    assert_eq!(r.next_request(), Some(ReadRequest::Pointer { address: SCENE + 0xE8, size: PointerSize::Bit64 }));
    assert_eq!(r.finished(), None);
}

#[test]
fn name_must_match_exactly() {
    let mut img = standard_image();
    img.strings.insert(0x4100 + 0x10_0000, name("BattleManagers"));
    let (found, _) = resolve(&img, Some(SCENE), None);
    assert_eq!(found, None);
}

#[test]
fn component_owned_by_another_object_is_skipped() {
    let mut img = standard_image();
    img.ptr(0x7100 + 0x20, 0x4000);
    let (found, _) = resolve(&img, Some(SCENE), None);
    assert_eq!(found, None);
}

#[test]
fn destroyed_manager_is_rejected() {
    let mut img = standard_image();
    // The manager's native pointer is null: it is destroyed, and it no longer
    // leads back to its component either.
    img.ptr(0x9100 + 0x10, 0);
    let (found, _) = resolve(&img, Some(SCENE), None);
    assert_eq!(found, None);
    // read as the previous tick's manager, it is refused as well
    let (found, reads) = resolve(&img, None, Some(0x9100));
    assert_eq!(found, None);
    assert_eq!(reads, 1);
}

#[test]
fn implausible_values_are_rejected() {
    for (stage, start, finish) in [(21, 0, 0), (-1, 0, 0), (3, 2, 0), (3, 0, 2)] {
        let mut img = standard_image();
        add_values(&mut img, 0x9100, stage, start, finish);
        let (found, _) = resolve(&img, Some(SCENE), None);
        assert_eq!(found, None, "values {:?}", (stage, start, finish));
    }
    let mut img = standard_image();
    add_values(&mut img, 0x9100, 20, 0, 1);
    let (found, _) = resolve(&img, Some(SCENE), None);
    assert_eq!(found, Some(reading(0x9100, 20, 0, 1)));
}

#[test]
fn later_component_slot_is_found() {
    let mut img = standard_image();
    img.pointers.remove(&(0x6000 + 0x18));
    img.ptr(0x6000 + 0x08 + 15 * 0x10, 0x7100);
    let (found, _) = resolve(&img, Some(SCENE), None);
    assert_eq!(found, Some(reading(0x9100, 0, 1, 0)));
}

#[test]
fn slot_past_sixteenth_is_not_examined() {
    let mut img = standard_image();
    img.pointers.remove(&(0x6000 + 0x18));
    img.ptr(0x6000 + 0x08 + 16 * 0x10, 0x7100);
    let (found, _) = resolve(&img, Some(SCENE), None);
    assert_eq!(found, None);
}

#[test]
fn cyclic_list_ends() {
    let mut img = standard_image();
    // the manager node links back to the camera node, and the camera node
    // no longer leads to the manager
    img.strings.insert(0x4100 + 0x10_0000, name("Light"));
    let (found, reads) = resolve(&img, Some(SCENE), None);
    assert_eq!(found, None);
    assert!(reads < 200);
}

#[test]
fn self_linked_node_ends_the_walk() {
    let mut img = Image::default();
    img.ptr(SCENE + 0xE8, 0x2000);
    add_node(&mut img, 0x2000, 0x4000, "Main Camera");
    img.ptr(0x2000, 0x2000);
    let (found, _) = resolve(&img, Some(SCENE), None);
    assert_eq!(found, None);
}

#[test]
fn long_list_is_cut_after_128_nodes() {
    let mut img = Image::default();
    img.ptr(SCENE + 0xE8, 0x10_0000);
    for i in 0..200u64 {
        let node = 0x10_0000 + i * 0x100;
        img.ptr(node, node + 0x100);
    }
    // a manager at node 130 is beyond reach
    let node = 0x10_0000 + 130 * 0x100;
    add_node(&mut img, node, 0x4100, "BattleManager");
    img.ptr(0x4100 + 0x20, 0x6000);
    img.ptr(0x6000 + 0x08, 0x7100);
    add_component(&mut img, 0x4100, 0x7100, 0x8100, 0x9100);
    add_values(&mut img, 0x9100, 0, 1, 0);
    let (found, _) = resolve(&img, Some(SCENE), None);
    assert_eq!(found, None);
    // the same manager at node 127 is found
    let mut img2 = img.clone();
    let near = 0x10_0000 + 127 * 0x100;
    add_node(&mut img2, near, 0x4100, "BattleManager");
    let (found, _) = resolve(&img2, Some(SCENE), None);
    assert_eq!(found, Some(reading(0x9100, 0, 1, 0)));
}

#[test]
fn second_root_list_is_tried() {
    let mut img = standard_image();
    img.pointers.remove(&(SCENE + 0xE8));
    img.ptr(SCENE + 0xF0, 0x2000);
    let (found, _) = resolve(&img, Some(SCENE), None);
    assert_eq!(found, Some(reading(0x9100, 0, 1, 0)));
}

#[test]
fn link_at_eight_is_tried() {
    let mut img = standard_image();
    img.pointers.remove(&0x2000);
    img.ptr(0x2000 + 0x08, 0x2100);
    let (found, _) = resolve(&img, Some(SCENE), None);
    assert_eq!(found, Some(reading(0x9100, 0, 1, 0)));
}

#[test]
fn previous_manager_is_the_fallback() {
    let mut img = Image::default();
    img.ptr(0x9100 + 0x10, 0x7100);
    add_values(&mut img, 0x9100, 4, 1, 1);
    let (found, reads) = resolve(&img, None, Some(0x9100));
    assert_eq!(found, Some(reading(0x9100, 4, 1, 1)));
    assert_eq!(reads, 4);
}

#[test]
fn no_fallback_when_the_scene_was_had() {
    let mut img = Image::default();
    img.ptr(0x9100 + 0x10, 0x7100);
    add_values(&mut img, 0x9100, 4, 1, 1);
    // the scene was had but its hierarchy holds no manager
    let (found, _) = resolve(&img, Some(SCENE), Some(0x9100));
    assert_eq!(found, None);
    // the same with a hierarchy whose manager object is missing its component
    let mut img = standard_image();
    img.pointers.remove(&(0x6000 + 0x18));
    img.ptr(0xA000 + 0x10, 0x1);
    add_values(&mut img, 0xA000, 9, 0, 0);
    let (found, _) = resolve(&img, Some(SCENE), Some(0xA000));
    assert_eq!(found, None);
}

#[test]
fn unreached_words_do_not_matter() {
    let img = standard_image();
    let mut other = standard_image();
    // words the search never reaches: a root list it does not get to and an
    // unrelated object
    other.ptr(SCENE + 0xF0, 0x2000);
    other.ptr(0xDEAD0, 0xBEEF);
    add_values(&mut other, 0xDEAD0, 7, 0, 0);
    assert_eq!(resolve(&img, Some(SCENE), None), resolve(&other, Some(SCENE), None));
}

#[test]
fn reads_stay_within_bound() {
    // an image where every read fails and every list is cut short
    let img = Image::default();
    let (found, reads) = resolve(&img, Some(SCENE), Some(0x9100));
    assert_eq!(found, None);
    assert_eq!(reads, 4);
}

#[test]
fn unreadable_native_pointer_does_not_reject_fallback() {
    let mut img = Image::default();
    add_values(&mut img, 0x9100, 4, 0, 0);
    let (found, _) = resolve(&img, None, Some(0x9100));
    assert_eq!(found, Some(reading(0x9100, 4, 0, 0)));
}

#[test]
fn hierarchy_wins_over_fallback() {
    let mut img = standard_image();
    img.ptr(0xA000 + 0x10, 0x1);
    add_values(&mut img, 0xA000, 9, 0, 0);
    let (found, _) = resolve(&img, Some(SCENE), Some(0xA000));
    assert_eq!(found, Some(reading(0x9100, 0, 1, 0)));
}

#[test]
fn nothing_without_scene_or_previous_manager() {
    let r = BattleResolver::new(None, None, OFFSETS, PointerSize::Bit64);
    assert_eq!(r.next_request(), None);
    assert_eq!(r.finished(), Some(None));
}

#[test]
fn wrong_kind_of_answer_counts_as_failure() {
    let mut r = BattleResolver::new(None, Some(0x9100), OFFSETS, PointerSize::Bit64);
    r.feed(&ReadResponse::Pointer(0x7100));
    r.feed(&ReadResponse::U8(3));
    assert_eq!(r.finished(), Some(None));
}

fn probe(img: &Image, owner: u64, offset: u32) -> Option<bool> {
    let mut p = AliveProbe::new(owner, offset, PointerSize::Bit64);
    let mut reads = 0;
    while let Some(q) = p.next_request() {
        p.feed(&img.answer(q));
        reads += 1;
    }
    assert!(reads <= 2);
    p.finished().unwrap()
}

#[test]
fn video_alive_is_victory() {
    let mut img = Image::default();
    img.ptr(0x9100 + 0x40, 0xB000);
    img.ptr(0xB000 + 0x10, 0xC000);
    assert_eq!(probe(&img, 0x9100, 0x40), Some(true));
}

#[test]
fn video_destroyed_or_null_is_game_over() {
    let mut img = Image::default();
    img.ptr(0x9100 + 0x40, 0xB000);
    img.ptr(0xB000 + 0x10, 0);
    assert_eq!(probe(&img, 0x9100, 0x40), Some(false));
    let mut img = Image::default();
    img.ptr(0x9100 + 0x40, 0);
    assert_eq!(probe(&img, 0x9100, 0x40), Some(false));
}

#[test]
fn video_unreadable_is_unknown() {
    let img = Image::default();
    assert_eq!(probe(&img, 0x9100, 0x40), None);
    let mut img = Image::default();
    img.ptr(0x9100 + 0x40, 0xB000);
    assert_eq!(probe(&img, 0x9100, 0x40), None);
}

#[test]
fn probe_reads_the_field_then_the_native_pointer() {
    let mut p = AliveProbe::new(0x9100, 0x40, PointerSize::Bit64);
    assert_eq!(p.next_request(), Some(ReadRequest::Pointer { address: 0x9140, size: PointerSize::Bit64 }));
    p.feed(&ReadResponse::Pointer(0xB000));
    assert_eq!(p.next_request(), Some(ReadRequest::Pointer { address: 0xB010, size: PointerSize::Bit64 }));
}
