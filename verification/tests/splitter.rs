use screensaver_battle_autosplitter::memory::BattleReading;
use screensaver_battle_autosplitter::splitter::{
    Splitter, SplitterRequest, TickEvent, TickStage, TimerCommand,
};

const START: TimerCommand = TimerCommand::ResetAndStart { game_time_ms: 1000 };

fn battle(address: u64, stage_num: i32, finish_flg: u8) -> BattleReading {
    BattleReading { address, stage_num, start_flg: 1, finish_flg }
}

/// Plays one tick: the scene index, the manager, and the answers to the
/// result checks that the splitter asks for. Returns the timer commands.
fn tick(s: &mut Splitter, scene: Option<i32>, found: Option<BattleReading>, videos: &[Option<bool>]) -> Vec<TimerCommand> {
    let mut commands = Vec::new();
    assert_eq!(s.request(), SplitterRequest::SceneIndex);
    commands.push(s.step(TickEvent::SceneIndex(scene)));
    assert!(matches!(s.request(), SplitterRequest::ResolveBattle { .. }));
    commands.push(s.step(TickEvent::Battle(found)));
    let mut videos = videos.iter();
    while let SplitterRequest::CheckVideo { .. } = s.request() {
        let v = *videos.next().expect("a result check that the test did not expect");
        commands.push(s.step(TickEvent::VideoAlive(v)));
    }
    assert!(videos.next().is_none(), "a result check that did not happen");
    assert_eq!(s.request(), SplitterRequest::NextTick);
    commands.push(s.step(TickEvent::NextTick));
    commands.retain(|c| *c != TimerCommand::Nothing);
    commands
}

#[test]
fn first_scene_does_not_start_a_run() {
    let mut s = Splitter::new();
    assert_eq!(tick(&mut s, Some(2), Some(battle(0x100, 0, 0)), &[]), vec![]);
    assert_eq!(s.state().last_scene_index, Some(2));
}

#[test]
fn entering_stage_one_resets_and_starts_with_one_second() {
    let mut s = Splitter::new();
    tick(&mut s, Some(1), None, &[]);
    assert_eq!(tick(&mut s, Some(2), Some(battle(0x100, 0, 0)), &[]), vec![START]);
    // later ticks in the same stage do nothing
    assert_eq!(tick(&mut s, Some(2), Some(battle(0x100, 0, 0)), &[]), vec![]);
}

#[test]
fn start_waits_for_the_manager() {
    let mut s = Splitter::new();
    tick(&mut s, Some(1), None, &[]);
    assert_eq!(tick(&mut s, Some(2), None, &[]), vec![]);
    assert!(s.state().scene_transition_pending);
    assert_eq!(tick(&mut s, Some(2), None, &[]), vec![]);
    assert_eq!(tick(&mut s, Some(2), Some(battle(0x100, 0, 0)), &[]), vec![START]);
    assert!(!s.state().scene_transition_pending);
}

#[test]
fn entering_another_stage_does_not_start() {
    let mut s = Splitter::new();
    tick(&mut s, Some(1), None, &[]);
    assert_eq!(tick(&mut s, Some(3), Some(battle(0x100, 2, 0)), &[]), vec![]);
    assert!(!s.state().scene_transition_pending);
}

#[test]
fn retry_in_stage_one_does_not_reset() {
    let mut s = Splitter::new();
    tick(&mut s, Some(1), None, &[]);
    assert_eq!(tick(&mut s, Some(2), Some(battle(0x100, 0, 0)), &[]), vec![START]);
    // the retry creates a new manager in the same scene
    assert_eq!(tick(&mut s, Some(2), Some(battle(0x200, 0, 0)), &[]), vec![]);
    assert_eq!(s.state().current_battle, Some(0x200));
}

#[test]
fn returning_to_stage_select_and_stage_one_restarts() {
    let mut s = Splitter::new();
    tick(&mut s, Some(1), None, &[]);
    assert_eq!(tick(&mut s, Some(2), Some(battle(0x100, 0, 0)), &[]), vec![START]);
    assert_eq!(tick(&mut s, Some(1), None, &[]), vec![]);
    assert_eq!(s.state().current_battle, None);
    assert_eq!(tick(&mut s, Some(2), Some(battle(0x300, 0, 0)), &[]), vec![START]);
}

#[test]
fn negative_or_unreadable_scene_index_is_ignored() {
    let mut s = Splitter::new();
    tick(&mut s, Some(1), None, &[]);
    assert_eq!(tick(&mut s, Some(-1), Some(battle(0x100, 0, 0)), &[]), vec![]);
    assert_eq!(tick(&mut s, None, Some(battle(0x100, 0, 0)), &[]), vec![]);
    assert_eq!(s.state().last_scene_index, Some(1));
}

#[test]
fn victory_splits() {
    let mut s = Splitter::new();
    tick(&mut s, Some(1), None, &[]);
    tick(&mut s, Some(2), Some(battle(0x100, 0, 0)), &[]);
    assert_eq!(tick(&mut s, Some(2), Some(battle(0x100, 0, 1)), &[Some(true)]), vec![TimerCommand::Split]);
    // the flag staying at 1 is no new finish
    assert_eq!(tick(&mut s, Some(2), Some(battle(0x100, 0, 1)), &[]), vec![]);
}

#[test]
fn game_over_does_not_split() {
    let mut s = Splitter::new();
    tick(&mut s, Some(1), None, &[]);
    tick(&mut s, Some(2), Some(battle(0x100, 0, 0)), &[]);
    assert_eq!(tick(&mut s, Some(2), Some(battle(0x100, 0, 1)), &[Some(false)]), vec![]);
}

#[test]
fn finish_seen_on_a_new_manager_is_not_an_edge() {
    let mut s = Splitter::new();
    tick(&mut s, Some(1), None, &[]);
    tick(&mut s, Some(2), Some(battle(0x100, 0, 0)), &[]);
    assert_eq!(tick(&mut s, Some(2), Some(battle(0x200, 0, 1)), &[]), vec![]);
}

#[test]
fn failed_result_read_is_retried_until_victory() {
    let mut s = Splitter::new();
    tick(&mut s, Some(1), None, &[]);
    tick(&mut s, Some(2), Some(battle(0x100, 0, 0)), &[]);
    // the result is unreadable on the finishing tick and its first retry
    assert_eq!(tick(&mut s, Some(2), Some(battle(0x100, 0, 1)), &[None, None]), vec![]);
    assert_eq!(s.state().pending_finish_video_check, 29);
    assert_eq!(s.state().finish_battle_address, Some(0x100));
    assert_eq!(tick(&mut s, Some(2), Some(battle(0x100, 0, 1)), &[None]), vec![]);
    assert_eq!(tick(&mut s, Some(2), Some(battle(0x100, 0, 1)), &[Some(true)]), vec![TimerCommand::Split]);
    assert_eq!(s.state().pending_finish_video_check, 0);
    assert_eq!(tick(&mut s, Some(2), Some(battle(0x100, 0, 1)), &[]), vec![]);
}

#[test]
fn retries_give_up_after_thirty() {
    let mut s = Splitter::new();
    tick(&mut s, Some(1), None, &[]);
    tick(&mut s, Some(2), Some(battle(0x100, 0, 0)), &[]);
    tick(&mut s, Some(2), Some(battle(0x100, 0, 1)), &[None, None]);
    for left in (0..29u8).rev() {
        assert_eq!(tick(&mut s, Some(2), None, &[None]), vec![]);
        assert_eq!(s.state().pending_finish_video_check, left);
    }
    assert_eq!(s.state().finish_battle_address, None);
    assert_eq!(tick(&mut s, Some(2), None, &[]), vec![]);
}

#[test]
fn retried_game_over_ends_retries() {
    let mut s = Splitter::new();
    tick(&mut s, Some(1), None, &[]);
    tick(&mut s, Some(2), Some(battle(0x100, 0, 0)), &[]);
    tick(&mut s, Some(2), Some(battle(0x100, 0, 1)), &[None, None]);
    assert_eq!(tick(&mut s, Some(2), None, &[Some(false)]), vec![]);
    assert_eq!(s.state().pending_finish_video_check, 0);
    assert_eq!(tick(&mut s, Some(2), None, &[]), vec![]);
}

#[test]
fn scene_change_drops_pending_retries() {
    let mut s = Splitter::new();
    tick(&mut s, Some(1), None, &[]);
    tick(&mut s, Some(2), Some(battle(0x100, 0, 0)), &[]);
    tick(&mut s, Some(2), Some(battle(0x100, 0, 1)), &[None, None]);
    assert_eq!(tick(&mut s, Some(3), None, &[]), vec![]);
    assert_eq!(s.state().pending_finish_video_check, 0);
    assert_eq!(s.state().finish_battle_address, None);
}

#[test]
fn manager_request_offers_the_previous_manager() {
    let mut s = Splitter::new();
    tick(&mut s, Some(1), None, &[]);
    tick(&mut s, Some(2), Some(battle(0x100, 0, 0)), &[]);
    s.step(TickEvent::SceneIndex(Some(2)));
    assert_eq!(s.request(), SplitterRequest::ResolveBattle { preferred: Some(0x100) });
}

#[test]
fn answers_out_of_turn_change_nothing() {
    let mut s = Splitter::new();
    let before = s.state();
    assert_eq!(s.step(TickEvent::Battle(Some(battle(0x100, 0, 1)))), TimerCommand::Nothing);
    assert_eq!(s.step(TickEvent::VideoAlive(Some(true))), TimerCommand::Nothing);
    assert_eq!(s.step(TickEvent::NextTick), TimerCommand::Nothing);
    assert_eq!(s.state(), before);
    assert_eq!(s.state().stage, TickStage::SceneIndex);
}

#[test]
fn each_stage_splits_in_turn() {
    let mut s = Splitter::new();
    tick(&mut s, Some(1), None, &[]);
    // the first reading after the change of scene is on stage 1 with the flag at 0
    assert_eq!(tick(&mut s, Some(2), Some(battle(0x100, 0, 0)), &[]), vec![START]);
    assert_eq!(tick(&mut s, Some(2), Some(battle(0x100, 0, 1)), &[Some(true)]), vec![TimerCommand::Split]);
    assert_eq!(tick(&mut s, Some(4), Some(battle(0x400, 1, 0)), &[]), vec![]);
    assert_eq!(tick(&mut s, Some(4), Some(battle(0x400, 1, 1)), &[Some(true)]), vec![TimerCommand::Split]);
}
