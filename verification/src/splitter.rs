//! The per-tick decisions of the splitter.
//!
//! Each tick runs through fixed stages, each of which asks the host for one
//! thing and is handed the answer as a [`TickEvent`]:
//!
//! 1. the index of the current scene: a change of scene arms the start of a
//!    run and forgets the manager of the previous scene;
//! 2. the live `BattleManager` (see [`crate::resolver`]): a manager that
//!    appears after a change of scene on stage 1 resets and starts the run,
//!    with the game time set to one second; a rising `finishFlg` asks for the
//!    result of the stage;
//! 3. the result of the stage, from the manager's `video` field (see
//!    [`crate::probe`]): alive is a victory and splits, dead is a game over and
//!    does not; a failed read is retried on the following ticks, 30 times at
//!    most;
//! 4. the wait for the next tick.
use crate::layout::{FINISH_VIDEO_RETRY_TICKS, START_TIME_CORRECTION_MS};
use crate::memory::BattleReading;
use vstd::prelude::*;

verus! {

/// A command for the LiveSplit timer.
#[derive(Clone, Copy, Debug, PartialEq, Eq, Structural)]
pub enum TimerCommand {
    Nothing,
    /// Reset the run, start a new one, and set its game time.
    ResetAndStart { game_time_ms: i64 },
    Split,
}

/// What the splitter needs from the host next.
#[derive(Clone, Copy, Debug, PartialEq, Eq, Structural)]
pub enum SplitterRequest {
    /// The index of the current scene.
    SceneIndex,
    /// The live `BattleManager`, with the given manager of the previous tick
    /// as fallback for a tick where the current scene cannot be had.
    ResolveBattle { preferred: Option<u64> },
    /// Whether the `video` object of the manager at `battle` is alive.
    CheckVideo { battle: u64 },
    /// Nothing until the next tick.
    NextTick,
}

/// An answer from the host.
#[derive(Clone, Copy, Debug, PartialEq, Eq, Structural)]
pub enum TickEvent {
    /// The current scene index, if it could be read.
    SceneIndex(Option<i32>),
    /// The live manager, if one was found.
    Battle(Option<BattleReading>),
    /// Whether the `video` object is alive, if it could be read.
    VideoAlive(Option<bool>),
    /// A new tick has begun.
    NextTick,
}

/// The stage of the current tick.
#[derive(Clone, Copy, Debug, PartialEq, Eq, Structural)]
pub enum TickStage {
    SceneIndex,
    Battle,
    /// The stage ended on this tick; its result is asked for.
    FinishVideo { battle: u64 },
    /// The result of an earlier finish could not be read; it is asked for again.
    RetryVideo { battle: u64 },
    Wait,
}

/// Everything the splitter remembers between answers.
#[derive(Clone, Copy, Debug, PartialEq, Eq, Structural)]
pub struct SplitterState {
    /// The last non-negative scene index seen.
    pub last_scene_index: Option<i32>,
    /// The scene changed and no manager has been seen since.
    pub scene_transition_pending: bool,
    /// The manager in use.
    pub current_battle: Option<u64>,
    pub last_stage_num: Option<i32>,
    pub last_start_flg: Option<u8>,
    pub last_finish_flg: Option<u8>,
    /// Ticks left during which the result of a finish is read again.
    pub pending_finish_video_check: u8,
    /// The manager whose result is read again.
    pub finish_battle_address: Option<u64>,
    pub stage: TickStage,
}

/// The state once the game process is attached.
pub open spec fn initial_state() -> SplitterState {
    SplitterState {
        last_scene_index: None,
        scene_transition_pending: false,
        current_battle: None,
        last_stage_num: None,
        last_start_flg: None,
        last_finish_flg: None,
        pending_finish_video_check: 0,
        finish_battle_address: None,
        stage: TickStage::SceneIndex,
    }
}

/// The invariant: a retry is pending exactly while a manager is remembered
/// for it, for 30 ticks at most, and each stage refers to the manager it is
/// about.
pub open spec fn wf(s: SplitterState) -> bool {
    &&& s.pending_finish_video_check <= FINISH_VIDEO_RETRY_TICKS
    &&& (s.pending_finish_video_check > 0) == (s.finish_battle_address is Some)
    &&& match s.stage {
        TickStage::FinishVideo { battle } => s.current_battle == Some(battle),
        TickStage::RetryVideo { battle } => s.finish_battle_address == Some(battle),
        _ => true,
    }
}

/// What the splitter asks for in state `s`.
pub open spec fn request_of(s: SplitterState) -> SplitterRequest {
    match s.stage {
        TickStage::SceneIndex => SplitterRequest::SceneIndex,
        TickStage::Battle => SplitterRequest::ResolveBattle { preferred: s.current_battle },
        TickStage::FinishVideo { battle } => SplitterRequest::CheckVideo { battle },
        TickStage::RetryVideo { battle } => SplitterRequest::CheckVideo { battle },
        TickStage::Wait => SplitterRequest::NextTick,
    }
}

/// After a change of scene: the start of a run is armed and everything known
/// of the previous scene's manager is dropped.
pub open spec fn scene_changed(s: SplitterState, index: i32) -> SplitterState {
    SplitterState {
        last_scene_index: Some(index),
        scene_transition_pending: true,
        current_battle: None,
        last_stage_num: None,
        last_start_flg: None,
        last_finish_flg: None,
        pending_finish_video_check: 0,
        finish_battle_address: None,
        ..s
    }
}

/// The answer to the scene index request.
pub open spec fn observe_scene_index(s: SplitterState, index: Option<i32>) -> SplitterState {
    let s1 = match index {
        Some(i) => if i >= 0 {
            match s.last_scene_index {
                None => SplitterState { last_scene_index: Some(i), ..s },
                Some(previous) => if previous != i {
                    scene_changed(s, i)
                } else {
                    s
                },
            }
        } else {
            s
        },
        None => s,
    };
    SplitterState { stage: TickStage::Battle, ..s1 }
}

/// After a new manager instance appears: edge detection starts over.
pub open spec fn manager_changed(s: SplitterState, address: u64) -> SplitterState {
    SplitterState {
        current_battle: Some(address),
        last_stage_num: None,
        last_start_flg: None,
        last_finish_flg: None,
        pending_finish_video_check: 0,
        finish_battle_address: None,
        ..s
    }
}

/// The stage that follows the manager and the stage result: a pending retry,
/// else the wait for the next tick.
pub open spec fn after_battle(s: SplitterState) -> SplitterState {
    if s.pending_finish_video_check > 0 {
        match s.finish_battle_address {
            Some(battle) => SplitterState { stage: TickStage::RetryVideo { battle }, ..s },
            None => SplitterState { pending_finish_video_check: 0, stage: TickStage::Wait, ..s },
        }
    } else {
        SplitterState { stage: TickStage::Wait, ..s }
    }
}

/// Whether a reading of the manager in use shows `finishFlg` going from 0 to 1.
pub open spec fn finish_edge(s: SplitterState, r: BattleReading) -> bool {
    s.current_battle == Some(r.address) && s.last_finish_flg == Some(0u8) && r.finish_flg == 1
}

/// The command on finding a manager: a reset and start with the game time
/// correction when the scene changed and the manager is on stage 1.
pub open spec fn start_command(s: SplitterState, r: BattleReading) -> TimerCommand {
    if s.scene_transition_pending && r.stage_num == 0 {
        TimerCommand::ResetAndStart { game_time_ms: START_TIME_CORRECTION_MS }
    } else {
        TimerCommand::Nothing
    }
}

/// The answer to the manager request.
pub open spec fn observe_battle(s: SplitterState, reading: Option<BattleReading>) -> (SplitterState, TimerCommand) {
    match reading {
        None => (after_battle(s), TimerCommand::Nothing),
        Some(r) => {
            let s1 = if s.current_battle != Some(r.address) {
                manager_changed(s, r.address)
            } else {
                s
            };
            let s2 = SplitterState {
                last_stage_num: Some(r.stage_num),
                last_start_flg: Some(r.start_flg),
                scene_transition_pending: false,
                last_finish_flg: Some(r.finish_flg),
                ..s1
            };
            let command = start_command(s, r);
            if finish_edge(s, r) {
                (SplitterState { stage: TickStage::FinishVideo { battle: r.address }, ..s2 }, command)
            } else {
                (after_battle(s2), command)
            }
        },
    }
}

/// The answer to the result request on the tick the stage ended.
pub open spec fn observe_finish_video(s: SplitterState, battle: u64, alive: Option<bool>) -> (SplitterState, TimerCommand) {
    match alive {
        Some(true) => (after_battle(s), TimerCommand::Split),
        Some(false) => (after_battle(s), TimerCommand::Nothing),
        None => (
            after_battle(
                SplitterState {
                    pending_finish_video_check: FINISH_VIDEO_RETRY_TICKS,
                    finish_battle_address: Some(battle),
                    ..s
                },
            ),
            TimerCommand::Nothing,
        ),
    }
}

/// The answer to a retried result request.
pub open spec fn observe_retry_video(s: SplitterState, alive: Option<bool>) -> (SplitterState, TimerCommand) {
    let done = SplitterState {
        pending_finish_video_check: 0,
        finish_battle_address: None,
        stage: TickStage::Wait,
        ..s
    };
    match alive {
        Some(true) => (done, TimerCommand::Split),
        Some(false) => (done, TimerCommand::Nothing),
        None => {
            let left = (s.pending_finish_video_check - 1) as u8;
            (
                SplitterState {
                    pending_finish_video_check: left,
                    finish_battle_address: if left == 0 {
                        None
                    } else {
                        s.finish_battle_address
                    },
                    stage: TickStage::Wait,
                    ..s
                },
                TimerCommand::Nothing,
            )
        },
    }
}

/// The next state and timer command after event `e` in state `s`. An event
/// that does not answer the current request changes nothing.
pub open spec fn step_of(s: SplitterState, e: TickEvent) -> (SplitterState, TimerCommand) {
    match (s.stage, e) {
        (TickStage::SceneIndex, TickEvent::SceneIndex(index)) => (
            observe_scene_index(s, index),
            TimerCommand::Nothing,
        ),
        (TickStage::Battle, TickEvent::Battle(reading)) => observe_battle(s, reading),
        (TickStage::FinishVideo { battle }, TickEvent::VideoAlive(alive)) => observe_finish_video(
            s,
            battle,
            alive,
        ),
        (TickStage::RetryVideo { .. }, TickEvent::VideoAlive(alive)) => observe_retry_video(s, alive),
        (TickStage::Wait, TickEvent::NextTick) => (
            SplitterState { stage: TickStage::SceneIndex, ..s },
            TimerCommand::Nothing,
        ),
        _ => (s, TimerCommand::Nothing),
    }
}

/// The splitter of one attachment to the game process.
pub struct Splitter {
    state: SplitterState,
}

impl View for Splitter {
    type V = SplitterState;

    closed spec fn view(&self) -> SplitterState {
        self.state
    }
}

impl Splitter {
    #[verifier::type_invariant]
    closed spec fn inv(self) -> bool {
        wf(self.state)
    }

    /// A splitter that has seen nothing yet.
    pub fn new() -> (s: Self)
        ensures
            s@ == initial_state(),
            wf(s@),
    {
        Splitter {
            state: SplitterState {
                last_scene_index: None,
                scene_transition_pending: false,
                current_battle: None,
                last_stage_num: None,
                last_start_flg: None,
                last_finish_flg: None,
                pending_finish_video_check: 0,
                finish_battle_address: None,
                stage: TickStage::SceneIndex,
            },
        }
    }

    /// Everything the splitter remembers.
    pub fn state(&self) -> (s: SplitterState)
        ensures
            s == self@,
            wf(s),
    {
        proof {
            use_type_invariant(self);
        }
        self.state
    }

    /// What the splitter needs from the host next.
    pub fn request(&self) -> (r: SplitterRequest)
        ensures
            r == request_of(self@),
    {
        match self.state.stage {
            TickStage::SceneIndex => SplitterRequest::SceneIndex,
            TickStage::Battle => SplitterRequest::ResolveBattle { preferred: self.state.current_battle },
            TickStage::FinishVideo { battle } => SplitterRequest::CheckVideo { battle },
            TickStage::RetryVideo { battle } => SplitterRequest::CheckVideo { battle },
            TickStage::Wait => SplitterRequest::NextTick,
        }
    }

    /// Takes an answer from the host and says what the timer must do.
    pub fn step(&mut self, e: TickEvent) -> (c: TimerCommand)
        ensures
            (final(self)@, c) == step_of(old(self)@, e),
            wf(final(self)@),
    {
        proof {
            use_type_invariant(&*self);
            lemma_step_keeps_wf(self@, e);
        }
        let s = self.state;
        let (next, command) = match (s.stage, e) {
            (TickStage::SceneIndex, TickEvent::SceneIndex(index)) => (
                scene_index_observed(s, index),
                TimerCommand::Nothing,
            ),
            (TickStage::Battle, TickEvent::Battle(reading)) => battle_observed(s, reading),
            (TickStage::FinishVideo { battle }, TickEvent::VideoAlive(alive)) => finish_video_observed(
                s,
                battle,
                alive,
            ),
            (TickStage::RetryVideo { .. }, TickEvent::VideoAlive(alive)) => retry_video_observed(s, alive),
            (TickStage::Wait, TickEvent::NextTick) => (
                SplitterState { stage: TickStage::SceneIndex, ..s },
                TimerCommand::Nothing,
            ),
            _ => (s, TimerCommand::Nothing),
        };
        self.state = next;
        command
    }
}

fn scene_index_observed(s: SplitterState, index: Option<i32>) -> (r: SplitterState)
    ensures
        r == observe_scene_index(s, index),
{
    let mut n = s;
    if let Some(i) = index {
        // Negative indices appear while the game initializes.
        if i >= 0 {
            match s.last_scene_index {
                None => {
                    n.last_scene_index = Some(i);
                },
                Some(previous) => {
                    if previous != i {
                        n.last_scene_index = Some(i);
                        n.scene_transition_pending = true;
                        n.current_battle = None;
                        n.last_stage_num = None;
                        n.last_start_flg = None;
                        n.last_finish_flg = None;
                        n.pending_finish_video_check = 0;
                        n.finish_battle_address = None;
                    }
                },
            }
        }
    }
    n.stage = TickStage::Battle;
    n
}

fn next_after_battle(s: SplitterState) -> (r: SplitterState)
    ensures
        r == after_battle(s),
{
    let mut n = s;
    if s.pending_finish_video_check > 0 {
        match s.finish_battle_address {
            Some(battle) => {
                n.stage = TickStage::RetryVideo { battle };
            },
            None => {
                n.pending_finish_video_check = 0;
                n.stage = TickStage::Wait;
            },
        }
    } else {
        n.stage = TickStage::Wait;
    }
    n
}

fn battle_observed(s: SplitterState, reading: Option<BattleReading>) -> (r: (SplitterState, TimerCommand))
    ensures
        r == observe_battle(s, reading),
{
    match reading {
        None => (next_after_battle(s), TimerCommand::Nothing),
        Some(r) => {
            let mut n = s;
            let battle_changed = match s.current_battle {
                Some(old) => old != r.address,
                None => true,
            };
            if battle_changed {
                // A new manager instance: edge detection starts over.
                n.current_battle = Some(r.address);
                n.last_stage_num = None;
                n.last_start_flg = None;
                n.last_finish_flg = None;
                n.pending_finish_video_check = 0;
                n.finish_battle_address = None;
            }
            n.last_stage_num = Some(r.stage_num);
            n.last_start_flg = Some(r.start_flg);
            // Stage select to stage 1: reset and start. A retry inside a stage
            // keeps the scene index, so it never gets here.
            let command = if n.scene_transition_pending && r.stage_num == 0 {
                TimerCommand::ResetAndStart { game_time_ms: START_TIME_CORRECTION_MS }
            } else {
                TimerCommand::Nothing
            };
            n.scene_transition_pending = false;
            let edge = match n.last_finish_flg {
                Some(f) => f == 0 && r.finish_flg == 1,
                None => false,
            };
            n.last_finish_flg = Some(r.finish_flg);
            if edge {
                n.stage = TickStage::FinishVideo { battle: r.address };
                (n, command)
            } else {
                (next_after_battle(n), command)
            }
        },
    }
}

fn finish_video_observed(s: SplitterState, battle: u64, alive: Option<bool>) -> (r: (SplitterState, TimerCommand))
    ensures
        r == observe_finish_video(s, battle, alive),
{
    match alive {
        // Victory.
        Some(true) => (next_after_battle(s), TimerCommand::Split),
        // Game over.
        Some(false) => (next_after_battle(s), TimerCommand::Nothing),
        // The read failed on the very tick of the finish: try again.
        None => {
            let mut n = s;
            n.pending_finish_video_check = FINISH_VIDEO_RETRY_TICKS;
            n.finish_battle_address = Some(battle);
            (next_after_battle(n), TimerCommand::Nothing)
        },
    }
}

fn retry_video_observed(s: SplitterState, alive: Option<bool>) -> (r: (SplitterState, TimerCommand))
    requires
        s.pending_finish_video_check > 0,
    ensures
        r == observe_retry_video(s, alive),
{
    let mut n = s;
    n.stage = TickStage::Wait;
    match alive {
        Some(true) => {
            n.pending_finish_video_check = 0;
            n.finish_battle_address = None;
            (n, TimerCommand::Split)
        },
        Some(false) => {
            n.pending_finish_video_check = 0;
            n.finish_battle_address = None;
            (n, TimerCommand::Nothing)
        },
        None => {
            n.pending_finish_video_check = s.pending_finish_video_check - 1;
            if n.pending_finish_video_check == 0 {
                n.finish_battle_address = None;
            }
            (n, TimerCommand::Nothing)
        },
    }
}

/// Every answer keeps the invariant.
pub proof fn lemma_step_keeps_wf(s: SplitterState, e: TickEvent)
    requires
        wf(s),
    ensures
        wf(step_of(s, e).0),
{
}

/// The timer is reset and started exactly when a manager on stage 1 is found
/// after a change of scene, always with a game time of one second; it splits
/// exactly when the result of a finished stage reads as a victory, and never on
/// a game over.
pub proof fn lemma_timer_commands(s: SplitterState, e: TickEvent)
    ensures
        (step_of(s, e).1 is ResetAndStart) == (s.stage == TickStage::Battle && s.scene_transition_pending
            && (e matches TickEvent::Battle(Some(r)) && r.stage_num == 0)),
        step_of(s, e).1 is ResetAndStart ==> step_of(s, e).1 == (TimerCommand::ResetAndStart {
            game_time_ms: 1000,
        }),
        (step_of(s, e).1 == TimerCommand::Split) == ((s.stage is FinishVideo || s.stage is RetryVideo) && e
            == TickEvent::VideoAlive(Some(true))),
        e == TickEvent::VideoAlive(Some(false)) ==> step_of(s, e).1 == TimerCommand::Nothing,
{
}

/// Entering stage 1 from another scene starts a new run: after a scene index
/// that differs from the last one, the first manager found on stage 1 resets
/// and starts the timer. This holds on every return to the stage select too.
pub proof fn lemma_stage_one_entry_starts_run(s: SplitterState, index: i32, r: BattleReading)
    requires
        s.stage == TickStage::SceneIndex,
        s.last_scene_index is Some,
        s.last_scene_index != Some(index),
        index >= 0,
        r.stage_num == 0,
    ensures
        step_of(step_of(s, TickEvent::SceneIndex(Some(index))).0, TickEvent::Battle(Some(r))).1
            == (TimerCommand::ResetAndStart { game_time_ms: 1000 }),
{
}

/// A change of scene keeps the start of a run armed until a manager is found,
/// across any number of ticks.
pub proof fn lemma_armed_start_waits_for_manager(s: SplitterState, e: TickEvent)
    requires
        s.scene_transition_pending,
        !(e matches TickEvent::Battle(Some(_))) || s.stage != TickStage::Battle,
    ensures
        step_of(s, e).0.scene_transition_pending,
{
}

/// A retry inside a stage keeps the scene index, so it never resets the run:
/// a tick whose scene index is unchanged (or unreadable, or negative) issues
/// no reset when none was armed before.
pub proof fn lemma_retry_keeps_run(s: SplitterState, index: Option<i32>, reading: Option<BattleReading>)
    requires
        s.stage == TickStage::SceneIndex,
        !s.scene_transition_pending,
        index is None || index->0 < 0 || s.last_scene_index is None || s.last_scene_index == index,
    ensures
        !step_of(s, TickEvent::SceneIndex(index)).0.scene_transition_pending,
        step_of(step_of(s, TickEvent::SceneIndex(index)).0, TickEvent::Battle(reading)).1 != (
        TimerCommand::ResetAndStart { game_time_ms: 1000 }),
{
}

/// A change of scene drops the manager of the previous scene: the next search
/// has no manager to fall back on.
pub proof fn lemma_scene_change_forgets_manager(s: SplitterState, index: i32)
    requires
        s.stage == TickStage::SceneIndex,
        s.last_scene_index is Some,
        s.last_scene_index != Some(index),
        index >= 0,
    ensures
        request_of(step_of(s, TickEvent::SceneIndex(Some(index))).0) == (SplitterRequest::ResolveBattle {
            preferred: None,
        }),
        step_of(s, TickEvent::SceneIndex(Some(index))).0.pending_finish_video_check == 0,
{
}

/// The result of a stage is asked for exactly on the tick its `finishFlg`
/// rises from 0 to 1 on the same manager instance, and it is asked of that
/// manager; a new instance (such as one created by a retry) starts edge
/// detection over.
pub proof fn lemma_finish_edge(s: SplitterState, r: BattleReading)
    requires
        s.stage == TickStage::Battle,
    ensures
        (step_of(s, TickEvent::Battle(Some(r))).0.stage == TickStage::FinishVideo { battle: r.address })
            == finish_edge(s, r),
        (step_of(s, TickEvent::Battle(Some(r))).0.stage is FinishVideo) == finish_edge(s, r),
        s.current_battle != Some(r.address) ==> !finish_edge(s, r),
        step_of(s, TickEvent::Battle(Some(r))).0.current_battle == Some(r.address),
        step_of(s, TickEvent::Battle(Some(r))).0.last_finish_flg == Some(r.finish_flg),
{
}

/// A failed read of the result on the finishing tick arms 30 retries, the
/// first one on that same tick; each failed retry uses one up, and the retries
/// end when none is left.
pub proof fn lemma_retry_budget(s: SplitterState, battle: u64)
    requires
        wf(s),
    ensures
        s.stage == (TickStage::FinishVideo { battle }) ==> ({
            let t = step_of(s, TickEvent::VideoAlive(None)).0;
            &&& t.pending_finish_video_check == 30
            &&& t.stage == TickStage::RetryVideo { battle }
        }),
        s.stage is RetryVideo ==> ({
            let t = step_of(s, TickEvent::VideoAlive(None)).0;
            &&& t.pending_finish_video_check == s.pending_finish_video_check - 1
            &&& t.stage == TickStage::Wait
            &&& (t.pending_finish_video_check == 0) == (t.finish_battle_address is None)
        }),
{
}

/// Whether `e` answers the scene index request of `s` with a change of scene:
/// a readable, non-negative index that differs from a known last index.
pub open spec fn is_scene_change(s: SplitterState, e: TickEvent) -> bool {
    &&& s.stage == TickStage::SceneIndex
    &&& e matches TickEvent::SceneIndex(Some(i))
    &&& i >= 0
    &&& s.last_scene_index is Some
    &&& s.last_scene_index != Some(i)
}

/// Only a change of scene arms the start of a run: no other answer (a
/// missing or new manager, a victory, a game over, a failed read, the next
/// tick, an unchanged scene index) sets it; and answers about the stage's
/// result leave it as it was.
pub proof fn lemma_start_armed_only_by_scene_change(s: SplitterState, e: TickEvent)
    ensures
        step_of(s, e).0.scene_transition_pending ==> s.scene_transition_pending || is_scene_change(s, e),
        is_scene_change(s, e) ==> step_of(s, e).0.scene_transition_pending,
        e is VideoAlive ==> step_of(s, e).0.scene_transition_pending == s.scene_transition_pending,
        e is NextTick ==> step_of(s, e).0.scene_transition_pending == s.scene_transition_pending,
{
}

/// The states and timer commands that a sequence of answers produces, in turn.
pub open spec fn run_events(s: SplitterState, events: Seq<TickEvent>) -> (SplitterState, Seq<TimerCommand>)
    decreases events.len(),
{
    if events.len() == 0 {
        (s, Seq::empty())
    } else {
        let (t, c) = step_of(s, events[0]);
        let (u, cs) = run_events(t, events.drop_first());
        (u, seq![c] + cs)
    }
}

/// A sequence of answers that never reports another scene: every scene index
/// in it is `index`, or unreadable, or negative.
pub open spec fn stays_in_scene(events: Seq<TickEvent>, index: i32) -> bool {
    forall|k: int|
        0 <= k < events.len() ==> (#[trigger] events[k] matches TickEvent::SceneIndex(Some(i)) ==> (i == index || i
            < 0))
}

/// Play inside one scene never resets the run: from a state in scene `index`
/// with no start armed, any sequence of answers that keeps reporting that scene
/// (retries that recreate the manager, ticks without a manager, victories,
/// game overs, failed reads) issues no reset, and no start is armed at its end.
pub proof fn lemma_no_reset_within_scene(s: SplitterState, events: Seq<TickEvent>, index: i32)
    requires
        s.last_scene_index == Some(index),
        !s.scene_transition_pending,
        stays_in_scene(events, index),
    ensures
        !run_events(s, events).0.scene_transition_pending,
        run_events(s, events).0.last_scene_index == Some(index),
        run_events(s, events).1.len() == events.len(),
        forall|k: int| 0 <= k < events.len() ==> !(#[trigger] run_events(s, events).1[k] is ResetAndStart),
    decreases events.len(),
{
    if events.len() > 0 {
        let e = events[0];
        let (t, c) = step_of(s, e);
        lemma_start_armed_only_by_scene_change(s, e);
        lemma_timer_commands(s, e);
        let rest = events.drop_first();
        assert(stays_in_scene(rest, index)) by {
            assert forall|k: int| 0 <= k < rest.len() implies (#[trigger] rest[k] matches TickEvent::SceneIndex(
                Some(i),
            ) ==> (i == index || i < 0)) by {
                assert(rest[k] == events[k + 1]);
            }
        }
        assert(e matches TickEvent::SceneIndex(Some(i)) ==> (i == index || i < 0));
        lemma_no_reset_within_scene(t, rest, index);
        let (u, cs) = run_events(t, rest);
        assert(run_events(s, events) == (u, seq![c] + cs));
        assert forall|k: int| 0 <= k < events.len() implies !(#[trigger] run_events(s, events).1[k] is ResetAndStart) by {
            if k > 0 {
                assert(run_events(s, events).1[k] == cs[k - 1]);
            }
        }
    }
}

} // verus!
