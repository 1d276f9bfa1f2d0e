# ScreenSaver BATTLE auto splitter

A LiveSplit auto splitter for the Steam version of ScreenSaver BATTLE. It
resets and starts the run when stage 1 is entered from another scene (game
time starts at +1.000 s to cover the stage select fade), splits on every
VICTORY, never on a GAME OVER, and leaves the timer alone on a retry inside a
stage.

Layout:

- `src/` is the verified library. It holds every decision the splitter
  makes and no I/O: memory reads and timer commands are requests and answers.
  - `layout.rs`: the measured Unity 2023.2.20f1 offsets and address arithmetic.
  - `memory.rs`: read requests and answers, the memory image the contracts
    speak of, and the checks on what is read.
  - `resolver.rs`: the search for the live `BattleManager` through the scene
    hierarchy, one read at a time, proved to compute the search stated over a
    memory image within a bounded number of reads. The previous tick's manager
    is read again only on a tick where the current scene cannot be had.
  - `probe.rs`: whether the manager's `video` object is alive (victory) or not.
  - `splitter.rs`: the per-tick state machine and its laws.
- `tests/`: tests against hand-built memory images and tick sequences.
- `app/`: the Auto Splitting Runtime glue: it attaches to the game, answers
  the library's read requests through `asr`, performs the timer commands, and
  waits for each tick.
