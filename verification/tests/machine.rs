//! Tests of the split-progression state machine on concrete snapshots.

use auto_splitter::AutoSplitterInfo;
use auto_splitter::Celeste;
use auto_splitter::Command;
use auto_splitter::Info;
use auto_splitter::MySplitter;
use auto_splitter::Process;
use auto_splitter::Split;

fn asi() -> AutoSplitterInfo {
    AutoSplitterInfo {
        level: 0,
        chapter: 0,
        mode: 0,
        timer_active: false,
        chapter_started: false,
        chapter_complete: false,
        chapter_time: 0,
        chapter_strawberries: 0,
        chapter_cassette: false,
        chapter_heart: false,
        file_time: 0,
        file_strawberries: 0,
        file_cassettes: 0,
        file_hearts: 0,
    }
}

fn info(asi: AutoSplitterInfo, room: &str) -> Info {
    Info {
        asi,
        death_count: 0,
        checkpoint: 0,
        in_cutscene: false,
        room: room.to_string(),
    }
}

fn dummy_adapter() -> Celeste {
    Celeste {
        instance: 1,
        save_data_class: 2,
        engine_class: 3,
        level_class: 4,
        info: 5,
        prev_save: 0,
        mode_stats: 0,
    }
}

fn attached(old: Option<Info>, split: Split) -> MySplitter {
    MySplitter {
        state: Some(dummy_adapter()),
        old_info: old,
        was_connected: true,
        current_split: split,
        failed_reads: 0,
    }
}

#[test]
fn construction_publishes_the_death_counter_and_tick_rate() {
    let (s, cmds) = MySplitter::new();
    assert!(s.state.is_none());
    assert!(s.old_info.is_none());
    assert!(s.was_connected);
    assert_eq!(s.current_split, Split::Start);
    assert_eq!(s.failed_reads, 0);
    assert_eq!(
        cmds,
        vec![
            Command::SetVariable("Deaths".to_string(), "0".to_string()),
            Command::SetTickRate(60),
        ]
    );
}

#[test]
fn attach_while_game_not_running_warns_exactly_once() {
    let (mut s, _) = MySplitter::new();
    let first = s.update(None);
    assert_eq!(
        first,
        vec![Command::Print("failed to connect to Celeste".to_string())]
    );
    // every later failing tick is silent, and no timer command is ever sent
    for _ in 0..5 {
        assert_eq!(s.update(None), vec![]);
    }
    assert_eq!(s.current_split, Split::Start);
}

#[test]
fn cold_start_of_prologue_resets_starts_and_unpauses() {
    // snapshot N: chapter 0, room "0", not started, file time zero
    let old = info(asi(), "0");
    // snapshot N+1: the chapter just started, 42 ms on the file
    let mut started = asi();
    started.chapter_started = true;
    started.file_time = 420_000;
    let new = info(started, "0");
    let mut s = attached(Some(old), Split::Start);
    let cmds = s.step(Some(new));
    assert_eq!(
        cmds,
        vec![
            Command::Reset,
            Command::Start,
            Command::Unpause,
            Command::SetGameTime(42),
        ]
    );
    assert_eq!(s.current_split, Split::Prologue);
    assert_eq!(s.failed_reads, 0);
}

#[test]
fn no_restart_when_the_file_is_old() {
    let old = info(asi(), "0");
    let mut started = asi();
    started.chapter_started = true;
    started.file_time = 36_000_000_000; // an hour: well past one second
    let new = info(started, "0");
    let mut s = attached(Some(old), Split::Start);
    let cmds = s.step(Some(new));
    // the chapter started, so time flows, but no reset or start
    assert_eq!(
        cmds,
        vec![Command::Unpause, Command::SetGameTime(3_600_000)]
    );
    assert_eq!(s.current_split, Split::Start);
}

#[test]
fn chapter_complete_split_advances_city_to_site() {
    let mut before = asi();
    before.chapter_complete = true;
    let mut after = asi();
    after.chapter_complete = false;
    let mut s = attached(Some(info(before, "x")), Split::City);
    let cmds = s.step(Some(info(after, "x")));
    assert_eq!(cmds, vec![Command::Split]);
    assert_eq!(s.current_split, Split::Site);
}

#[test]
fn cassette_and_temple_and_checkpoint_splits() {
    // Cassette: first cassette banked, chapter not running
    let mut a = asi();
    a.file_cassettes = 1;
    let mut s = attached(Some(info(asi(), "x")), Split::Cassette);
    assert_eq!(s.step(Some(info(a, "x"))), vec![Command::Split]);
    assert_eq!(s.current_split, Split::Temple);
    // Temple: first heart while the completion screen shows
    let mut b = asi();
    b.file_hearts = 1;
    b.chapter_complete = true;
    let mut s = attached(Some(info(asi(), "x")), Split::Temple);
    assert_eq!(s.step(Some(info(b, "x"))), vec![Command::Split]);
    assert_eq!(s.current_split, Split::Reflection);
    // Summit 2500 M: the sixth checkpoint
    let mut i = info(asi(), "x");
    i.checkpoint = 6;
    let mut s = attached(Some(info(asi(), "x")), Split::Summit2500M);
    assert_eq!(s.step(Some(i)), vec![Command::Split]);
    assert_eq!(s.current_split, Split::Summit);
}

#[test]
fn start_and_end_never_split() {
    let mut before = asi();
    before.chapter_complete = true;
    let after = asi();
    for split in [Split::Start, Split::End] {
        let mut s = attached(Some(info(before, "x")), split);
        assert_eq!(s.step(Some(info(after, "x"))), vec![]);
        assert_eq!(s.current_split, split);
    }
}

#[test]
fn death_counter_update_publishes_the_variable_and_no_split() {
    let mut old = info(asi(), "x");
    old.death_count = 7;
    let mut new = info(asi(), "x");
    new.death_count = 8;
    let mut s = attached(Some(old), Split::Start);
    let cmds = s.step(Some(new));
    assert_eq!(
        cmds,
        vec![Command::SetVariable("Deaths".to_string(), "8".to_string())]
    );
    assert_eq!(s.current_split, Split::Start);
}

#[test]
fn pause_when_the_chapter_ends() {
    let mut running = asi();
    running.chapter_started = true;
    let stopped = asi();
    let mut s = attached(Some(info(running, "x")), Split::Start);
    assert_eq!(s.step(Some(info(stopped, "x"))), vec![Command::Pause]);
}

#[test]
fn sustained_read_failure_drops_the_adapter_after_one_hundred_ticks() {
    let mut s = attached(Some(info(asi(), "x")), Split::City);
    // tick 1: one warning
    assert_eq!(
        s.step(None),
        vec![Command::Print("failed a read, will retry next step".to_string())]
    );
    assert_eq!(s.failed_reads, 1);
    // ticks 2..=99: silent counting
    for tick in 2..=99u32 {
        assert_eq!(s.step(None), vec![]);
        assert_eq!(s.failed_reads, tick);
        assert!(s.state.is_some());
        assert!(s.old_info.is_some());
    }
    // tick 100: one error, the attachment is released, the adapter is gone
    assert_eq!(
        s.step(None),
        vec![
            Command::Print("disconnected, will try to re-connect".to_string()),
            Command::Detach,
        ]
    );
    assert!(s.state.is_none());
    assert!(s.old_info.is_none());
    // tick 101: reattachment is attempted; with no process found, the
    // one-time connection warning is shown
    assert_eq!(
        s.update(None),
        vec![Command::Print("failed to connect to Celeste".to_string())]
    );
}

#[test]
fn a_successful_snapshot_resets_the_failure_counter() {
    let mut s = attached(Some(info(asi(), "x")), Split::City);
    for _ in 0..10 {
        s.step(None);
    }
    assert_eq!(s.failed_reads, 10);
    s.step(Some(info(asi(), "x")));
    assert_eq!(s.failed_reads, 0);
}

#[test]
fn split_order_is_fixed_and_end_is_absorbing() {
    let order = [
        Split::Start,
        Split::Prologue,
        Split::City,
        Split::Site,
        Split::Resort,
        Split::Ridge,
        Split::Cassette,
        Split::Temple,
        Split::Reflection,
        Split::Summit2500M,
        Split::Summit,
        Split::End,
    ];
    for w in order.windows(2) {
        assert_eq!(w[0].next(), w[1]);
    }
    assert_eq!(Split::End.next(), Split::End);
}

#[test]
fn debug_state_lists_exactly_the_changed_fields() {
    let (s, _) = MySplitter::new();
    let old = info(asi(), "a-01");
    let mut b = asi();
    b.chapter = 2;
    b.chapter_started = true;
    b.file_hearts = 3;
    let mut new = info(b, "a-02");
    new.checkpoint = 4;
    new.in_cutscene = true;
    let parts = s.debug_state(&old, &new);
    assert_eq!(
        parts,
        vec![
            "chapter=2".to_string(),
            "start=true".to_string(),
            "hearts=3".to_string(),
            "cutscene=true".to_string(),
            "checkpoint=4".to_string(),
            "room='a-02'".to_string(),
        ]
    );
    assert_eq!(s.debug_state(&old, &old), Vec::<String>::new());
}

#[test]
fn negative_chapter_renders_with_a_sign() {
    let (s, _) = MySplitter::new();
    let old = info(asi(), "x");
    let mut b = asi();
    b.chapter = -1;
    b.mode = -1;
    let new = info(b, "x");
    assert_eq!(
        s.debug_state(&old, &new),
        vec!["chapter=-1".to_string(), "mode=-1".to_string()]
    );
}

#[test]
fn failed_discovery_releases_the_fresh_attachment() {
    let (mut s, _) = MySplitter::new();
    // the host attached, but the process's memory is not the game's
    let empty = Process::new();
    assert_eq!(
        s.update(Some(&empty)),
        vec![
            Command::Detach,
            Command::Print("failed to connect to Celeste".to_string()),
        ]
    );
    assert!(s.state.is_none());
    // the warning is one-time here too
    assert_eq!(s.update(Some(&empty)), vec![Command::Detach]);
}
