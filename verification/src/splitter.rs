//! The split-progression state machine: compares the previous and current
//! `Info` snapshots and decides which timer commands to issue, tracks the
//! ordered sequence of splits of the speedrun category, counts consecutive
//! read failures, and manages attachment and reattachment.
//!
//! The machine is a pure function of its state and the tick's input; the
//! host performs the returned commands in order.

use vstd::prelude::*;
use vstd::string::*;

use crate::celeste::Celeste;
use crate::celeste::spec_discover;
use crate::celeste::spec_snapshot;
use crate::info::Info;
use crate::info::InfoV;
use crate::info::spec_file_time_ms;
use crate::mem::Error;
use crate::mem::Process;
use crate::text::spec_dec_digits;
use crate::text::u32_to_dec;

verus! {

/// The ticks per second the splitter asks the host for.
pub const TICK_RATE_HZ: u32 = 60;

/// Consecutive failed snapshots after which the adapter is dropped.
pub const MAX_FAILED_READS: u32 = 100;

/// The possible states of the host's timer.
#[derive(Debug, Copy, Clone, PartialEq, Eq, Structural)]
pub enum TimerState {
    /// The timer has yet to be started.
    NotRunning,
    /// The timer is currently running.
    Running,
    /// The timer is paused.
    Paused,
    /// The timer is stopped because a run was completed.
    Finished,
}

/// The ordered splits of the speedrun category; `End` is absorbing.
#[derive(Debug, Copy, Clone, PartialEq, Eq, Structural)]
pub enum Split {
    /// Before the run has started.
    Start,
    /// Chapter: Prologue.
    Prologue,
    /// Chapter: Forsaken City.
    City,
    /// Chapter: Old Site.
    Site,
    /// Chapter: Celestial Resort.
    Resort,
    /// Chapter: Golden Ridge.
    Ridge,
    /// The cassette collected in Mirror Temple.
    Cassette,
    /// Chapter: Mirror Temple.
    Temple,
    /// Chapter: Reflection.
    Reflection,
    /// The 2500 M checkpoint of The Summit.
    Summit2500M,
    /// Chapter: The Summit.
    Summit,
    /// After the last split.
    End,
}

/// The position of a split in the category's order.
pub open spec fn spec_split_idx(s: Split) -> int {
    match s {
        Split::Start => 0,
        Split::Prologue => 1,
        Split::City => 2,
        Split::Site => 3,
        Split::Resort => 4,
        Split::Ridge => 5,
        Split::Cassette => 6,
        Split::Temple => 7,
        Split::Reflection => 8,
        Split::Summit2500M => 9,
        Split::Summit => 10,
        Split::End => 11,
    }
}

/// The split after `s`; `End` stays `End`.
pub open spec fn spec_next_split(s: Split) -> Split {
    match s {
        Split::Start => Split::Prologue,
        Split::Prologue => Split::City,
        Split::City => Split::Site,
        Split::Site => Split::Resort,
        Split::Resort => Split::Ridge,
        Split::Ridge => Split::Cassette,
        Split::Cassette => Split::Temple,
        Split::Temple => Split::Reflection,
        Split::Reflection => Split::Summit2500M,
        Split::Summit2500M => Split::Summit,
        Split::Summit => Split::End,
        Split::End => Split::End,
    }
}

impl Split {
    /// The split after this one; `End` stays `End`.
    pub fn next(self) -> (r: Split)
        ensures
            r == spec_next_split(self),
    {
        match self {
            Split::Start => Split::Prologue,
            Split::Prologue => Split::City,
            Split::City => Split::Site,
            Split::Site => Split::Resort,
            Split::Resort => Split::Ridge,
            Split::Ridge => Split::Cassette,
            Split::Cassette => Split::Temple,
            Split::Temple => Split::Reflection,
            Split::Reflection => Split::Summit2500M,
            Split::Summit2500M => Split::Summit,
            Split::Summit => Split::End,
            Split::End => Split::End,
        }
    }
}

/// A command for the host: a timer operation, a variable to publish, a
/// message to show, or the release of the process attachment. The core
/// never asks the host to write to the game.
#[derive(Clone, Debug, PartialEq, Eq)]
pub enum Command {
    /// Start the timer.
    Start,
    /// Mark the current split as finished.
    Split,
    /// Reset the run.
    Reset,
    /// Pause the game-time counter.
    Pause,
    /// Resume the game-time counter.
    Unpause,
    /// Set the game time, in milliseconds.
    SetGameTime(u64),
    /// Ask for this many update ticks per second.
    SetTickRate(u32),
    /// Publish a named variable.
    SetVariable(String, String),
    /// Show a message.
    Print(String),
    /// Release the process attachment.
    Detach,
}

/// The mathematical image of a command.
pub enum CmdV {
    /// Start the timer.
    Start,
    /// Mark the current split as finished.
    Split,
    /// Reset the run.
    Reset,
    /// Pause the game-time counter.
    Pause,
    /// Resume the game-time counter.
    Unpause,
    /// Set the game time, in milliseconds.
    SetGameTime(u64),
    /// Ask for this many update ticks per second.
    SetTickRate(u32),
    /// Publish a named variable.
    SetVariable(Seq<char>, Seq<char>),
    /// Show a message.
    Print(Seq<char>),
    /// Release the process attachment.
    Detach,
}

impl View for Command {
    type V = CmdV;

    open spec fn view(&self) -> CmdV {
        match self {
            Command::Start => CmdV::Start,
            Command::Split => CmdV::Split,
            Command::Reset => CmdV::Reset,
            Command::Pause => CmdV::Pause,
            Command::Unpause => CmdV::Unpause,
            Command::SetGameTime(ms) => CmdV::SetGameTime(*ms),
            Command::SetTickRate(hz) => CmdV::SetTickRate(*hz),
            Command::SetVariable(k, v) => CmdV::SetVariable(k@, v@),
            Command::Print(s) => CmdV::Print(s@),
            Command::Detach => CmdV::Detach,
        }
    }
}

/// The images of a sequence of commands.
pub open spec fn cmds_view(s: Seq<Command>) -> Seq<CmdV> {
    Seq::new(s.len(), |i: int| s[i]@)
}

/// The singleton splitter: the optional adapter, the previous snapshot, and
/// the progression state.
#[derive(Debug)]
pub struct MySplitter {
    /// The adapter, while attached and discovered.
    pub state: Option<Celeste>,
    /// The snapshot of the previous tick.
    pub old_info: Option<Info>,
    /// Whether a connection was believed to exist (drives the one-time
    /// connection warning).
    pub was_connected: bool,
    /// The split the run is currently on.
    pub current_split: Split,
    /// Consecutive ticks whose snapshot failed.
    pub failed_reads: u32,
}

/// The mathematical image of the splitter state.
pub struct SplitterV {
    /// The adapter, while attached.
    pub state: Option<Celeste>,
    /// The previous snapshot.
    pub old_info: Option<InfoV>,
    /// Whether a connection was believed to exist.
    pub was_connected: bool,
    /// The split the run is currently on.
    pub current_split: Split,
    /// Consecutive failed snapshots.
    pub failed_reads: u32,
}

impl View for MySplitter {
    type V = SplitterV;

    open spec fn view(&self) -> SplitterV {
        SplitterV {
            state: self.state,
            old_info: match self.old_info {
                Some(i) => Some(i@),
                None => None,
            },
            was_connected: self.was_connected,
            current_split: self.current_split,
            failed_reads: self.failed_reads,
        }
    }
}

/// The run (re)start trigger: the Prologue just started from the beginning
/// of a fresh file — chapter 0, room "0", `chapter_started` just became
/// true, and the file time is under one second.
pub open spec fn spec_start_trigger(o: InfoV, n: InfoV) -> bool {
    &&& n.asi.chapter == 0
    &&& n.room == "0"@
    &&& n.asi.chapter_started
    &&& !o.asi.chapter_started
    &&& spec_file_time_ms(n.asi) < 1000
}

/// Whether the split `split` fires on the transition from `o` to `n`.
pub open spec fn spec_should_split(split: Split, o: InfoV, n: InfoV) -> bool {
    match split {
        Split::Start => false,
        Split::End => false,
        Split::Cassette => n.asi.file_cassettes == 1 && !n.asi.chapter_started,
        Split::Temple => n.asi.file_hearts == 1 && n.asi.chapter_complete,
        Split::Summit2500M => n.checkpoint == 6,
        _ => o.asi.chapter_complete && !n.asi.chapter_complete,
    }
}

/// The commands of a tick that has both a previous and a current snapshot,
/// in order: the restart trigger's reset and start; the game-time and
/// pause handling; the split; the death-counter variable. `split1` is the
/// split in effect after the restart trigger.
pub open spec fn spec_tick_cmds(o: InfoV, n: InfoV, split1: Split) -> Seq<CmdV> {
    (if spec_start_trigger(o, n) {
        seq![CmdV::Reset, CmdV::Start]
    } else {
        Seq::empty()
    }) + (if n.asi.chapter_started {
        (if !o.asi.chapter_started {
            seq![CmdV::Unpause]
        } else {
            Seq::empty()
        }) + seq![CmdV::SetGameTime(spec_file_time_ms(n.asi))]
    } else if o.asi.chapter_started {
        seq![CmdV::Pause]
    } else {
        Seq::empty()
    }) + (if spec_should_split(split1, o, n) {
        seq![CmdV::Split]
    } else {
        Seq::empty()
    }) + (if o.death_count != n.death_count {
        seq![CmdV::SetVariable("Deaths"@, spec_dec_digits(n.death_count as nat))]
    } else {
        Seq::empty()
    })
}

/// One step of the attached machine on a snapshot outcome: what the next
/// state is and which commands go to the host.
///
/// A present snapshot is processed against the previous one and resets the
/// failure counter. An absent snapshot with a previous one counts as a
/// failure: the first one warns, the hundredth reports the disconnect,
/// drops the adapter (releasing the attachment) and forgets the previous
/// snapshot, so the next tick attempts reattachment.
pub open spec fn spec_step(s: SplitterV, snap: Option<InfoV>) -> (SplitterV, Seq<CmdV>) {
    match (s.old_info, snap) {
        (Some(o), Some(n)) => {
            let split1 = if spec_start_trigger(o, n) {
                Split::Prologue
            } else {
                s.current_split
            };
            let split2 = if spec_should_split(split1, o, n) {
                spec_next_split(split1)
            } else {
                split1
            };
            (
                SplitterV {
                    state: s.state,
                    old_info: Some(n),
                    was_connected: true,
                    current_split: split2,
                    failed_reads: 0,
                },
                spec_tick_cmds(o, n, split1),
            )
        },
        (None, Some(n)) => (
            SplitterV {
                state: s.state,
                old_info: Some(n),
                was_connected: true,
                current_split: s.current_split,
                failed_reads: 0,
            },
            Seq::empty(),
        ),
        (Some(o), None) => {
            let f = if s.failed_reads == u32::MAX {
                u32::MAX
            } else {
                (s.failed_reads + 1) as u32
            };
            let dropped = f == MAX_FAILED_READS;
            (
                SplitterV {
                    state: if dropped {
                        None
                    } else {
                        s.state
                    },
                    old_info: if dropped {
                        None
                    } else {
                        Some(o)
                    },
                    was_connected: true,
                    current_split: s.current_split,
                    failed_reads: f,
                },
                (if s.failed_reads == 0 {
                    seq![CmdV::Print("failed a read, will retry next step"@)]
                } else {
                    Seq::empty()
                }) + (if dropped {
                    seq![CmdV::Print("disconnected, will try to re-connect"@), CmdV::Detach]
                } else {
                    Seq::empty()
                }),
            )
        },
        (None, None) => (
            SplitterV {
                state: s.state,
                old_info: None,
                was_connected: true,
                current_split: s.current_split,
                failed_reads: s.failed_reads,
            },
            Seq::empty(),
        ),
    }
}

/// One tick of the unattached machine: with a fresh attachment's memory,
/// discovery either installs the adapter (keeping the attachment) or fails,
/// in which case the attachment is released; without one there is nothing
/// to release. Either failure prints the connection warning once.
pub open spec fn spec_reattach(s: SplitterV, mem: Option<Map<int, u8>>) -> (SplitterV, Seq<CmdV>) {
    match mem {
        Some(m) => match spec_discover(m) {
            Ok(cel) => (
                SplitterV {
                    state: Some(cel),
                    old_info: s.old_info,
                    was_connected: s.was_connected,
                    current_split: s.current_split,
                    failed_reads: s.failed_reads,
                },
                Seq::empty(),
            ),
            Err(_) => (
                SplitterV {
                    state: None,
                    old_info: s.old_info,
                    was_connected: false,
                    current_split: s.current_split,
                    failed_reads: s.failed_reads,
                },
                seq![CmdV::Detach] + (if s.was_connected {
                    seq![CmdV::Print("failed to connect to Celeste"@)]
                } else {
                    Seq::empty()
                }),
            ),
        },
        None => (
            SplitterV {
                state: None,
                old_info: s.old_info,
                was_connected: false,
                current_split: s.current_split,
                failed_reads: s.failed_reads,
            },
            if s.was_connected {
                seq![CmdV::Print("failed to connect to Celeste"@)]
            } else {
                Seq::empty()
            },
        ),
    }
}

/// One whole update tick: when attached, take a snapshot (moving the
/// adapter's cursors) and step the machine on it; when not, attempt
/// (re)attachment. `mem` is the memory observed through this tick's
/// attachment, or `None` when the host found no process.
pub open spec fn spec_update(s: SplitterV, mem: Option<Map<int, u8>>) -> (SplitterV, Seq<CmdV>) {
    match s.state {
        Some(cel) => {
            let (snap, cel1) = match mem {
                Some(m) => {
                    let sv = spec_snapshot(m, cel);
                    (
                        match sv.result {
                            Ok(Some(i)) => Some(i),
                            _ => None,
                        },
                        Celeste { prev_save: sv.prev_save, mode_stats: sv.mode_stats, ..cel },
                    )
                },
                None => (None, cel),
            };
            spec_step(
                SplitterV {
                    state: Some(cel1),
                    old_info: s.old_info,
                    was_connected: s.was_connected,
                    current_split: s.current_split,
                    failed_reads: s.failed_reads,
                },
                snap,
            )
        },
        None => spec_reattach(s, mem),
    }
}

/// The initial splitter state.
pub open spec fn spec_initial() -> SplitterV {
    SplitterV {
        state: None,
        old_info: None,
        was_connected: true,
        current_split: Split::Start,
        failed_reads: 0,
    }
}

impl MySplitter {
    /// A fresh splitter, together with the commands the host performs at
    /// construction: the death counter starts at 0 and the tick rate is
    /// requested.
    pub fn new() -> (r: (MySplitter, Vec<Command>))
        ensures
            r.0@ == spec_initial(),
            cmds_view(r.1@) == seq![
                CmdV::SetVariable("Deaths"@, "0"@),
                CmdV::SetTickRate(TICK_RATE_HZ),
            ],
    {
        let s = MySplitter {
            state: None,
            old_info: None,
            was_connected: true,
            current_split: Split::Start,
            failed_reads: 0,
        };
        let mut cmds: Vec<Command> = Vec::new();
        cmds.push(Command::SetVariable(String::from_str("Deaths"), String::from_str("0")));
        cmds.push(Command::SetTickRate(TICK_RATE_HZ));
        proof {
            assert(cmds_view(cmds@) =~= seq![
                CmdV::SetVariable("Deaths"@, "0"@),
                CmdV::SetTickRate(TICK_RATE_HZ),
            ]);
        }
        (s, cmds)
    }

    /// Step the attached machine on this tick's snapshot outcome.
    pub fn step(&mut self, snapshot: Option<Info>) -> (r: Vec<Command>)
        requires
            old(self).state is Some,
        ensures
            ({
                let (s2, cs) = spec_step(
                    old(self)@,
                    match snapshot {
                        Some(i) => Some(i@),
                        None => None::<InfoV>,
                    },
                );
                final(self)@ == s2 && cmds_view(r@) == cs
            }),
    {
        self.was_connected = true;
        let prev = self.old_info.take();
        match (prev, snapshot) {
            (Some(o), Some(n)) => {
                let mut cmds: Vec<Command> = Vec::new();
                let zero_room = String::from_str("0");
                let trig = n.asi.chapter == 0 && n.room == zero_room && n.asi.chapter_started
                    && !o.asi.chapter_started && n.file_time() < 1000;
                if trig {
                    cmds.push(Command::Reset);
                    cmds.push(Command::Start);
                    self.current_split = Split::Prologue;
                }
                if n.asi.chapter_started {
                    if !o.asi.chapter_started {
                        cmds.push(Command::Unpause);
                    }
                    cmds.push(Command::SetGameTime(n.file_time()));
                } else if o.asi.chapter_started {
                    cmds.push(Command::Pause);
                }
                let do_split = match self.current_split {
                    Split::Start => false,
                    Split::End => false,
                    Split::Cassette => n.asi.file_cassettes == 1 && !n.asi.chapter_started,
                    Split::Temple => n.asi.file_hearts == 1 && n.asi.chapter_complete,
                    Split::Summit2500M => n.checkpoint == 6,
                    _ => o.asi.chapter_complete && !n.asi.chapter_complete,
                };
                if do_split {
                    cmds.push(Command::Split);
                    self.current_split = self.current_split.next();
                }
                if o.death_count != n.death_count {
                    cmds.push(
                        Command::SetVariable(String::from_str("Deaths"), u32_to_dec(n.death_count)),
                    );
                }
                self.old_info = Some(n);
                self.failed_reads = 0;
                proof {
                    let split1 = if spec_start_trigger(o@, n@) {
                        Split::Prologue
                    } else {
                        old(self)@.current_split
                    };
                    assert(cmds_view(cmds@) =~= spec_tick_cmds(o@, n@, split1));
                }
                cmds
            },
            (None, Some(n)) => {
                self.old_info = Some(n);
                self.failed_reads = 0;
                let cmds: Vec<Command> = Vec::new();
                proof {
                    assert(cmds_view(cmds@) =~= Seq::<CmdV>::empty());
                }
                cmds
            },
            (Some(o), None) => {
                let mut cmds: Vec<Command> = Vec::new();
                if self.failed_reads == 0 {
                    cmds.push(Command::Print(String::from_str("failed a read, will retry next step")));
                }
                let f = if self.failed_reads == u32::MAX {
                    u32::MAX
                } else {
                    self.failed_reads + 1
                };
                self.failed_reads = f;
                if f == MAX_FAILED_READS {
                    cmds.push(Command::Print(String::from_str("disconnected, will try to re-connect")));
                    cmds.push(Command::Detach);
                    self.old_info = None;
                    self.state = None;
                } else {
                    self.old_info = Some(o);
                }
                proof {
                    let (s2, cs) = spec_step(old(self)@, None::<InfoV>);
                    assert(cmds_view(cmds@) =~= cs);
                }
                cmds
            },
            (None, None) => {
                let cmds: Vec<Command> = Vec::new();
                proof {
                    assert(cmds_view(cmds@) =~= Seq::<CmdV>::empty());
                }
                cmds
            },
        }
    }

    /// Attempt discovery on a fresh attachment's memory; on success the
    /// adapter is installed.
    pub fn try_init(&mut self, proc: &Process) -> (r: Option<()>)
        requires
            proc.wf(),
        ensures
            r is Some <==> spec_discover(proc@) is Ok,
            r is Some ==> final(self).state == Some(spec_discover(proc@)->Ok_0),
            r is None ==> final(self).state == old(self).state,
            final(self).old_info == old(self).old_info,
            final(self).was_connected == old(self).was_connected,
            final(self).current_split == old(self).current_split,
            final(self).failed_reads == old(self).failed_reads,
    {
        match Celeste::discover(proc) {
            Ok(cel) => {
                self.state = Some(cel);
                Some(())
            },
            Err(_) => None,
        }
    }

    /// One whole update tick. `proc` is the memory observed through this
    /// tick's attachment, or `None` when the host found no process.
    pub fn update(&mut self, proc: Option<&Process>) -> (r: Vec<Command>)
        requires
            match proc {
                Some(p) => p.wf(),
                None => true,
            },
        ensures
            ({
                let (s2, cs) = spec_update(
                    old(self)@,
                    match proc {
                        Some(p) => Some(p@),
                        None => None::<Map<int, u8>>,
                    },
                );
                final(self)@ == s2 && cmds_view(r@) == cs
            }),
    {
        if self.state.is_some() {
            let snap: Option<Info> = match proc {
                Some(p) => {
                    let mut cel = self.state.take().unwrap();
                    let r = cel.update(p);
                    self.state = Some(cel);
                    r
                },
                None => None,
            };
            self.step(snap)
        } else {
            match proc {
                Some(p) => {
                    match self.try_init(p) {
                        Some(_) => {
                            let cmds: Vec<Command> = Vec::new();
                            proof {
                                assert(cmds_view(cmds@) =~= Seq::<CmdV>::empty());
                            }
                            cmds
                        },
                        None => {
                            let mut cmds: Vec<Command> = Vec::new();
                            cmds.push(Command::Detach);
                            if self.was_connected {
                                cmds.push(
                                    Command::Print(String::from_str("failed to connect to Celeste")),
                                );
                            }
                            self.was_connected = false;
                            proof {
                                let (s2, cs) = spec_update(old(self)@, Some(p@));
                                assert(cmds_view(cmds@) =~= cs);
                            }
                            cmds
                        },
                    }
                },
                None => {
                    let mut cmds: Vec<Command> = Vec::new();
                    if self.was_connected {
                        cmds.push(Command::Print(String::from_str("failed to connect to Celeste")));
                    }
                    self.was_connected = false;
                    proof {
                        let (s2, cs) = spec_update(old(self)@, None::<Map<int, u8>>);
                        assert(cmds_view(cmds@) =~= cs);
                    }
                    cmds
                },
            }
        }
    }

    /// The first memory range this tick's walk would need but the snapshot
    /// does not hold, if any: the host can fetch it and ask again. The
    /// splitter itself is not changed.
    pub fn probe(&self, proc: &Process) -> (r: Option<(u64, u64)>)
        requires
            proc.wf(),
        ensures
            r == (match self@.state {
                Some(cel) => match spec_snapshot(proc@, cel).result {
                    Err(Error::FailedRead(a, l)) => Some((a, l)),
                    _ => None::<(u64, u64)>,
                },
                None => match spec_discover(proc@) {
                    Err(Error::FailedRead(a, l)) => Some((a, l)),
                    _ => None::<(u64, u64)>,
                },
            }),
    {
        match &self.state {
            Some(cel) => {
                let mut scratch: Celeste = *cel;
                match scratch.snapshot(proc) {
                    Err(Error::FailedRead(a, l)) => Some((a, l)),
                    _ => None,
                }
            },
            None => {
                match Celeste::discover(proc) {
                    Err(Error::FailedRead(a, l)) => Some((a, l)),
                    _ => None,
                }
            },
        }
    }
}

/// The characters of a boolean, as debug output shows it.
pub open spec fn spec_bool_chars(b: bool) -> Seq<char> {
    if b {
        "true"@
    } else {
        "false"@
    }
}

/// The debug description of what changed between two snapshots: one
/// `label=value` entry per differing field, in a fixed order, and the room
/// quoted.
#[verifier::opaque]
pub open spec fn spec_diff_parts_asi(o: InfoV, n: InfoV) -> Seq<Seq<char>> {
    (if o.asi.timer_active != n.asi.timer_active {
        seq![("timer="@ + spec_bool_chars(n.asi.timer_active))]
    } else {
        Seq::empty()
    }) + (if o.asi.chapter != n.asi.chapter {
        seq![("chapter="@ + crate::text::spec_i32_dec(n.asi.chapter))]
    } else {
        Seq::empty()
    }) + (if o.asi.mode != n.asi.mode {
        seq![("mode="@ + crate::text::spec_i32_dec(n.asi.mode))]
    } else {
        Seq::empty()
    }) + (if o.asi.chapter_started != n.asi.chapter_started {
        seq![("start="@ + spec_bool_chars(n.asi.chapter_started))]
    } else {
        Seq::empty()
    }) + (if o.asi.chapter_complete != n.asi.chapter_complete {
        seq![("finish="@ + spec_bool_chars(n.asi.chapter_complete))]
    } else {
        Seq::empty()
    }) + (if o.asi.file_cassettes != n.asi.file_cassettes {
        seq![("cassettes="@ + crate::text::spec_i32_dec(n.asi.file_cassettes))]
    } else {
        Seq::empty()
    }) + (if o.asi.file_hearts != n.asi.file_hearts {
        seq![("hearts="@ + crate::text::spec_i32_dec(n.asi.file_hearts))]
    } else {
        Seq::empty()
    })
}

/// The debug description of what changed between two snapshots: one
/// `label=value` entry per differing field, in a fixed order, and the room
/// quoted.
#[verifier::opaque]
pub open spec fn spec_diff_parts(o: InfoV, n: InfoV) -> Seq<Seq<char>> {
    spec_diff_parts_asi(o, n) + (if o.in_cutscene != n.in_cutscene {
        seq![("cutscene="@ + spec_bool_chars(n.in_cutscene))]
    } else {
        Seq::empty()
    }) + (if o.checkpoint != n.checkpoint {
        seq![("checkpoint="@ + spec_dec_digits(n.checkpoint as nat))]
    } else {
        Seq::empty()
    }) + (if o.room != n.room {
        seq![("room='"@ + n.room + "'"@)]
    } else {
        Seq::empty()
    })
}

/// The character sequences of a list of strings.
pub open spec fn strs_view(v: Seq<String>) -> Seq<Seq<char>> {
    Seq::new(v.len(), |i: int| v[i]@)
}

/// A `label=value` debug entry.
fn part(label: &str, val: &str) -> (r: String)
    ensures
        r@ == label@ + val@,
{
    let mut s = String::from_str(label);
    s.append(val);
    s
}

/// The word debug output shows for a boolean.
fn bool_str(b: bool) -> (r: &'static str)
    ensures
        r@ == spec_bool_chars(b),
{
    if b {
        "true"
    } else {
        "false"
    }
}

impl MySplitter {
    /// The `label=value` entries for the packed-struct fields.
    #[verifier::rlimit(60)]
    #[verifier::spinoff_prover]
    fn debug_asi_parts(old: &Info, new: &Info) -> (r: Vec<String>)
        ensures
            strs_view(r@) == spec_diff_parts_asi(old@, new@),
    {
        let o = old;
        let n = new;
        let mut parts: Vec<String> = Vec::new();
        let ghost g0 = Seq::<Seq<char>>::empty();
        if o.asi.timer_active != n.asi.timer_active {
            parts.push(part("timer=", bool_str(n.asi.timer_active)));
        }
        let ghost g1 = g0 + (if o@.asi.timer_active != n@.asi.timer_active {
            seq![("timer="@ + spec_bool_chars(n@.asi.timer_active))]
        } else {
            Seq::empty()
        });
        proof {
            assert(strs_view(parts@) =~= g1);
        }
        if o.asi.chapter != n.asi.chapter {
            let d = crate::text::i32_to_dec(n.asi.chapter);
            parts.push(part("chapter=", d.as_str()));
        }
        let ghost g2 = g1 + (if o@.asi.chapter != n@.asi.chapter {
            seq![("chapter="@ + crate::text::spec_i32_dec(n@.asi.chapter))]
        } else {
            Seq::empty()
        });
        proof {
            assert(strs_view(parts@) =~= g2);
        }
        if o.asi.mode != n.asi.mode {
            let d = crate::text::i32_to_dec(n.asi.mode);
            parts.push(part("mode=", d.as_str()));
        }
        let ghost g3 = g2 + (if o@.asi.mode != n@.asi.mode {
            seq![("mode="@ + crate::text::spec_i32_dec(n@.asi.mode))]
        } else {
            Seq::empty()
        });
        proof {
            assert(strs_view(parts@) =~= g3);
        }
        if o.asi.chapter_started != n.asi.chapter_started {
            parts.push(part("start=", bool_str(n.asi.chapter_started)));
        }
        let ghost g4 = g3 + (if o@.asi.chapter_started != n@.asi.chapter_started {
            seq![("start="@ + spec_bool_chars(n@.asi.chapter_started))]
        } else {
            Seq::empty()
        });
        proof {
            assert(strs_view(parts@) =~= g4);
        }
        if o.asi.chapter_complete != n.asi.chapter_complete {
            parts.push(part("finish=", bool_str(n.asi.chapter_complete)));
        }
        let ghost g5 = g4 + (if o@.asi.chapter_complete != n@.asi.chapter_complete {
            seq![("finish="@ + spec_bool_chars(n@.asi.chapter_complete))]
        } else {
            Seq::empty()
        });
        proof {
            assert(strs_view(parts@) =~= g5);
        }
        if o.asi.file_cassettes != n.asi.file_cassettes {
            let d = crate::text::i32_to_dec(n.asi.file_cassettes);
            parts.push(part("cassettes=", d.as_str()));
        }
        let ghost g6 = g5 + (if o@.asi.file_cassettes != n@.asi.file_cassettes {
            seq![("cassettes="@ + crate::text::spec_i32_dec(n@.asi.file_cassettes))]
        } else {
            Seq::empty()
        });
        proof {
            assert(strs_view(parts@) =~= g6);
        }
        if o.asi.file_hearts != n.asi.file_hearts {
            let d = crate::text::i32_to_dec(n.asi.file_hearts);
            parts.push(part("hearts=", d.as_str()));
        }
        let ghost g7 = g6 + (if o@.asi.file_hearts != n@.asi.file_hearts {
            seq![("hearts="@ + crate::text::spec_i32_dec(n@.asi.file_hearts))]
        } else {
            Seq::empty()
        });
        proof {
            assert(strs_view(parts@) =~= g7);
            reveal(spec_diff_parts_asi);
            assert(g7 =~= spec_diff_parts_asi(old@, new@));
        }
        parts
    }

    /// Describe what changed between two snapshots, one `label=value`
    /// string per differing field, for debug output.
    #[verifier::rlimit(60)]
    #[verifier::spinoff_prover]
    pub fn debug_state(&self, old: &Info, new: &Info) -> (r: Vec<String>)
        ensures
            strs_view(r@) == spec_diff_parts(old@, new@),
    {
        let o = old;
        let n = new;
        let mut parts = Self::debug_asi_parts(old, new);
        let ghost g7 = spec_diff_parts_asi(old@, new@);
        if o.in_cutscene != n.in_cutscene {
            parts.push(part("cutscene=", bool_str(n.in_cutscene)));
        }
        let ghost g8 = g7 + (if o@.in_cutscene != n@.in_cutscene {
            seq![("cutscene="@ + spec_bool_chars(n@.in_cutscene))]
        } else {
            Seq::empty()
        });
        proof {
            assert(strs_view(parts@) =~= g8);
        }
        if o.checkpoint != n.checkpoint {
            let d = u32_to_dec(n.checkpoint);
            parts.push(part("checkpoint=", d.as_str()));
        }
        let ghost g9 = g8 + (if o@.checkpoint != n@.checkpoint {
            seq![("checkpoint="@ + spec_dec_digits(n@.checkpoint as nat))]
        } else {
            Seq::empty()
        });
        proof {
            assert(strs_view(parts@) =~= g9);
        }
        if !(o.room == n.room) {
            let mut s = String::from_str("room='");
            s.append(n.room.as_str());
            s.append("'");
            parts.push(s);
        }
        let ghost g10 = g9 + (if o@.room != n@.room {
            seq![("room='"@ + n@.room + "'"@)]
        } else {
            Seq::empty()
        });
        proof {
            assert(strs_view(parts@) =~= g10);
            reveal(spec_diff_parts);
            assert(g10 =~= spec_diff_parts(old@, new@));
        }
        parts
    }
}

/// How many `Detach` commands a command sequence holds.
pub open spec fn spec_detach_count(s: Seq<CmdV>) -> int
    decreases s.len(),
{
    if s.len() == 0 {
        0
    } else {
        (if s.last() is Detach {
            1int
        } else {
            0int
        }) + spec_detach_count(s.drop_last())
    }
}

/// Detach counting distributes over concatenation.
proof fn lemma_detach_count_add(a: Seq<CmdV>, b: Seq<CmdV>)
    ensures
        spec_detach_count(a + b) == spec_detach_count(a) + spec_detach_count(b),
    decreases b.len(),
{
    if b.len() == 0 {
        assert(a + b =~= a);
    } else {
        lemma_detach_count_add(a, b.drop_last());
        assert((a + b).drop_last() =~= a + b.drop_last());
        assert((a + b).last() == b.last());
    }
}

/// A tick with two snapshots asks for timer work only: no detach.
proof fn lemma_tick_cmds_no_detach(o: InfoV, n: InfoV, split1: Split)
    ensures
        spec_detach_count(spec_tick_cmds(o, n, split1)) == 0,
{
    reveal_with_fuel(spec_detach_count, 4);
    let p1: Seq<CmdV> = if spec_start_trigger(o, n) {
        seq![CmdV::Reset, CmdV::Start]
    } else {
        Seq::empty()
    };
    let p2: Seq<CmdV> = if n.asi.chapter_started {
        (if !o.asi.chapter_started {
            seq![CmdV::Unpause]
        } else {
            Seq::empty()
        }) + seq![CmdV::SetGameTime(spec_file_time_ms(n.asi))]
    } else if o.asi.chapter_started {
        seq![CmdV::Pause]
    } else {
        Seq::empty()
    };
    let p3: Seq<CmdV> = if spec_should_split(split1, o, n) {
        seq![CmdV::Split]
    } else {
        Seq::empty()
    };
    let p4: Seq<CmdV> = if o.death_count != n.death_count {
        seq![CmdV::SetVariable("Deaths"@, spec_dec_digits(n.death_count as nat))]
    } else {
        Seq::empty()
    };
    if n.asi.chapter_started && !o.asi.chapter_started {
        assert((seq![CmdV::Unpause] + seq![
            CmdV::SetGameTime(spec_file_time_ms(n.asi)),
        ]).drop_last() =~= seq![CmdV::Unpause]);
    }
    lemma_detach_count_add(p1, p2);
    lemma_detach_count_add(p1 + p2, p3);
    lemma_detach_count_add(p1 + p2 + p3, p4);
    assert(spec_detach_count(p1) == 0);
    assert(spec_detach_count(p2) == 0);
    assert(spec_detach_count(p3) == 0);
    assert(spec_detach_count(p4) == 0);
}

/// Law (handle lifetime): an update tick asks the host to release the
/// attachment exactly once when the machine gives one up — either the
/// adapter was dropped, or a fresh attachment's discovery failed — and
/// never otherwise; and the machine only ends up attached when it was
/// attached before or the host attached this tick. So every successful
/// attach is balanced by exactly one detach, and a failed attach by none.
#[verifier::rlimit(80)]
#[verifier::spinoff_prover]
pub proof fn lemma_handle_lifecycle(s: SplitterV, mem: Option<Map<int, u8>>)
    ensures
        ({
            let (s2, cs) = spec_update(s, mem);
            &&& spec_detach_count(cs) == (if s.state is Some && s2.state is None {
                1int
            } else if s.state is None && mem is Some && s2.state is None {
                1int
            } else {
                0int
            })
            &&& (s2.state is Some ==> s.state is Some || mem is Some)
        }),
{
    reveal_with_fuel(spec_detach_count, 4);
    let (s2, cs) = spec_update(s, mem);
    match s.state {
        Some(cel) => {
            let (snap, cel1) = match mem {
                Some(m) => {
                    let sv = spec_snapshot(m, cel);
                    (
                        match sv.result {
                            Ok(Some(i)) => Some(i),
                            _ => None,
                        },
                        Celeste { prev_save: sv.prev_save, mode_stats: sv.mode_stats, ..cel },
                    )
                },
                None => (None, cel),
            };
            let s1 = SplitterV {
                state: Some(cel1),
                old_info: s.old_info,
                was_connected: s.was_connected,
                current_split: s.current_split,
                failed_reads: s.failed_reads,
            };
            match (s1.old_info, snap) {
                (Some(o), Some(n)) => {
                    let split1 = if spec_start_trigger(o, n) {
                        Split::Prologue
                    } else {
                        s1.current_split
                    };
                    lemma_tick_cmds_no_detach(o, n, split1);
                },
                (Some(o), None) => {
                    let f = if s.failed_reads == u32::MAX {
                        u32::MAX
                    } else {
                        (s.failed_reads + 1) as u32
                    };
                    let warn: Seq<CmdV> = if s.failed_reads == 0 {
                        seq![CmdV::Print("failed a read, will retry next step"@)]
                    } else {
                        Seq::empty()
                    };
                    let drop_part: Seq<CmdV> = if f == MAX_FAILED_READS {
                        seq![CmdV::Print("disconnected, will try to re-connect"@), CmdV::Detach]
                    } else {
                        Seq::empty()
                    };
                    lemma_detach_count_add(warn, drop_part);
                    if f == MAX_FAILED_READS {
                        assert(drop_part.drop_last() =~= seq![
                            CmdV::Print("disconnected, will try to re-connect"@),
                        ]);
                    }
                },
                _ => {},
            }
        },
        None => {
            match mem {
                Some(m) => {
                    match spec_discover(m) {
                        Ok(_) => {},
                        Err(_) => {
                            let msg: Seq<CmdV> = if s.was_connected {
                                seq![CmdV::Print("failed to connect to Celeste"@)]
                            } else {
                                Seq::empty()
                            };
                            lemma_detach_count_add(seq![CmdV::Detach], msg);
                        },
                    }
                },
                None => {},
            }
        },
    }
}

/// The next split never comes earlier in the order.
proof fn lemma_next_split_forward(sp: Split)
    ensures
        spec_split_idx(spec_next_split(sp)) >= spec_split_idx(sp),
{
    match sp {
        Split::Start => {},
        Split::Prologue => {},
        Split::City => {},
        Split::Site => {},
        Split::Resort => {},
        Split::Ridge => {},
        Split::Cassette => {},
        Split::Temple => {},
        Split::Reflection => {},
        Split::Summit2500M => {},
        Split::Summit => {},
        Split::End => {},
    }
}

/// Law (split monotonicity): a step never moves the split cursor backward
/// unless the explicit restart trigger fired, and `End` is absorbing: once
/// past the last split, only a restart trigger leaves that state.
pub proof fn lemma_split_monotonic(s: SplitterV, snap: Option<InfoV>)
    ensures
        ({
            let (s2, _) = spec_step(s, snap);
            let triggered = match (s.old_info, snap) {
                (Some(o), Some(n)) => spec_start_trigger(o, n),
                _ => false,
            };
            &&& (!triggered ==> spec_split_idx(s2.current_split) >= spec_split_idx(
                s.current_split,
            ))
            &&& (!triggered && s.current_split == Split::End ==> s2.current_split == Split::End)
        }),
{
    match (s.old_info, snap) {
        (Some(o), Some(n)) => {
            if !spec_start_trigger(o, n) {
                lemma_next_split_forward(s.current_split);
            }
        },
        _ => {},
    }
}

/// Law (reconnect bound): a present snapshot resets the failure counter; an
/// absent one after a previous snapshot raises it by exactly one; and the
/// hundredth consecutive failure drops the adapter and the previous
/// snapshot, so the very next tick attempts reattachment. From the first
/// failure after a successful snapshot, the machine therefore runs at most
/// one hundred updates before the adapter is gone.
pub proof fn lemma_reconnect_bound(s: SplitterV, snap: Option<InfoV>)
    requires
        s.state is Some,
    ensures
        ({
            let (s2, _) = spec_step(s, snap);
            &&& (snap is Some ==> s2.failed_reads == 0)
            &&& (snap is None && s.old_info is Some && s.failed_reads < MAX_FAILED_READS
                ==> s2.failed_reads == s.failed_reads + 1)
            &&& (snap is None && s.old_info is Some && s.failed_reads + 1 == MAX_FAILED_READS
                ==> s2.state is None && s2.old_info is None)
            &&& (snap is None && s.old_info is Some && s.failed_reads + 1 != MAX_FAILED_READS
                ==> s2.state == s.state && s2.old_info == s.old_info)
        }),
{
}

} // verus!

