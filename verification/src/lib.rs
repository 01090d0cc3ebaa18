//! An auto-splitter core for a speedrun timer: it inspects a snapshot of a
//! game process's memory, walks the Mono runtime's metadata tables to resolve
//! classes and fields by name, derives a per-tick `Info` snapshot of the game
//! state, and decides which timer commands to issue.
//!
//! All decisions are functions of plain data: the host that actually attaches
//! to the game, reads its memory and drives the timer lives outside this
//! library and communicates through `mem::Process` values (observed memory)
//! and `splitter::Command` values (actions to perform in order).
pub mod celeste;
pub mod info;
pub mod mem;
pub mod mono;
pub mod splitter;
pub mod text;

pub use celeste::Celeste;
pub use info::AutoSplitterInfo;
pub use info::Info;
pub use mem::Address;
pub use mem::Error;
pub use mem::Process;
pub use mono::CelesteProcess;
pub use mono::MonoKind;
pub use splitter::Command;
pub use splitter::MySplitter;
pub use splitter::Split;
pub use splitter::TimerState;
