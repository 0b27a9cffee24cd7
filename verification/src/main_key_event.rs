//! What a command of the user does to the state of the browser.
//!
//! Moving the focus and dismissing a message are done at once. Opening a
//! directory needs the directory to be read first: `main_key_event` names the
//! directory, the caller reads it, and `directory_scanned` takes in what the
//! reading came to.

use vstd::prelude::*;
use std::path::Path;
use crate::app::{App, NavigationState};
use crate::fms::{is_listing_of, scan_failure, DirProbe, PathKind};
use crate::order::{is_parent_name, parent_name};
use crate::paging::{column_height, lemma_step_keeps_focus_valid, Direction};

verus! {

/// What the user asks for.
#[derive(Clone, Copy, Debug, PartialEq, Eq, Structural)]
pub enum Command {
    MoveUp,
    MoveDown,
    MoveLeft,
    MoveRight,
    /// Open the entry that has the focus.
    Select,
    Quit,
    /// Any input that has no meaning of its own.
    Other,
}

/// What became of a command.
#[derive(Clone, Copy, Debug, PartialEq, Eq, Structural)]
pub enum AppEvent {
    /// The browser is to end.
    QUIT,
    /// The command meant nothing.
    NONE,
    /// The command was carried out.
    PROCESSED,
}

/// What `main_key_event` answers: what became of the command, and the path of
/// a directory that is to be read and handed to `directory_scanned`.
#[derive(Debug)]
pub struct KeyReply {
    pub event: AppEvent,
    pub scan: Option<String>,
}

/// The path of the directory above `path`, as `Path::parent` of the standard
/// library gives it by the rules of the platform's path syntax; none for a
/// root and for the empty path.
pub uninterp spec fn path_parent(path: Seq<char>) -> Option<Seq<char>>;

/// The path of `name` inside the directory `dir`, as `Path::join` of the
/// standard library gives it by the rules of the platform's path syntax.
pub uninterp spec fn path_join(dir: Seq<char>, name: Seq<char>) -> Seq<char>;

/// `Path::parent` of the standard library, from text to text: the path
/// without its last component, if it has one. It looks at the text of the
/// path alone, not at the file system.
#[verifier::external_body]
fn parent_of(path: &str) -> (parent: Option<String>)
    ensures
        match parent {
            Some(above) => path_parent(path@) == Some(above@),
            None => path_parent(path@) is None,
        },
{
    let parent = Path::new(path).parent()?;
    Some(parent.to_str()?.to_string())
}

/// `Path::join` of the standard library, from text to text: `name` adjoined
/// to `dir`. It looks at the text of the two alone, not at the file system.
#[verifier::external_body]
fn join_path(dir: &str, name: &str) -> (joined: String)
    ensures
        joined@ == path_join(dir@, name@),
{
    Path::new(dir).join(name).to_string_lossy().into_owned()
}

/// The directory that opening the focused entry leads to: the parent of the
/// shown directory for the parent entry, if it has one, and the directory
/// itself for another directory. A file leads nowhere.
pub open spec fn select_target(state: NavigationState) -> Option<Seq<char>> {
    let entry = state.listing[state.focus as int];
    if !entry.is_dir {
        None
    } else if entry.info.name == parent_name() {
        path_parent(state.path)
    } else {
        Some(path_join(state.path, entry.info.name))
    }
}

/// The step of the focus that a command stands for, if it is one.
pub open spec fn step_of(command: Command) -> Option<Direction> {
    match command {
        Command::MoveUp => Some(Direction::Up),
        Command::MoveDown => Some(Direction::Down),
        Command::MoveLeft => Some(Direction::Left),
        Command::MoveRight => Some(Direction::Right),
        _ => None,
    }
}

/// The state after a command. While a message waits, any command dismisses
/// it and does nothing else; otherwise a step moves the focus and every other
/// command leaves the state as it is.
pub open spec fn state_after(state: NavigationState, command: Command) -> NavigationState {
    if state.error is Some {
        NavigationState { error: None, ..state }
    } else {
        match step_of(command) {
            Some(dir) => state.moved(dir),
            None => state,
        }
    }
}

/// What becomes of a command in a state.
pub open spec fn event_of(state: NavigationState, command: Command) -> AppEvent {
    if state.error is Some {
        AppEvent::PROCESSED
    } else {
        match command {
            Command::Quit => AppEvent::QUIT,
            Command::Other => AppEvent::NONE,
            _ => AppEvent::PROCESSED,
        }
    }
}

/// The directory that a command asks to be read, if it asks for one.
pub open spec fn scan_request(state: NavigationState, command: Command) -> Option<Seq<char>> {
    if state.error is None && command == Command::Select {
        select_target(state)
    } else {
        None
    }
}

/// The state after the commands of `commands`, carried out in order.
pub open spec fn state_after_all(state: NavigationState, commands: Seq<Command>) -> NavigationState
    decreases commands.len(),
{
    if commands.len() == 0 {
        state
    } else {
        state_after(state_after_all(state, commands.drop_last()), commands.last())
    }
}

/// No command takes the focus off the listing: after any commands a valid
/// state is valid, and shows the directory that it showed before.
pub proof fn lemma_commands_keep_state_valid(state: NavigationState, commands: Seq<Command>)
    requires
        state.valid(),
    ensures
        state_after_all(state, commands).valid(),
        state_after_all(state, commands).listing == state.listing,
        state_after_all(state, commands).path == state.path,
        state_after_all(state, commands).focus < state.listing.len(),
    decreases commands.len(),
{
    if commands.len() > 0 {
        lemma_commands_keep_state_valid(state, commands.drop_last());
        let before = state_after_all(state, commands.drop_last());
        match step_of(commands.last()) {
            Some(dir) => {
                lemma_step_keeps_focus_valid(
                    dir,
                    before.focus as int,
                    before.listing.len() as int,
                    column_height(before.capacity as int),
                );
            },
            None => {},
        }
    }
}

/// The path of the directory that opening `entry` from `dir_path` leads to.
pub fn open_target(dir_path: &str, entry: &PathKind) -> (target: Option<String>)
    ensures
        match target {
            Some(path) => Some(path@),
            None => None,
        } == if !entry@.is_dir {
            None
        } else if entry@.info.name == parent_name() {
            path_parent(dir_path@)
        } else {
            Some(path_join(dir_path@, entry@.info.name))
        },
{
    match entry {
        PathKind::FILE(_) => None,
        PathKind::DIR(dir) => {
            if is_parent_name(dir.file_name.as_str()) {
                parent_of(dir_path)
            } else {
                Some(join_path(dir_path, dir.file_name.as_str()))
            }
        },
    }
}

/// Carries out a command of the user.
///
/// A waiting message is dismissed by any command, which then does nothing
/// else. Otherwise the four steps move the focus, `Select` on a directory
/// asks for that directory to be read, and `Quit` ends the browser.
pub fn main_key_event(app: &mut App, command: Command) -> (reply: KeyReply)
    ensures
        final(app)@ == state_after(old(app)@, command),
        final(app)@.valid(),
        reply.event == event_of(old(app)@, command),
        match reply.scan {
            Some(path) => Some(path@),
            None => None,
        } == scan_request(old(app)@, command),
{
    if app.has_error() {
        app.clear_error_message();
        return KeyReply { event: AppEvent::PROCESSED, scan: None };
    }
    match command {
        Command::Quit => KeyReply { event: AppEvent::QUIT, scan: None },
        Command::MoveDown => {
            app.move_focus(Direction::Down);
            KeyReply { event: AppEvent::PROCESSED, scan: None }
        },
        Command::MoveUp => {
            app.move_focus(Direction::Up);
            KeyReply { event: AppEvent::PROCESSED, scan: None }
        },
        Command::MoveRight => {
            app.move_focus(Direction::Right);
            KeyReply { event: AppEvent::PROCESSED, scan: None }
        },
        Command::MoveLeft => {
            app.move_focus(Direction::Left);
            KeyReply { event: AppEvent::PROCESSED, scan: None }
        },
        Command::Select => {
            let entry = app.focused_file();
            let dir_path = app.dir_path();
            let scan = open_target(dir_path.as_str(), &entry);
            KeyReply { event: AppEvent::PROCESSED, scan }
        },
        Command::Other => KeyReply { event: AppEvent::NONE, scan: None },
    }
}

/// Takes in what reading the directory `dir_path` came to, after
/// `main_key_event` asked for it.
///
/// Where the scan succeeded, the directory is shown with the focus on its
/// first entry. Where it failed, the directory shown before stays, and the
/// message of the failure waits to be dismissed.
pub fn directory_scanned(app: &mut App, dir_path: &str, probe: DirProbe) -> (event: AppEvent)
    ensures
        event == AppEvent::PROCESSED,
        final(app)@.valid(),
        match scan_failure(probe) {
            Some(failure) => final(app)@ == (NavigationState {
                error: Some(failure.spec_message()),
                ..old(app)@
            }),
            None => {
                &&& probe matches DirProbe::Entries(probes)
                &&& is_listing_of(final(app)@.listing, probes@)
                &&& final(app)@ == (NavigationState {
                    path: dir_path@,
                    listing: final(app)@.listing,
                    focus: 0,
                    ..old(app)@
                })
            },
        },
{
    match app.set_dir_path(dir_path, probe) {
        Ok(()) => {},
        Err(failure) => {
            let message = failure.message();
            app.set_error_message(message.as_str());
        },
    }
    AppEvent::PROCESSED
}

} // verus!
