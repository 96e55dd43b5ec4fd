//! The decisions of the loop that drives a session on a terminal: which
//! surface to take, what a drained command or an awaited input does to the
//! session, and when the loop draws and ends. The loop itself, with its
//! channels and its terminal, belongs to the caller.

use crate::config::constants::DEFAULT_INLINE_VIEWPORT_ROWS;
use crate::ui::tui::session::{Session, SessionV, TerminalEvent};
use crate::ui::tui::types::{opt_event_view, InlineCommand, InlineEvent, InlineEventV};
use vstd::prelude::*;

verus! {

/// Milliseconds between two polls for input.
pub const INPUT_POLL_INTERVAL_MS: u64 = 16;

/// Which surface the caller would like.
#[derive(Clone, Copy, Debug, PartialEq, Eq, Structural)]
pub enum UiSurfacePreference {
    Auto,
    Alternate,
    Inline,
}

/// The surface a session is drawn on: its rows, and whether it takes the
/// alternate screen.
#[derive(Clone, Copy, Debug, PartialEq, Eq, Structural)]
pub struct TerminalSurface {
    pub rows: u16,
    pub alternate: bool,
}

/// The larger of two row counts.
pub open spec fn more_rows(a: u16, b: u16) -> u16 {
    if a < b {
        b
    } else {
        a
    }
}

/// The rows of a surface: those of the terminal where the output is one
/// and its size is known and not zero; else the rows asked for, and never
/// fewer than a viewport has by default.
pub open spec fn surface_rows(inline_rows: u16, is_terminal: bool, size: Option<(u16, u16)>)
    -> u16 {
    match size {
        Some((_, rows)) if is_terminal && rows > 0 => rows,
        _ => more_rows(more_rows(inline_rows, 1), DEFAULT_INLINE_VIEWPORT_ROWS),
    }
}

impl TerminalSurface {
    /// The surface for a preference, the rows asked for, whether the
    /// output is a terminal, and the terminal's size in columns and rows
    /// where it could be had. The alternate screen is taken on a terminal
    /// unless the inline surface was preferred.
    pub fn detect(
        preference: UiSurfacePreference,
        inline_rows: u16,
        is_terminal: bool,
        size: Option<(u16, u16)>,
    ) -> (r: TerminalSurface)
        ensures
            r.rows == surface_rows(inline_rows, is_terminal, size),
            r.rows >= 1,
            r.alternate == (is_terminal && preference != UiSurfacePreference::Inline),
    {
        let asked: u16 = if inline_rows < 1 {
            1
        } else {
            inline_rows
        };
        let fallback: u16 = if asked < DEFAULT_INLINE_VIEWPORT_ROWS {
            DEFAULT_INLINE_VIEWPORT_ROWS
        } else {
            asked
        };
        let rows: u16 = match size {
            Some((_, rows)) => if is_terminal && rows > 0 {
                rows
            } else {
                fallback
            },
            None => fallback,
        };
        let alternate = match preference {
            UiSurfacePreference::Inline => false,
            _ => is_terminal,
        };
        TerminalSurface { rows, alternate }
    }

    pub fn rows(&self) -> (r: u16)
        ensures
            r == self.rows,
    {
        self.rows
    }

    pub fn use_alternate(&self) -> (r: bool)
        ensures
            r == self.alternate,
    {
        self.alternate
    }
}

/// What a look into the channel of commands found.
#[derive(Debug)]
pub enum CommandPoll {
    Command(InlineCommand),
    Empty,
    Disconnected,
}

/// What the wait for input ended with.
#[derive(Debug)]
pub enum InputPoll {
    Event(TerminalEvent),
    Closed,
    Timeout,
}

/// What the loop does next: whether it draws a frame, and whether it
/// ends.
#[derive(Clone, Copy, Debug, PartialEq, Eq, Structural)]
pub struct DriverStep {
    pub redraw: bool,
    pub exit: bool,
}

/// What an awaited input leads to: what the owner of the session is told,
/// and what the loop does next.
#[derive(Debug)]
pub struct InputStep {
    pub event: Option<InlineEvent>,
    pub next: DriverStep,
}

/// The session after a look into the channel of commands: a command is
/// taken; an empty or closed channel changes nothing.
pub open spec fn after_poll(session: SessionV, poll: CommandPoll) -> SessionV {
    match poll {
        CommandPoll::Command(command) => session.after_command(command@),
        _ => session,
    }
}

/// The session after the wait for input: an event is taken; a closed
/// channel or a timeout changes nothing.
pub open spec fn after_input(session: SessionV, poll: InputPoll) -> SessionV {
    match poll {
        InputPoll::Event(event) => session.after_event(event),
        _ => session,
    }
}

/// Hands the session what a look into the channel of commands found, and
/// says whether to look again: the channel is drained until it is empty
/// or closed. A closed channel does not end the session.
pub fn drain_command(session: &mut Session, poll: CommandPoll) -> (again: bool)
    requires
        old(session).wf(),
    ensures
        final(session).wf(),
        final(session)@ == after_poll(old(session)@, poll),
        again == (poll is Command),
{
    match poll {
        CommandPoll::Command(command) => {
            session.handle_command(command);
            true
        },
        _ => false,
    }
}

/// What the loop does once the commands are drained: it draws where a
/// frame is owed, which pays the debt, and ends where the session asked
/// to.
pub fn after_drain(session: &mut Session) -> (r: DriverStep)
    requires
        old(session).wf(),
    ensures
        final(session).wf(),
        final(session)@ == (SessionV { needs_redraw: false, ..old(session)@ }),
        r.redraw == old(session)@.needs_redraw,
        r.exit == old(session)@.should_exit,
{
    let redraw = session.take_redraw();
    DriverStep { redraw, exit: session.should_exit() }
}

/// Hands the session what the wait for input ended with. Only the
/// session's own wish ends the loop: neither a closed channel of input
/// nor a timeout does.
pub fn input_step(session: &mut Session, poll: InputPoll) -> (r: InputStep)
    requires
        old(session).wf(),
    ensures
        final(session).wf(),
        final(session)@ == (SessionV {
            needs_redraw: false,
            ..after_input(old(session)@, poll)
        }),
        r.next.redraw == after_input(old(session)@, poll).needs_redraw,
        r.next.exit == after_input(old(session)@, poll).should_exit,
        opt_event_view(r.event) == told_by(old(session)@, poll),
{
    let event = match poll {
        InputPoll::Event(event) => session.handle_event(event),
        _ => None,
    };
    let redraw = session.take_redraw();
    InputStep { event, next: DriverStep { redraw, exit: session.should_exit() } }
}

/// What the owner of the session is told after the wait for input: what
/// a key that was pressed tells, and nothing else.
pub open spec fn told_by(session: SessionV, poll: InputPoll) -> Option<InlineEventV> {
    match poll {
        InputPoll::Event(TerminalEvent::Key(key)) => if key.kind
            == crate::ui::tui::session::KeyEventKind::Release {
            None
        } else {
            session.event_for_key(key)
        },
        _ => None,
    }
}

/// The loop ends only where the session asked to: a session that did not
/// goes on whatever the channels do, as long as no command and no key
/// reaches it.
pub proof fn lemma_closed_channels_do_not_end_the_loop(session: SessionV)
    requires
        !session.should_exit,
    ensures
        !after_poll(session, CommandPoll::Disconnected).should_exit,
        !after_poll(session, CommandPoll::Empty).should_exit,
        !after_input(session, InputPoll::Closed).should_exit,
        !after_input(session, InputPoll::Timeout).should_exit,
{
}

/// A shutdown ends the loop: after it the session asks to leave and owes
/// a frame.
pub proof fn lemma_shutdown_ends_the_loop(session: SessionV)
    ensures
        session.after_command(crate::ui::tui::types::InlineCommandV::Shutdown).should_exit,
{
    reveal(SessionV::after_command);
}

} // verus!
