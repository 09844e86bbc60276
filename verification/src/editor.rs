//! The edit session: it owns the document buffer and a quit flag, and turns
//! each decoded input event into the buffer operation the event asks for.
//! Reading events and painting the screen belong to the caller; every
//! decision about what an event does to the document is made here.

use vstd::prelude::*;

use crate::buffer::{
    backspace_spec, delete_spec, insert_char_spec, load_spec, move_caret_spec, Buffer, BufferView,
};

verus! {

/// A decoded key press. `Char` carries whether the control modifier was held:
/// control-Q is the quit signal, any other character is inserted as typed.
#[derive(Clone, Copy)]
pub enum Key {
    Char { c: char, ctrl: bool },
    Tab,
    Enter,
    Left,
    Right,
    Up,
    Down,
    Backspace,
    Delete,
}

/// One round of input: a key press, no event (a poll timeout or an event the
/// session does not recognize), or a failed read, which ends the session.
#[derive(Clone, Copy)]
pub enum Input {
    Key(Key),
    NoInput,
    ReadError,
}

/// What one command-line argument count calls for: no argument opens an empty
/// document, one names a file to load, and anything more is a usage error on
/// which no session is started.
#[derive(Clone, Copy)]
pub enum CliAction {
    StartEmpty,
    OpenPath,
    UsageError,
}

/// Decides what to do from the number of command-line arguments beyond the
/// program name.
pub fn parse_args(arg_count: usize) -> (a: CliAction)
    ensures
        arg_count == 0 ==> a is StartEmpty,
        arg_count == 1 ==> a is OpenPath,
        arg_count > 1 ==> a is UsageError,
{
    if arg_count == 0 {
        CliAction::StartEmpty
    } else if arg_count == 1 {
        CliAction::OpenPath
    } else {
        CliAction::UsageError
    }
}

/// The effect of one input on the session: the buffer after the operation the
/// input asks for, and the quit flag after it. Control-Q and a read error
/// request quitting; a tab inserts four spaces; the line-break key splits the
/// line; arrows move the cursor one step; everything else edits at the cursor
/// or does nothing.
pub open spec fn step_spec(b: BufferView, quit: bool, inp: Input) -> (BufferView, bool) {
    match inp {
        Input::Key(k) => match k {
            Key::Char { c, ctrl } => if ctrl && c == 'Q' {
                (b, true)
            } else {
                (insert_char_spec(b, c), quit)
            },
            Key::Tab => (
                insert_char_spec(
                    insert_char_spec(insert_char_spec(insert_char_spec(b, ' '), ' '), ' '),
                    ' ',
                ),
                quit,
            ),
            Key::Enter => (insert_char_spec(b, '\n'), quit),
            Key::Left => (move_caret_spec(b, 0, -1), quit),
            Key::Right => (move_caret_spec(b, 0, 1), quit),
            Key::Up => (move_caret_spec(b, -1, 0), quit),
            Key::Down => (move_caret_spec(b, 1, 0), quit),
            Key::Backspace => (backspace_spec(b), quit),
            Key::Delete => (delete_spec(b), quit),
        },
        Input::NoInput => (b, quit),
        Input::ReadError => (b, true),
    }
}

/// The edit session: the document buffer and the quit flag. The session's
/// loop — poll, decide, paint — is driven from outside; this type makes the
/// decisions.
pub struct Editor {
    pub buffer: Buffer,
    pub should_quit: bool,
}

impl Editor {
    /// A fresh session for a viewport of `w` columns and `h` rows: an empty
    /// document and no quit request.
    pub fn new(w: usize, h: usize) -> (e: Editor)
        requires
            w >= 1,
            h >= 2,
        ensures
            e.buffer@.wf(),
            e.buffer@.lines == seq![Seq::<char>::empty()],
            e.buffer@.cx == 0 && e.buffer@.cy == 0,
            e.buffer@.roff == 0 && e.buffer@.coff == 0,
            e.buffer@.w == w && e.buffer@.h == h,
            !e.should_quit,
    {
        Editor { buffer: Buffer::new(w, h), should_quit: false }
    }

    /// Replaces the document with `content` (one entry per text line) and
    /// resets the cursor and viewport offsets to the origin.
    pub fn open(&mut self, content: Vec<Vec<char>>)
        requires
            old(self).buffer@.wf(),
        ensures
            final(self).buffer@ == load_spec(old(self).buffer@, content.deep_view()),
            final(self).buffer@.wf(),
            final(self).should_quit == old(self).should_quit,
    {
        self.buffer.load(content);
    }

    /// Applies one input to the session, exactly as [`step_spec`] says. The
    /// size bounds only keep line and document lengths within the machine
    /// word across an insertion.
    pub fn handle_input(&mut self, inp: Input)
        requires
            old(self).buffer@.wf(),
            old(self).buffer@.lines.len() < usize::MAX,
            old(self).buffer@.lines[old(self).buffer@.cy as int].len() + 4 <= usize::MAX,
        ensures
            (final(self).buffer@, final(self).should_quit) == step_spec(
                old(self).buffer@,
                old(self).should_quit,
                inp,
            ),
            final(self).buffer@.wf(),
    {
        match inp {
            Input::Key(k) => match k {
                Key::Char { c, ctrl } => {
                    if ctrl && c == 'Q' {
                        self.should_quit = true;
                    } else {
                        self.buffer.push(c);
                    }
                },
                Key::Tab => {
                    self.buffer.push(' ');
                    self.buffer.push(' ');
                    self.buffer.push(' ');
                    self.buffer.push(' ');
                },
                Key::Enter => {
                    self.buffer.push('\n');
                },
                Key::Left => {
                    self.buffer.move_caret(0, -1);
                },
                Key::Right => {
                    self.buffer.move_caret(0, 1);
                },
                Key::Up => {
                    self.buffer.move_caret(-1, 0);
                },
                Key::Down => {
                    self.buffer.move_caret(1, 0);
                },
                Key::Backspace => {
                    self.buffer.backspace();
                },
                Key::Delete => {
                    self.buffer.delete();
                },
            },
            Input::NoInput => {},
            Input::ReadError => {
                self.should_quit = true;
            },
        }
    }
}

} // verus!
