//! The output sink: drawing primitives are queued in order and handed to the
//! terminal driver as one batch, with `Flush` marking each commit point.

use vstd::prelude::*;

verus! {

/// The colors the panes draw with.
#[derive(Clone, Copy, Debug, PartialEq, Eq, Structural)]
pub enum Color {
    Reset,
    Black,
    White,
    Green,
    Yellow,
    Rgb { r: u8, g: u8, b: u8 },
}

/// One queued drawing primitive.
#[derive(Debug, PartialEq, Eq)]
pub enum Command {
    MoveTo(u16, u16),
    SetForeground(Color),
    SetBackground(Color),
    ResetColor,
    Print(String),
    Raw(Vec<u8>),
    ShowCursor,
    HideCursor,
    EnterFullScreen,
    ExitFullScreen,
    Flush,
}

/// What a command means, with its text and bytes as sequences.
pub enum CommandView {
    MoveTo(u16, u16),
    SetForeground(Color),
    SetBackground(Color),
    ResetColor,
    Print(Seq<char>),
    Raw(Seq<u8>),
    ShowCursor,
    HideCursor,
    EnterFullScreen,
    ExitFullScreen,
    Flush,
}

impl View for Command {
    type V = CommandView;

    open spec fn view(&self) -> CommandView {
        match self {
            Command::MoveTo(x, y) => CommandView::MoveTo(*x, *y),
            Command::SetForeground(c) => CommandView::SetForeground(*c),
            Command::SetBackground(c) => CommandView::SetBackground(*c),
            Command::ResetColor => CommandView::ResetColor,
            Command::Print(s) => CommandView::Print(s@),
            Command::Raw(b) => CommandView::Raw(b@),
            Command::ShowCursor => CommandView::ShowCursor,
            Command::HideCursor => CommandView::HideCursor,
            Command::EnterFullScreen => CommandView::EnterFullScreen,
            Command::ExitFullScreen => CommandView::ExitFullScreen,
            Command::Flush => CommandView::Flush,
        }
    }
}

/// The queue of drawing commands that every component renders through.
pub struct Console {
    log: Vec<Command>,
}

impl View for Console {
    type V = Seq<CommandView>;

    closed spec fn view(&self) -> Seq<CommandView> {
        self.log@.map_values(|c: Command| c@)
    }
}

impl Console {
    fn push(&mut self, c: Command)
        ensures
            final(self)@ == old(self)@.push(c@),
    {
        self.log.push(c);
        assert(self@ =~= old(self)@.push(c@));
    }

    pub fn new() -> (r: Self)
        ensures
            r@ == Seq::<CommandView>::empty(),
    {
        let r = Console { log: Vec::new() };
        assert(r@ =~= Seq::<CommandView>::empty());
        r
    }

    /// Switches to the alternate screen in raw mode with a hidden cursor,
    /// at once.
    pub fn enter_full_screen(&mut self)
        ensures
            final(self)@ == old(self)@.push(CommandView::EnterFullScreen).push(CommandView::Flush),
    {
        self.push(Command::EnterFullScreen);
        self.push(Command::Flush);
    }

    /// Restores the cursor, cooked mode and the main screen, at once.
    pub fn exit_full_screen(&mut self)
        ensures
            final(self)@ == old(self)@.push(CommandView::ExitFullScreen).push(CommandView::Flush),
    {
        self.push(Command::ExitFullScreen);
        self.push(Command::Flush);
    }

    pub fn set_fg_color(&mut self, fg: Color)
        ensures
            final(self)@ == old(self)@.push(CommandView::SetForeground(fg)),
    {
        self.push(Command::SetForeground(fg));
    }

    pub fn set_bg_color(&mut self, bg: Color)
        ensures
            final(self)@ == old(self)@.push(CommandView::SetBackground(bg)),
    {
        self.push(Command::SetBackground(bg));
    }

    pub fn set_colors(&mut self, fg: Color, bg: Color)
        ensures
            final(self)@ == old(self)@.push(CommandView::SetForeground(fg)).push(
                CommandView::SetBackground(bg),
            ),
    {
        self.set_fg_color(fg);
        self.set_bg_color(bg);
    }

    pub fn reset_color(&mut self)
        ensures
            final(self)@ == old(self)@.push(CommandView::ResetColor),
    {
        self.push(Command::ResetColor);
    }

    pub fn move_to(&mut self, x: u16, y: u16)
        ensures
            final(self)@ == old(self)@.push(CommandView::MoveTo(x, y)),
    {
        self.push(Command::MoveTo(x, y));
    }

    /// Queues text to be printed at the terminal cursor.
    pub fn write(&mut self, v: &str)
        ensures
            final(self)@ == old(self)@.push(CommandView::Print(v@)),
    {
        self.push(Command::Print(v.to_owned()));
    }

    /// Queues bytes that reach the terminal as they are.
    pub fn write_raw(&mut self, v: &[u8])
        ensures
            final(self)@ == old(self)@.push(CommandView::Raw(v@)),
    {
        self.push(Command::Raw(vstd::slice::slice_to_vec(v)));
    }

    pub fn hide_cursor(&mut self)
        ensures
            final(self)@ == old(self)@.push(CommandView::HideCursor),
    {
        self.push(Command::HideCursor);
    }

    pub fn show_cursor(&mut self)
        ensures
            final(self)@ == old(self)@.push(CommandView::ShowCursor),
    {
        self.push(Command::ShowCursor);
    }

    /// Marks the end of a batch: everything queued so far is committed.
    pub fn flush(&mut self)
        ensures
            final(self)@ == old(self)@.push(CommandView::Flush),
    {
        self.push(Command::Flush);
    }

    /// Hands every queued command to the terminal driver, oldest first, and
    /// leaves the queue empty.
    pub fn take_commands(&mut self) -> (r: Vec<Command>)
        ensures
            r@.map_values(|c: Command| c@) == old(self)@,
            final(self)@ == Seq::<CommandView>::empty(),
    {
        let mut r: Vec<Command> = Vec::new();
        std::mem::swap(&mut r, &mut self.log);
        assert(self@ =~= Seq::<CommandView>::empty());
        r
    }
}

} // verus!
