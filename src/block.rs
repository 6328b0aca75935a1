//! Viewports: bordered or bare rectangles of the screen, each with its own
//! cursor, and a writer that interprets a minimal escape-sequence subset and
//! never lets the cursor leave the inner area.

use vstd::prelude::*;
use vstd::string::StringSliceAdditionalSpecFns;
use crate::console::{Color, CommandView, Console};

verus! {

pub const BOX_LIGHT_BL_CORNER: &'static str = "└";

pub const BOX_LIGHT_BR_CORNER: &'static str = "┘";

pub const BOX_LIGHT_TR_CORNER: &'static str = "┐";

pub const BOX_LIGHT_TL_CORNER: &'static str = "┌";

pub const BOX_LIGHT_VERTICAL: &'static str = "│";

pub const BOX_LIGHT_HORIZONTAL: &'static str = "─";

pub const CR: u8 = 0x0D;

pub const LF: u8 = 0x0A;

pub const ESC: u8 = 0x1B;

/// Focus state of a viewport.
#[derive(Clone, Copy, Debug, PartialEq, Eq, Structural)]
pub enum BlockState {
    Inactive,
    Selected,
    Active,
}

/// The geometry and cursor of a viewport. `x`, `y`, `width`, `height` are
/// the inner area; the `full_` fields are the outer rectangle, border
/// included.
pub struct BlockView {
    pub x: int,
    pub y: int,
    pub width: int,
    pub height: int,
    pub full_x: int,
    pub full_y: int,
    pub full_width: int,
    pub full_height: int,
    pub cursor_x: int,
    pub cursor_y: int,
    pub has_border: bool,
    pub state: BlockState,
}

impl BlockView {
    pub open spec fn wf(self) -> bool {
        &&& 1 <= self.width
        &&& 1 <= self.height
        &&& 0 <= self.full_x
        &&& 0 <= self.full_y
        &&& self.full_x + self.full_width <= u16::MAX
        &&& self.full_y + self.full_height <= u16::MAX
        &&& if self.has_border {
            &&& self.x == self.full_x + 1
            &&& self.y == self.full_y + 1
            &&& self.width == self.full_width - 2
            &&& self.height == self.full_height - 2
        } else {
            &&& self.x == self.full_x
            &&& self.y == self.full_y
            &&& self.width == self.full_width
            &&& self.height == self.full_height
        }
        &&& self.x <= self.cursor_x < self.x + self.width
        &&& self.y <= self.cursor_y < self.y + self.height
    }

    pub open spec fn with_cursor(self, cx: int, cy: int) -> BlockView {
        BlockView { cursor_x: cx, cursor_y: cy, ..self }
    }
}

/// `a` and `b` differ at most in their cursors.
pub open spec fn same_frame(a: BlockView, b: BlockView) -> bool {
    a == b.with_cursor(a.cursor_x, a.cursor_y)
}

/// The viewport a call to `Block::new` builds.
pub open spec fn new_view(x: u16, y: u16, width: u16, height: u16, border: bool) -> BlockView {
    let (ix, iy, iw, ih) = if border {
        (x + 1, y + 1, width - 2, height - 2)
    } else {
        (x as int, y as int, width as int, height as int)
    };
    BlockView {
        x: ix,
        y: iy,
        width: iw,
        height: ih,
        full_x: x as int,
        full_y: y as int,
        full_width: width as int,
        full_height: height as int,
        cursor_x: ix,
        cursor_y: iy,
        has_border: border,
        state: BlockState::Inactive,
    }
}

/// `n` copies of `s`, one after the other.
pub open spec fn repeat_chars(s: Seq<char>, n: nat) -> Seq<char>
    decreases n,
{
    if n == 0 {
        Seq::empty()
    } else {
        repeat_chars(s, (n - 1) as nat) + s
    }
}

pub open spec fn border_color(state: BlockState) -> Seq<CommandView> {
    match state {
        BlockState::Active => seq![CommandView::SetForeground(Color::Green)],
        BlockState::Selected => seq![CommandView::SetForeground(Color::Yellow)],
        BlockState::Inactive => Seq::empty(),
    }
}

/// The two edge glyphs of the outer rows `1..=n`.
pub open spec fn border_sides(v: BlockView, n: nat) -> Seq<CommandView>
    decreases n,
{
    if n == 0 {
        Seq::empty()
    } else {
        border_sides(v, (n - 1) as nat) + seq![
            CommandView::MoveTo(v.full_x as u16, (v.full_y + n) as u16),
            CommandView::Print(BOX_LIGHT_VERTICAL@),
            CommandView::MoveTo((v.full_x + v.full_width - 1) as u16, (v.full_y + n) as u16),
            CommandView::Print(BOX_LIGHT_VERTICAL@),
        ]
    }
}

/// The box drawn around the outer rectangle, in the focus state's color.
pub open spec fn border_commands(v: BlockView) -> Seq<CommandView> {
    let edge = repeat_chars(BOX_LIGHT_HORIZONTAL@, v.width as nat);
    border_color(v.state) + seq![
        CommandView::MoveTo(v.full_x as u16, v.full_y as u16),
        CommandView::Print(BOX_LIGHT_TL_CORNER@),
        CommandView::Print(edge),
        CommandView::Print(BOX_LIGHT_TR_CORNER@),
    ] + border_sides(v, v.height as nat) + seq![
        CommandView::MoveTo(v.full_x as u16, (v.full_y + v.full_height - 1) as u16),
        CommandView::Print(BOX_LIGHT_BL_CORNER@),
        CommandView::Print(edge),
        CommandView::Print(BOX_LIGHT_BR_CORNER@),
        CommandView::ResetColor,
    ]
}

/// What rendering a viewport draws: its border, if it has one.
pub open spec fn render_commands(v: BlockView) -> Seq<CommandView> {
    if v.has_border {
        border_commands(v)
    } else {
        Seq::empty()
    }
}

/// Rows `0..n` of the inner area overwritten with blanks.
pub open spec fn blank_rows(v: BlockView, n: nat) -> Seq<CommandView>
    decreases n,
{
    if n == 0 {
        Seq::empty()
    } else {
        blank_rows(v, (n - 1) as nat) + seq![
            CommandView::MoveTo(v.x as u16, (v.y + n - 1) as u16),
            CommandView::Print(repeat_chars(seq![' '], v.width as nat)),
        ]
    }
}

/// Rows `from..n` of the inner area overwritten with blanks.
pub open spec fn blank_rows_from(v: BlockView, from: int, n: int) -> Seq<CommandView>
    decreases n - from,
{
    if n <= from {
        Seq::empty()
    } else {
        blank_rows_from(v, from, n - 1) + seq![
            CommandView::MoveTo(v.x as u16, (v.y + n - 1) as u16),
            CommandView::Print(repeat_chars(seq![' '], v.width as nat)),
        ]
    }
}

// ---------------------------------------------------------------------------
// The writer's state machine.

/// The writer's state between two bytes: the cursor, the escape sequence
/// being gathered (`None` outside one), and whether the bottom was passed.
pub struct WriteState {
    pub cx: int,
    pub cy: int,
    pub escape: Option<Seq<u8>>,
    pub stopped: bool,
}

pub open spec fn start_state(v: BlockView) -> WriteState {
    WriteState { cx: v.cursor_x, cy: v.cursor_y, escape: None, stopped: false }
}

pub open spec fn is_digit(b: u8) -> bool {
    0x30 <= b <= 0x39
}

pub open spec fn is_letter(b: u8) -> bool {
    (0x41 <= b <= 0x5A) || (0x61 <= b <= 0x7A)
}

/// A non-empty run of decimal digits.
pub open spec fn is_number(s: Seq<u8>) -> bool {
    s.len() > 0 && forall|i: int| 0 <= i < s.len() ==> is_digit(#[trigger] s[i])
}

pub open spec fn number_value(s: Seq<u8>) -> nat
    decreases s.len(),
{
    if s.len() == 0 {
        0
    } else {
        number_value(s.drop_last()) * 10 + (s.last() - 0x30) as nat
    }
}

/// `body` reads `row;col` with the semicolon at `k`.
pub open spec fn splits_at(body: Seq<u8>, k: int) -> bool {
    &&& 0 <= k < body.len()
    &&& body[k] == 0x3B
    &&& is_number(body.subrange(0, k))
    &&& is_number(body.subrange(k + 1, body.len() as int))
}

/// The row and column of a cursor-position request `ESC [ row ; col H`, or
/// `None` when the sequence is not one.
pub open spec fn cursor_request(q: Seq<u8>) -> Option<(nat, nat)> {
    if q.len() >= 3 && q[0] == ESC && q[1] == 0x5B && q.last() == 0x48 {
        let body = q.subrange(2, q.len() - 1);
        if exists|k: int| splits_at(body, k) {
            let k = choose|k: int| splits_at(body, k);
            Some(
                (
                    number_value(body.subrange(0, k)),
                    number_value(body.subrange(k + 1, body.len() as int)),
                ),
            )
        } else {
            None
        }
    } else {
        None
    }
}

/// The 0-based offset that the 1-based coordinate `n` maps to inside a
/// span of `size` cells, clipped to it.
pub open spec fn clip(n: nat, size: int) -> int {
    if n == 0 {
        0
    } else if n <= size {
        n - 1
    } else {
        size - 1
    }
}

/// Column 0 of the next row; at the last row the cursor stays on it and
/// the rest of the input is dropped.
pub open spec fn line_feed(v: BlockView, s: WriteState) -> WriteState {
    if s.cy + 1 < v.y + v.height {
        WriteState { cx: v.x, cy: s.cy + 1, ..s }
    } else {
        WriteState { cx: v.x, stopped: true, ..s }
    }
}

/// One byte of input: the next state and the commands it queues.
pub open spec fn write_step(v: BlockView, s: WriteState, b: u8) -> (WriteState, Seq<CommandView>) {
    if s.stopped {
        (s, Seq::empty())
    } else if b == CR {
        (WriteState { cx: v.x, ..s }, seq![CommandView::MoveTo(v.x as u16, s.cy as u16)])
    } else if b == LF {
        let t = line_feed(v, s);
        (t, seq![CommandView::MoveTo(t.cx as u16, t.cy as u16)])
    } else if b == ESC {
        (WriteState { escape: Some(seq![ESC]), ..s }, Seq::empty())
    } else {
        match s.escape {
            Some(q) => {
                let q2 = q.push(b);
                if b == 0x48 {
                    match cursor_request(q2) {
                        Some((row, col)) => (
                            WriteState {
                                cx: v.x + clip(col, v.width),
                                cy: v.y + clip(row, v.height),
                                escape: None,
                                ..s
                            },
                            Seq::empty(),
                        ),
                        None => (WriteState { escape: None, ..s }, Seq::empty()),
                    }
                } else if is_letter(b) {
                    (WriteState { escape: None, ..s }, seq![CommandView::Raw(q2)])
                } else {
                    (WriteState { escape: Some(q2), ..s }, Seq::empty())
                }
            },
            None => {
                let out = seq![
                    CommandView::MoveTo(s.cx as u16, s.cy as u16),
                    CommandView::Raw(seq![b]),
                ];
                if s.cx + 1 < v.x + v.width {
                    (WriteState { cx: s.cx + 1, ..s }, out)
                } else {
                    let t = line_feed(v, s);
                    (t, out.push(CommandView::MoveTo(t.cx as u16, t.cy as u16)))
                }
            },
        }
    }
}

/// The state after `bytes` and everything they queued.
pub open spec fn write_run(v: BlockView, s: WriteState, bytes: Seq<u8>) -> (
    WriteState,
    Seq<CommandView>,
)
    decreases bytes.len(),
{
    if bytes.len() == 0 {
        (s, Seq::empty())
    } else {
        let (s1, o1) = write_run(v, s, bytes.drop_last());
        let (s2, o2) = write_step(v, s1, bytes.last());
        (s2, o1 + o2)
    }
}

/// The viewport and the commands after a call of `write` with `bytes`.
pub open spec fn write_effect(v: BlockView, bytes: Seq<u8>) -> (BlockView, Seq<CommandView>) {
    let run = write_run(v, start_state(v), bytes);
    (v.with_cursor(run.0.cx, run.0.cy), run.1.push(CommandView::Flush))
}

// ---------------------------------------------------------------------------

/// A rectangular region of the screen with its own cursor.
pub struct Block {
    x: u16,
    y: u16,
    full_x: u16,
    full_y: u16,
    width: u16,
    height: u16,
    full_width: u16,
    full_height: u16,
    cursor_x: u16,
    cursor_y: u16,
    has_border: bool,
    state: BlockState,
}

impl View for Block {
    type V = BlockView;

    closed spec fn view(&self) -> BlockView {
        BlockView {
            x: self.x as int,
            y: self.y as int,
            width: self.width as int,
            height: self.height as int,
            full_x: self.full_x as int,
            full_y: self.full_y as int,
            full_width: self.full_width as int,
            full_height: self.full_height as int,
            cursor_x: self.cursor_x as int,
            cursor_y: self.cursor_y as int,
            has_border: self.has_border,
            state: self.state,
        }
    }
}

impl Block {
    pub open spec fn wf(&self) -> bool {
        self@.wf()
    }

    /// A viewport whose outer rectangle starts at `(x, y)` and spans
    /// `width` by `height` cells; a border takes one cell on each side.
    pub fn new(x: u16, y: u16, width: u16, height: u16, border: bool) -> (r: Self)
        requires
            border ==> width >= 3 && height >= 3,
            width >= 1,
            height >= 1,
            x + width <= u16::MAX,
            y + height <= u16::MAX,
        ensures
            r.wf(),
            r@ == new_view(x, y, width, height, border),
    {
        let (inner_x, inner_y, aw, ah) = if border {
            (x + 1, y + 1, width - 2, height - 2)
        } else {
            (x, y, width, height)
        };
        Block {
            x: inner_x,
            y: inner_y,
            full_x: x,
            full_y: y,
            width: aw,
            height: ah,
            full_width: width,
            full_height: height,
            cursor_x: inner_x,
            cursor_y: inner_y,
            has_border: border,
            state: BlockState::Inactive,
        }
    }

    /// Width of the inner area.
    pub fn width(&self) -> (r: u16)
        ensures
            r == self@.width,
    {
        self.width
    }

    /// Height of the inner area.
    pub fn height(&self) -> (r: u16)
        ensures
            r == self@.height,
    {
        self.height
    }

    pub fn cursor(&self) -> (r: (u16, u16))
        ensures
            r.0 == self@.cursor_x,
            r.1 == self@.cursor_y,
    {
        (self.cursor_x, self.cursor_y)
    }

    pub fn state(&self) -> (r: BlockState)
        ensures
            r == self@.state,
    {
        self.state
    }

    pub fn set_state(&mut self, state: BlockState)
        requires
            old(self).wf(),
        ensures
            final(self).wf(),
            final(self)@ == (BlockView { state, ..old(self)@ }),
    {
        self.state = state;
    }

    pub fn is_selected(&self) -> (r: bool)
        ensures
            r == (self@.state == BlockState::Selected),
    {
        if let BlockState::Selected = self.state {
            true
        } else {
            false
        }
    }

    pub fn is_active(&self) -> (r: bool)
        ensures
            r == (self@.state == BlockState::Active),
    {
        if let BlockState::Active = self.state {
            true
        } else {
            false
        }
    }

    /// Column 0 of the current row.
    pub fn to_line_start(&mut self, console: &mut Console)
        requires
            old(self).wf(),
        ensures
            final(self).wf(),
            final(self)@ == old(self)@.with_cursor(old(self)@.x, old(self)@.cursor_y),
            final(console)@ == old(console)@.push(
                CommandView::MoveTo(old(self)@.x as u16, old(self)@.cursor_y as u16),
            ),
    {
        self.cursor_x = self.x;
        console.move_to(self.cursor_x, self.cursor_y);
    }

    /// Column 0 of the next row; on the last row, column 0 of that row.
    /// Tells whether there was a next row.
    pub fn next_line(&mut self, console: &mut Console) -> (moved: bool)
        requires
            old(self).wf(),
        ensures
            final(self).wf(),
            moved == (old(self)@.cursor_y + 1 < old(self)@.y + old(self)@.height),
            final(self)@ == old(self)@.with_cursor(
                old(self)@.x,
                if moved {
                    old(self)@.cursor_y + 1
                } else {
                    old(self)@.cursor_y
                },
            ),
            final(console)@ == old(console)@.push(
                CommandView::MoveTo(final(self)@.cursor_x as u16, final(self)@.cursor_y as u16),
            ),
    {
        let moved = self.cursor_y + 1 < self.y + self.height;
        if moved {
            self.cursor_y = self.cursor_y + 1;
        }
        self.cursor_x = self.x;
        console.move_to(self.cursor_x, self.cursor_y);
        moved
    }

    /// One column to the right, staying on the last column.
    pub fn next_col(&mut self, console: &mut Console)
        requires
            old(self).wf(),
        ensures
            final(self).wf(),
            final(self)@ == old(self)@.with_cursor(
                if old(self)@.cursor_x + 1 < old(self)@.x + old(self)@.width {
                    old(self)@.cursor_x + 1
                } else {
                    old(self)@.cursor_x
                },
                old(self)@.cursor_y,
            ),
            final(console)@ == old(console)@.push(
                CommandView::MoveTo(final(self)@.cursor_x as u16, final(self)@.cursor_y as u16),
            ),
    {
        if self.cursor_x + 1 < self.x + self.width {
            self.cursor_x = self.cursor_x + 1;
        }
        console.move_to(self.cursor_x, self.cursor_y);
    }

    /// Back to the inner origin, without touching the screen.
    pub fn reset(&mut self)
        requires
            old(self).wf(),
        ensures
            final(self).wf(),
            final(self)@ == old(self)@.with_cursor(old(self)@.x, old(self)@.y),
    {
        self.cursor_x = self.x;
        self.cursor_y = self.y;
    }

    /// Blanks the inner area.
    pub fn empty(&mut self, console: &mut Console)
        requires
            old(self).wf(),
        ensures
            final(self)@ == old(self)@,
            final(console)@ == old(console)@ + blank_rows(old(self)@, old(self)@.height as nat),
    {
        proof {
            reveal_strlit(" ");
            assert(" "@ =~= seq![' ']);
        }
        let blank = repeat_str(" ", self.width);
        let mut row: u16 = 0;
        while row < self.height
            invariant
                self.wf(),
                0 <= row <= self.height,
                blank@ == repeat_chars(seq![' '], self@.width as nat),
                console@ == old(console)@ + blank_rows(self@, row as nat),
            decreases self.height - row,
        {
            console.move_to(self.x, self.y + row);
            console.write(blank.as_str());
            row = row + 1;
            proof {
                assert(console@ =~= old(console)@ + blank_rows(self@, row as nat));
            }
        }
    }

    /// Draws the box around the outer rectangle.
    pub fn draw_border(&mut self, console: &mut Console)
        requires
            old(self).wf(),
            old(self)@.has_border,
        ensures
            final(self)@ == old(self)@,
            final(console)@ == old(console)@ + border_commands(old(self)@),
    {
        let ghost start = console@;
        if self.is_active() {
            console.set_fg_color(Color::Green);
        } else if self.is_selected() {
            console.set_fg_color(Color::Yellow);
        }
        assert(console@ =~= start + border_color(self@.state));
        let edge = repeat_str(BOX_LIGHT_HORIZONTAL, self.width);

        console.move_to(self.full_x, self.full_y);
        console.write(BOX_LIGHT_TL_CORNER);
        console.write(edge.as_str());
        console.write(BOX_LIGHT_TR_CORNER);
        let ghost top = console@;

        let mut row: u16 = 1;
        while row <= self.height
            invariant
                self.wf(),
                self@.has_border,
                1 <= row <= self.height + 1,
                console@ == top + border_sides(self@, (row - 1) as nat),
            decreases self.height + 1 - row,
        {
            console.move_to(self.full_x, self.full_y + row);
            console.write(BOX_LIGHT_VERTICAL);
            console.move_to(self.full_x + self.full_width - 1, self.full_y + row);
            console.write(BOX_LIGHT_VERTICAL);
            row = row + 1;
            proof {
                assert(console@ =~= top + border_sides(self@, (row - 1) as nat));
            }
        }

        console.move_to(self.full_x, self.full_y + self.full_height - 1);
        console.write(BOX_LIGHT_BL_CORNER);
        console.write(edge.as_str());
        console.write(BOX_LIGHT_BR_CORNER);
        console.reset_color();
        assert(console@ =~= start + border_commands(self@));
    }

    /// Draws what the viewport owns outside its content: its border.
    pub fn render(&mut self, console: &mut Console)
        requires
            old(self).wf(),
        ensures
            final(self)@ == old(self)@,
            final(console)@ == old(console)@ + render_commands(old(self)@),
    {
        if self.has_border {
            self.draw_border(console);
        } else {
            assert(console@ =~= old(console)@ + render_commands(self@));
        }
    }

    /// Puts the terminal cursor where the viewport's cursor is, and commits.
    pub fn reset_cursor(&self, console: &mut Console)
        ensures
            final(console)@ == old(console)@.push(
                CommandView::MoveTo(self@.cursor_x as u16, self@.cursor_y as u16),
            ).push(CommandView::Flush),
    {
        console.move_to(self.cursor_x, self.cursor_y);
        console.flush();
    }

    /// The cursor at column `col` of row `line` of the inner area, clipped
    /// to it, and the terminal cursor there.
    pub fn move_to(&mut self, console: &mut Console, col: u16, line: u16)
        requires
            old(self).wf(),
        ensures
            final(self).wf(),
            final(self)@ == old(self)@.with_cursor(
                old(self)@.x + if col < old(self)@.width {
                    col as int
                } else {
                    old(self)@.width - 1
                },
                old(self)@.y + if line < old(self)@.height {
                    line as int
                } else {
                    old(self)@.height - 1
                },
            ),
            final(console)@ == old(console)@.push(
                CommandView::MoveTo(final(self)@.cursor_x as u16, final(self)@.cursor_y as u16),
            ),
    {
        let c = if col < self.width {
            col
        } else {
            self.width - 1
        };
        let l = if line < self.height {
            line
        } else {
            self.height - 1
        };
        self.cursor_x = self.x + c;
        self.cursor_y = self.y + l;
        console.move_to(self.cursor_x, self.cursor_y);
    }

    /// Blanks row `line` of the inner area.
    pub fn empty_line(&mut self, console: &mut Console, line: u16)
        requires
            old(self).wf(),
            line < old(self)@.height,
        ensures
            final(self)@ == old(self)@,
            final(console)@ == old(console)@ + seq![
                CommandView::MoveTo(old(self)@.x as u16, (old(self)@.y + line) as u16),
                CommandView::Print(repeat_chars(seq![' '], old(self)@.width as nat)),
            ],
    {
        proof {
            reveal_strlit(" ");
            assert(" "@ =~= seq![' ']);
        }
        let blank = repeat_str(" ", self.width);
        console.move_to(self.x, self.y + line);
        console.write(blank.as_str());
        assert(console@ =~= old(console)@ + seq![
            CommandView::MoveTo(old(self)@.x as u16, (old(self)@.y + line) as u16),
            CommandView::Print(repeat_chars(seq![' '], old(self)@.width as nat)),
        ]);
    }

    /// Blanks the rows of the inner area from row `line` on.
    pub fn empty_after(&mut self, console: &mut Console, line: usize)
        requires
            old(self).wf(),
        ensures
            final(self)@ == old(self)@,
            final(console)@ == old(console)@ + blank_rows_from(
                old(self)@,
                line as int,
                old(self)@.height,
            ),
    {
        proof {
            reveal_strlit(" ");
            assert(" "@ =~= seq![' ']);
        }
        let blank = repeat_str(" ", self.width);
        if line >= self.height as usize {
            assert(console@ =~= old(console)@ + blank_rows_from(self@, line as int, self@.height));
            return ;
        }
        let mut row: u16 = line as u16;
        while row < self.height
            invariant
                self.wf(),
                line <= row <= self.height,
                blank@ == repeat_chars(seq![' '], self@.width as nat),
                console@ == old(console)@ + blank_rows_from(self@, line as int, row as int),
            decreases self.height - row,
        {
            console.move_to(self.x, self.y + row);
            console.write(blank.as_str());
            row = row + 1;
            proof {
                assert(console@ =~= old(console)@ + blank_rows_from(self@, line as int, row as int));
            }
        }
    }

    /// Writes `buf` at the cursor. Carriage return and line feed move the
    /// cursor; `ESC [ row ; col H` places it inside the viewport; any other
    /// escape sequence ending in a letter is passed through as it is; every
    /// other byte is drawn and advances the cursor, wrapping at the right
    /// edge. Past the last row the rest of `buf` is dropped.
    pub fn write(&mut self, console: &mut Console, buf: &[u8])
        requires
            old(self).wf(),
        ensures
            final(self).wf(),
            final(self)@ == write_effect(old(self)@, buf@).0,
            final(console)@ == old(console)@ + write_effect(old(self)@, buf@).1,
            final(self)@.x <= final(self)@.cursor_x < final(self)@.x + final(self)@.width,
            final(self)@.y <= final(self)@.cursor_y < final(self)@.y + final(self)@.height,
    {
        let ghost v = self@;
        let mut in_escape = false;
        let mut escape_seq: Vec<u8> = Vec::new();
        let mut stopped = false;
        let mut i: usize = 0;
        while i < buf.len()
            invariant
                0 <= i <= buf@.len(),
                v.wf(),
                self.wf(),
                self@ == v.with_cursor(self@.cursor_x, self@.cursor_y),
                write_run(v, start_state(v), buf@.subrange(0, i as int)).0 == (WriteState {
                    cx: self@.cursor_x,
                    cy: self@.cursor_y,
                    escape: if in_escape {
                        Some(escape_seq@)
                    } else {
                        None
                    },
                    stopped,
                }),
                console@ == old(console)@ + write_run(v, start_state(v), buf@.subrange(0, i as int)).1,
            decreases buf.len() - i,
        {
            let b = buf[i];
            let ghost pre = console@;
            let ghost prev = write_run(v, start_state(v), buf@.subrange(0, i as int));
            proof {
                assert(buf@.subrange(0, i as int + 1).drop_last() =~= buf@.subrange(0, i as int));
            }
            if stopped {
            } else if b == CR {
                self.to_line_start(console);
            } else if b == LF {
                if !self.next_line(console) {
                    stopped = true;
                }
            } else if b == ESC {
                in_escape = true;
                escape_seq = Vec::new();
                escape_seq.push(ESC);
                assert(escape_seq@ =~= seq![ESC]);
            } else if in_escape {
                escape_seq.push(b);
                if b == 0x48 {
                    match parse_cursor_request(&escape_seq) {
                        Some((row, col)) => {
                            self.cursor_x = self.x + clip_offset(col, self.width);
                            self.cursor_y = self.y + clip_offset(row, self.height);
                        },
                        None => {},
                    }
                    in_escape = false;
                    escape_seq = Vec::new();
                } else if (0x41 <= b && b <= 0x5A) || (0x61 <= b && b <= 0x7A) {
                    console.write_raw(escape_seq.as_slice());
                    in_escape = false;
                    escape_seq = Vec::new();
                }
            } else {
                console.move_to(self.cursor_x, self.cursor_y);
                let one: Vec<u8> = vec![b];
                console.write_raw(one.as_slice());
                assert(one@ =~= seq![b]);
                if self.cursor_x + 1 < self.x + self.width {
                    self.cursor_x = self.cursor_x + 1;
                } else {
                    if !self.next_line(console) {
                        stopped = true;
                    }
                }
            }
            i = i + 1;
            proof {
                let step = write_step(v, prev.0, b);
                assert(console@ =~= pre + step.1);
                assert(console@ =~= old(console)@ + (prev.1 + step.1));
            }
        }
        proof {
            assert(buf@.subrange(0, buf@.len() as int) =~= buf@);
        }
        console.flush();
    }

    /// `write` of the UTF-8 bytes of `s`.
    pub fn write_str(&mut self, console: &mut Console, s: &str)
        requires
            old(self).wf(),
        ensures
            final(self).wf(),
            final(self)@ == write_effect(old(self)@, s.spec_bytes()).0,
            final(console)@ == old(console)@ + write_effect(old(self)@, s.spec_bytes()).1,
    {
        self.write(console, s.as_bytes());
    }
}

/// `n` with values above `u16::MAX` cut down to it.
pub open spec fn saturate(n: nat) -> int {
    if n > u16::MAX {
        u16::MAX as int
    } else {
        n as int
    }
}

proof fn lemma_saturate_step(a: nat, d: nat)
    ensures
        saturate((saturate(a) * 10 + d) as nat) == saturate(a * 10 + d),
{
}

/// The number in `s[lo..hi]`, cut down to `u16::MAX`.
fn parse_number(s: &Vec<u8>, lo: usize, hi: usize) -> (r: Option<u16>)
    requires
        lo <= hi <= s@.len(),
    ensures
        r is Some <==> is_number(s@.subrange(lo as int, hi as int)),
        r is Some ==> r->0 == saturate(number_value(s@.subrange(lo as int, hi as int))),
{
    if lo == hi {
        return None;
    }
    let mut v: u32 = 0;
    let mut j: usize = lo;
    while j < hi
        invariant
            lo <= j <= hi <= s@.len(),
            v <= u16::MAX,
            forall|i: int| lo <= i < j ==> is_digit(#[trigger] s@[i]),
            v == saturate(number_value(s@.subrange(lo as int, j as int))),
        decreases hi - j,
    {
        let b = s[j];
        if !(0x30 <= b && b <= 0x39) {
            assert(!is_digit(s@.subrange(lo as int, hi as int)[j - lo]));
            return None;
        }
        proof {
            let sub = s@.subrange(lo as int, j as int + 1);
            assert(sub.drop_last() =~= s@.subrange(lo as int, j as int));
            lemma_saturate_step(number_value(sub.drop_last()), (b - 0x30) as nat);
        }
        let n = v * 10 + (b - 0x30) as u32;
        v = if n > 65535 {
            65535
        } else {
            n
        };
        j = j + 1;
    }
    proof {
        let sub = s@.subrange(lo as int, hi as int);
        assert forall|i: int| 0 <= i < sub.len() implies is_digit(#[trigger] sub[i]) by {
            assert(sub[i] == s@[lo + i]);
        }
    }
    Some(v as u16)
}

/// A sequence whose first semicolon is at `k` splits nowhere else.
proof fn lemma_split_unique(body: Seq<u8>, k: int)
    requires
        0 <= k < body.len(),
        body[k] == 0x3B,
        forall|i: int| 0 <= i < k ==> body[i] != 0x3B,
    ensures
        forall|k2: int| #[trigger] splits_at(body, k2) ==> k2 == k,
{
    assert forall|k2: int| #[trigger] splits_at(body, k2) implies k2 == k by {
        if k2 > k {
            assert(body.subrange(0, k2)[k] == body[k]);
            assert(!is_digit(body.subrange(0, k2)[k]));
        }
    }
}

/// The saturated row and column of a cursor-position request.
fn parse_cursor_request(q: &Vec<u8>) -> (r: Option<(u16, u16)>)
    ensures
        match cursor_request(q@) {
            Some((row, col)) => r == Some((saturate(row) as u16, saturate(col) as u16)),
            None => r is None,
        },
{
    let n = q.len();
    if n < 3 || q[0] != ESC || q[1] != 0x5B || q[n - 1] != 0x48 {
        return None;
    }
    let ghost body = q@.subrange(2, n - 1);
    let mut k: usize = 2;
    while k < n - 1 && q[k] != 0x3B
        invariant
            2 <= k <= n - 1,
            n == q@.len(),
            forall|i: int| 2 <= i < k ==> q@[i] != 0x3B,
        decreases n - 1 - k,
    {
        k = k + 1;
    }
    if k == n - 1 {
        assert forall|k2: int| !splits_at(body, k2) by {
            if 0 <= k2 < body.len() {
                assert(body[k2] == q@[k2 + 2]);
            }
        }
        return None;
    }
    proof {
        assert forall|i: int| 0 <= i < k - 2 implies body[i] != 0x3B by {
            assert(body[i] == q@[i + 2]);
        }
        lemma_split_unique(body, k - 2);
        assert(body.subrange(0, k - 2) =~= q@.subrange(2, k as int));
        assert(body.subrange(k - 2 + 1, body.len() as int) =~= q@.subrange(k + 1, n - 1));
    }
    let row = parse_number(q, 2, k);
    let col = parse_number(q, k + 1, n - 1);
    match (row, col) {
        (Some(r), Some(c)) => {
            assert(splits_at(body, k - 2));
            Some((r, c))
        },
        _ => {
            assert forall|k2: int| !splits_at(body, k2) by {
                if splits_at(body, k2) {
                    assert(k2 == k - 2);
                }
            }
            None
        },
    }
}

/// `clip` on a saturated coordinate.
fn clip_offset(n: u16, size: u16) -> (r: u16)
    requires
        size >= 1,
    ensures
        forall|m: nat| saturate(m) == n ==> r == clip(m, size as int),
        r < size,
{
    if n == 0 {
        0
    } else if n <= size {
        n - 1
    } else {
        size - 1
    }
}

/// `n` copies of `s` in one string.
fn repeat_str(s: &str, n: u16) -> (r: String)
    ensures
        r@ == repeat_chars(s@, n as nat),
{
    let mut r = String::new();
    let mut i: u16 = 0;
    while i < n
        invariant
            0 <= i <= n,
            r@ == repeat_chars(s@, i as nat),
        decreases n - i,
    {
        r.append(s);
        i = i + 1;
    }
    r
}

} // verus!

verus! {

/// Writing `a` then `b` is writing `a + b`.
proof fn lemma_write_run_append(v: BlockView, s: WriteState, a: Seq<u8>, b: Seq<u8>)
    ensures
        write_run(v, s, a + b) == ({
            let (s1, o1) = write_run(v, s, a);
            let (s2, o2) = write_run(v, s1, b);
            (s2, o1 + o2)
        }),
    decreases b.len(),
{
    if b.len() == 0 {
        assert(a + b =~= a);
        assert(write_run(v, s, a).1 + Seq::<CommandView>::empty() =~= write_run(v, s, a).1);
    } else {
        lemma_write_run_append(v, s, a, b.drop_last());
        assert((a + b).drop_last() =~= a + b.drop_last());
        assert((a + b).last() == b.last());
        let (s1, o1) = write_run(v, s, a);
        let (s2, o2) = write_run(v, s1, b.drop_last());
        let (s3, o3) = write_step(v, s2, b.last());
        assert(o1 + o2 + o3 =~= o1 + (o2 + o3));
    }
}

/// Inside an escape sequence, bytes that are neither letters nor line
/// controls are only gathered.
proof fn lemma_escape_gathers(v: BlockView, s: WriteState, q: Seq<u8>, bytes: Seq<u8>)
    requires
        s.escape == Some(q),
        !s.stopped,
        forall|i: int|
            0 <= i < bytes.len() ==> !is_letter(#[trigger] bytes[i]) && bytes[i] != CR && bytes[i]
                != LF && bytes[i] != ESC,
    ensures
        write_run(v, s, bytes) == (WriteState { escape: Some(q + bytes), ..s }, Seq::<
            CommandView,
        >::empty()),
    decreases bytes.len(),
{
    if bytes.len() == 0 {
        assert(q + bytes =~= q);
    } else {
        let init = bytes.drop_last();
        lemma_escape_gathers(v, s, q, init);
        assert((q + init).push(bytes.last()) =~= q + bytes);
        assert(!is_letter(bytes[bytes.len() - 1]));
    }
}

/// A cursor-position request `ESC [ row ; col H` puts the cursor at the
/// 1-based column `col` and row `row` of the inner area, clipped to it, and
/// draws nothing.
pub proof fn lemma_cursor_request(v: BlockView, row: Seq<u8>, col: Seq<u8>)
    requires
        v.wf(),
        is_number(row),
        is_number(col),
    ensures
        ({
            let buf = seq![ESC, 0x5Bu8] + row + seq![0x3Bu8] + col + seq![0x48u8];
            &&& write_effect(v, buf).0 == v.with_cursor(
                v.x + clip(number_value(col), v.width),
                v.y + clip(number_value(row), v.height),
            )
            &&& write_effect(v, buf).1 == seq![CommandView::Flush]
        }),
{
    let middle = seq![0x5Bu8] + row + seq![0x3Bu8] + col;
    let buf = seq![ESC] + middle + seq![0x48u8];
    assert(buf =~= seq![ESC, 0x5Bu8] + row + seq![0x3Bu8] + col + seq![0x48u8]);
    let st = start_state(v);
    // The escape character opens the sequence.
    assert(seq![ESC].drop_last() =~= Seq::<u8>::empty());
    assert(write_run(v, st, Seq::<u8>::empty()) == (st, Seq::<CommandView>::empty()));
    assert(Seq::<CommandView>::empty() + Seq::<CommandView>::empty() =~= Seq::<CommandView>::empty());
    let s1 = WriteState { escape: Some(seq![ESC]), ..st };
    assert(write_run(v, st, seq![ESC]) == (s1, Seq::<CommandView>::empty()));
    // The rest but the final `H` is gathered.
    assert forall|i: int|
        0 <= i < middle.len() implies !is_letter(#[trigger] middle[i]) && middle[i] != CR
            && middle[i] != LF && middle[i] != ESC by {
        if 1 <= i < 1 + row.len() {
            assert(middle[i] == row[i - 1]);
            assert(is_digit(row[i - 1]));
        } else if 1 + row.len() < i {
            assert(middle[i] == col[i - 2 - row.len()]);
            assert(is_digit(col[i - 2 - row.len()]));
        }
    }
    lemma_escape_gathers(v, s1, seq![ESC], middle);
    lemma_write_run_append(v, st, seq![ESC], middle);
    let s2 = WriteState { escape: Some(seq![ESC] + middle), ..st };
    assert(write_run(v, st, seq![ESC] + middle) == (s2, Seq::<CommandView>::empty()));
    // The request itself.
    let body = buf.subrange(2, buf.len() - 1);
    let k = row.len() as int;
    assert(body =~= row + seq![0x3Bu8] + col);
    assert(body.subrange(0, k) =~= row);
    assert(body.subrange(k + 1, body.len() as int) =~= col);
    assert forall|i: int| 0 <= i < k implies body[i] != 0x3B by {
        assert(body[i] == row[i]);
        assert(is_digit(row[i]));
    }
    assert(splits_at(body, k));
    lemma_split_unique(body, k);
    assert(cursor_request(buf) == Some((number_value(row), number_value(col))));
    assert(buf.drop_last() =~= seq![ESC] + middle);
    assert((seq![ESC] + middle).push(0x48u8) =~= buf);
}

} // verus!
