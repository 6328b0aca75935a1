//! The list of requests: method and title on each row, the selected row
//! highlighted.

use vstd::prelude::*;
use vstd::string::StringSliceAdditionalSpecFns;
use vstd::utf8::encode_utf8;
use crate::block::{same_frame, write_effect, Block, BlockView};
use crate::console::{Color, CommandView, Console};
use crate::keys::{KeyCode, KeyEvent, KeyEventKind};
use crate::model::{Request, RequestView};
use crate::text::{to_uppercase, uppercase_of};

verus! {

/// Byte length of the UTF-8 form of `s`.
pub open spec fn byte_len(s: Seq<char>) -> nat {
    encode_utf8(s).len()
}

/// The longest method, in bytes, among the first `n` requests.
pub open spec fn max_method_len(values: Seq<RequestView>, n: nat) -> nat
    decreases n,
{
    if n == 0 {
        0
    } else {
        let m = max_method_len(values, (n - 1) as nat);
        let l = byte_len(values[n - 1].method);
        if l > m {
            l
        } else {
            m
        }
    }
}

pub open spec fn spaces(n: nat) -> Seq<u8> {
    Seq::new(n, |i: int| 0x20u8)
}

pub struct ListView {
    pub values: Seq<RequestView>,
    pub selected: int,
    pub option_selected: bool,
    pub to_re_render: bool,
    pub width: int,
}

impl ListView {
    pub open spec fn wf(self) -> bool {
        &&& self.values.len() == 0 ==> self.selected == 0
        &&& self.values.len() > 0 ==> 0 <= self.selected < self.values.len()
        &&& forall|i: int|
            0 <= i < self.values.len() ==> byte_len(#[trigger] self.values[i].method) + 2
                <= usize::MAX && byte_len(self.values[i].title) <= usize::MAX
    }

    /// The blanks left of the method, right of it, and right of the title
    /// on row `i`.
    pub open spec fn pads(self, i: int) -> (int, int, int) {
        let r = self.values[i];
        let mlen = byte_len(r.method);
        let pad = max_method_len(self.values, self.values.len()) - mlen + 2;
        let pad_left = if pad / 2 > 1 {
            pad / 2
        } else {
            1
        };
        let pad_right = pad - pad_left;
        let used = byte_len(r.title) + pad_left + pad_right + mlen + 2;
        let pad_title_right = if self.width >= used {
            self.width - used
        } else {
            0
        };
        (pad_left, pad_right, pad_title_right)
    }

    /// The method column of row `i`: padded, upper-cased, highlighted on
    /// the selected row.
    pub open spec fn method_part(self, i: int, v: BlockView) -> (BlockView, Seq<CommandView>) {
        let sel = i == self.selected;
        let method_fg = if sel {
            Color::Black
        } else {
            Color::White
        };
        let method_bg = if sel {
            Color::Green
        } else {
            Color::Black
        };
        let (pad_left, pad_right, _) = self.pads(i);
        let v0 = v.with_cursor(v.x, v.cursor_y);
        let (v1, c1) = write_effect(v0, spaces(pad_left as nat));
        let (v2, c2) = write_effect(v1, encode_utf8(uppercase_of(self.values[i].method)));
        let (v3, c3) = write_effect(v2, spaces(pad_right as nat));
        (
            v3,
            seq![
                CommandView::MoveTo(v0.cursor_x as u16, v0.cursor_y as u16),
                CommandView::SetForeground(method_bg),
                CommandView::SetBackground(method_fg),
            ] + c1 + c2 + c3,
        )
    }

    /// The title column of row `i`, then the move to the next row.
    pub open spec fn title_part(self, i: int, v: BlockView) -> (BlockView, Seq<CommandView>) {
        let sel = i == self.selected;
        let fg = if sel {
            Color::Black
        } else {
            Color::Reset
        };
        let bg = if sel {
            Color::White
        } else {
            Color::Reset
        };
        let (_, _, pad_title_right) = self.pads(i);
        let (v4, c4) = write_effect(v, spaces(1));
        let (v5, c5) = write_effect(v4, encode_utf8(self.values[i].title));
        let (v6, c6) = write_effect(v5, spaces(pad_title_right as nat));
        let ny = if v6.cursor_y + 1 < v6.y + v6.height {
            v6.cursor_y + 1
        } else {
            v6.cursor_y
        };
        let v7 = v6.with_cursor(v6.x, ny);
        (
            v7,
            seq![CommandView::SetForeground(fg), CommandView::SetBackground(bg)] + c4 + c5 + c6
                + seq![
                CommandView::ResetColor,
                CommandView::MoveTo(v7.cursor_x as u16, v7.cursor_y as u16),
            ],
        )
    }

    /// What row `i` draws, starting at the cursor row of `v`.
    pub open spec fn row_effect(self, i: int, v: BlockView) -> (BlockView, Seq<CommandView>) {
        let (v1, c1) = self.method_part(i, v);
        let (v2, c2) = self.title_part(i, v1);
        (v2, c1 + c2)
    }

    /// What the first `n` rows draw, from `v` on.
    pub open spec fn rows_effect(self, n: nat, v: BlockView) -> (BlockView, Seq<CommandView>)
        decreases n,
    {
        if n == 0 {
            (v, Seq::empty())
        } else {
            let (v1, c1) = self.rows_effect((n - 1) as nat, v);
            let (v2, c2) = self.row_effect(n - 1, v1);
            (v2, c1 + c2)
        }
    }

    /// The rows that fit in `v`.
    pub open spec fn shown(self, v: BlockView) -> nat {
        if self.values.len() < v.height {
            self.values.len()
        } else {
            v.height as nat
        }
    }

    /// What drawing the list into `v` does: the rows that fit, from the
    /// top, when the list is stale; nothing otherwise.
    pub open spec fn output_effect(self, v: BlockView) -> (BlockView, Seq<CommandView>) {
        if self.to_re_render {
            self.rows_effect(self.shown(v), v.with_cursor(v.x, v.y))
        } else {
            (v, Seq::empty())
        }
    }

    /// The state after a key.
    pub open spec fn after_key(self, e: KeyEvent) -> ListView {
        if e.kind != KeyEventKind::Press {
            self
        } else {
            match e.code {
                KeyCode::Up => ListView {
                    selected: if self.selected > 0 {
                        self.selected - 1
                    } else {
                        self.selected
                    },
                    to_re_render: true,
                    ..self
                },
                KeyCode::Down => ListView {
                    selected: if self.selected + 1 < self.values.len() {
                        self.selected + 1
                    } else {
                        self.selected
                    },
                    to_re_render: true,
                    ..self
                },
                KeyCode::Enter => ListView { option_selected: true, ..self },
                _ => self,
            }
        }
    }
}

pub struct List {
    values: Vec<Request>,
    selected: usize,
    option_selected: bool,
    to_re_render: bool,
    width: usize,
}

impl View for List {
    type V = ListView;

    closed spec fn view(&self) -> ListView {
        ListView {
            values: self.values@.map_values(|r: Request| r@),
            selected: self.selected as int,
            option_selected: self.option_selected,
            to_re_render: self.to_re_render,
            width: self.width as int,
        }
    }
}

fn spaces_vec(n: usize) -> (r: Vec<u8>)
    ensures
        r@ == spaces(n as nat),
{
    let mut r: Vec<u8> = Vec::new();
    let mut i: usize = 0;
    while i < n
        invariant
            0 <= i <= n,
            r@ == spaces(i as nat),
        decreases n - i,
    {
        r.push(0x20);
        i = i + 1;
        assert(r@ =~= spaces(i as nat));
    }
    r
}

impl List {
    /// A list of `options` on rows `width` cells wide, the first selected.
    pub fn new(options: Vec<Request>, width: usize) -> (r: Self)
        requires
            forall|i: int|
                0 <= i < options@.len() ==> byte_len(#[trigger] options@[i].method@) + 2
                    <= usize::MAX && byte_len(options@[i].title@) <= usize::MAX,
        ensures
            r@.wf(),
            r@ == (ListView {
                values: options@.map_values(|q: Request| q@),
                selected: 0,
                option_selected: false,
                to_re_render: true,
                width: width as int,
            }),
    {
        List { width, selected: 0, values: options, option_selected: false, to_re_render: true }
    }

    pub fn needs_re_render(&self) -> (r: bool)
        ensures
            r == self@.to_re_render,
    {
        self.to_re_render
    }

    /// The index of the selected row.
    pub fn selected(&self) -> (r: usize)
        ensures
            r == self@.selected,
    {
        self.selected
    }

    /// Whether a request was picked with Enter and not yet opened.
    pub fn option_selected(&self) -> (r: bool)
        ensures
            r == self@.option_selected,
    {
        self.option_selected
    }

    /// Marks the picked request as opened.
    pub fn clear_option_selected(&mut self)
        requires
            old(self)@.wf(),
        ensures
            final(self)@.wf(),
            final(self)@ == (ListView { option_selected: false, ..old(self)@ }),
    {
        self.option_selected = false;
    }

    /// The longest method, in bytes.
    fn get_max_method_length(&self) -> (r: usize)
        requires
            self@.wf(),
        ensures
            r == max_method_len(self@.values, self@.values.len()),
    {
        let mut m: usize = 0;
        let mut i: usize = 0;
        while i < self.values.len()
            invariant
                0 <= i <= self.values@.len(),
                m == max_method_len(self@.values, i as nat),
                self@.wf(),
            decreases self.values.len() - i,
        {
            assert(self@.values[i as int] == self.values@[i as int]@);
            let l = self.values[i].method.as_str().len();
            if l > m {
                m = l;
            }
            i = i + 1;
        }
        m
    }

    fn select_next(&mut self)
        requires
            old(self)@.wf(),
        ensures
            final(self)@.wf(),
            final(self)@ == old(self)@.after_key(KeyEvent { code: KeyCode::Down, shift: false, kind: KeyEventKind::Press }),
    {
        assert(self@.values.len() == self.values@.len());
        if self.values.len() > 0 && self.selected < self.values.len() - 1 {
            self.selected = self.selected + 1;
        }
        self.to_re_render = true;
    }

    fn select_prev(&mut self)
        requires
            old(self)@.wf(),
        ensures
            final(self)@.wf(),
            final(self)@ == old(self)@.after_key(KeyEvent { code: KeyCode::Up, shift: false, kind: KeyEventKind::Press }),
    {
        if self.selected > 0 {
            self.selected = self.selected - 1;
        }
        self.to_re_render = true;
    }

    /// Draws the method column of row `i`.
    fn draw_method(&self, i: usize, max_method_len: usize, console: &mut Console, target: &mut Block)
        requires
            self@.wf(),
            i < self@.values.len(),
            max_method_len == crate::list::max_method_len(self@.values, self@.values.len()),
            old(target).wf(),
        ensures
            final(target).wf(),
            same_frame(final(target)@, old(target)@),
            final(target)@ == self@.method_part(i as int, old(target)@).0,
            final(console)@ == old(console)@ + self@.method_part(i as int, old(target)@).1,
    {
        let option = &self.values[i];
        assert(self@.values[i as int] == option@);
        let sel = i == self.selected;
        let (method_fg_color, method_bg_color) = if sel {
            (Color::Black, Color::Green)
        } else {
            (Color::White, Color::Black)
        };
        let method_len = option.method.as_str().len();
        proof {
            lemma_max_method_len_bound(self@.values, self@.values.len(), i as int);
        }
        let pad = max_method_len - method_len + 2;
        let pad_left = if pad / 2 > 1 {
            pad / 2
        } else {
            1
        };
        let pad_right = pad - pad_left;

        target.to_line_start(console);
        console.set_colors(method_bg_color, method_fg_color);
        let left = spaces_vec(pad_left);
        target.write(console, left.as_slice());
        let upper = to_uppercase(option.method.as_str());
        target.write(console, upper.as_str().as_bytes());
        let right = spaces_vec(pad_right);
        target.write(console, right.as_slice());
        assert(console@ =~= old(console)@ + self@.method_part(i as int, old(target)@).1);
    }

    /// Draws the title column of row `i` and moves to the next row.
    fn draw_title(&self, i: usize, max_method_len: usize, console: &mut Console, target: &mut Block)
        requires
            self@.wf(),
            i < self@.values.len(),
            max_method_len == crate::list::max_method_len(self@.values, self@.values.len()),
            old(target).wf(),
        ensures
            final(target).wf(),
            same_frame(final(target)@, old(target)@),
            final(target)@ == self@.title_part(i as int, old(target)@).0,
            final(console)@ == old(console)@ + self@.title_part(i as int, old(target)@).1,
    {
        let option = &self.values[i];
        assert(self@.values[i as int] == option@);
        let sel = i == self.selected;
        let (fg_color, bg_color) = if sel {
            (Color::Black, Color::White)
        } else {
            (Color::Reset, Color::Reset)
        };
        let method_len = option.method.as_str().len();
        proof {
            lemma_max_method_len_bound(self@.values, self@.values.len(), i as int);
        }
        let pad = max_method_len - method_len + 2;
        let pad_left = if pad / 2 > 1 {
            pad / 2
        } else {
            1
        };
        let pad_right = pad - pad_left;
        let pad_title_right = self.width.saturating_sub(option.title.as_str().len()).saturating_sub(
            pad_left,
        ).saturating_sub(pad_right).saturating_sub(method_len).saturating_sub(2);
        assert(pad_title_right == self@.pads(i as int).2);

        console.set_colors(fg_color, bg_color);
        let one = spaces_vec(1);
        target.write(console, one.as_slice());
        target.write(console, option.title.as_str().as_bytes());
        let tail = spaces_vec(pad_title_right);
        target.write(console, tail.as_slice());
        console.reset_color();
        target.next_line(console);
        assert(console@ =~= old(console)@ + self@.title_part(i as int, old(target)@).1);
    }

    /// Draws row `i` at the cursor row of `target`.
    fn draw_row(&self, i: usize, max_method_len: usize, console: &mut Console, target: &mut Block)
        requires
            self@.wf(),
            i < self@.values.len(),
            max_method_len == crate::list::max_method_len(self@.values, self@.values.len()),
            old(target).wf(),
        ensures
            final(target).wf(),
            same_frame(final(target)@, old(target)@),
            final(target)@ == self@.row_effect(i as int, old(target)@).0,
            final(console)@ == old(console)@ + self@.row_effect(i as int, old(target)@).1,
    {
        self.draw_method(i, max_method_len, console, target);
        self.draw_title(i, max_method_len, console, target);
        assert(console@ =~= old(console)@ + self@.row_effect(i as int, old(target)@).1);
    }

    /// Draws the rows that fit in `target` from its top when the list is
    /// stale.
    pub fn output(&mut self, console: &mut Console, target: &mut Block)
        requires
            old(self)@.wf(),
            old(target).wf(),
        ensures
            final(target).wf(),
            same_frame(final(target)@, old(target)@),
            final(self)@ == (ListView { to_re_render: false, ..old(self)@ }),
            final(target)@ == old(self)@.output_effect(old(target)@).0,
            final(console)@ == old(console)@ + old(self)@.output_effect(old(target)@).1,
    {
        if self.to_re_render {
            target.reset();
            let ghost start = target@;
            let max_method_len = self.get_max_method_length();
            let n = if self.values.len() < target.height() as usize {
                self.values.len()
            } else {
                target.height() as usize
            };
            let mut i: usize = 0;
            while i < n
                invariant
                    0 <= i <= n,
                    n == self@.shown(old(target)@),
                    n <= self@.values.len(),
                    self@ == old(self)@,
                    self@.wf(),
                    max_method_len == crate::list::max_method_len(self@.values, self@.values.len()),
                    target.wf(),
                    same_frame(target@, old(target)@),
                    start == old(target)@.with_cursor(old(target)@.x, old(target)@.y),
                    target@ == self@.rows_effect(i as nat, start).0,
                    console@ == old(console)@ + self@.rows_effect(i as nat, start).1,
                decreases n - i,
            {
                self.draw_row(i, max_method_len, console, target);
                i = i + 1;
                assert(console@ =~= old(console)@ + self@.rows_effect(i as nat, start).1);
            }
        } else {
            assert(console@ =~= old(console)@ + old(self)@.output_effect(old(target)@).1);
        }
        self.to_re_render = false;
    }

    /// Up and Down move the selection; Enter picks the selected request.
    pub fn on_event(&mut self, event: &KeyEvent)
        requires
            old(self)@.wf(),
        ensures
            final(self)@.wf(),
            final(self)@ == old(self)@.after_key(*event),
    {
        if !matches!(event.kind, KeyEventKind::Press) {
            return ;
        }
        match event.code {
            KeyCode::Up => self.select_prev(),
            KeyCode::Down => self.select_next(),
            KeyCode::Enter => self.option_selected = true,
            _ => {},
        }
    }
}

proof fn lemma_max_method_len_bound(values: Seq<RequestView>, n: nat, i: int)
    requires
        0 <= i < n <= values.len(),
    ensures
        byte_len(values[i].method) <= max_method_len(values, n),
        exists|j: int| 0 <= j < n && max_method_len(values, n) == byte_len(#[trigger] values[j].method),
    decreases n,
{
    if i < n - 1 {
        lemma_max_method_len_bound(values, (n - 1) as nat, i);
    } else if n > 1 {
        lemma_max_method_len_bound(values, (n - 1) as nat, 0);
    }
}

/// Drawing twice in a row draws once: after `output` the list is not
/// stale, and `output` on a list that is not stale draws nothing.
pub proof fn lemma_list_output_idempotent(l: ListView, v: BlockView)
    ensures
        (ListView { to_re_render: false, ..l }).output_effect(v) == (v, Seq::<CommandView>::empty()),
{
}

} // verus!
