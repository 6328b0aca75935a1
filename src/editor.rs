//! A line-oriented text editor for request bodies, with JSON highlighting.

use vstd::prelude::*;
use vstd::string::StrSliceExecFns;
use vstd::utf8::encode_utf8;
use syntect::easy::HighlightLines;
use syntect::highlighting::{Theme, ThemeSet};
use syntect::parsing::{SyntaxReference, SyntaxSet};
use crate::block::{blank_rows_from, repeat_chars, same_frame, write_effect, Block, BlockView};
use crate::console::{Color, CommandView, Console};
use crate::keys::{KeyCode, KeyEvent, KeyEventKind};
use crate::text::push_char;

verus! {

#[verifier::external_type_specification]
#[verifier::external_body]
pub struct ExSyntaxSet(SyntaxSet);

#[verifier::external_type_specification]
#[verifier::external_body]
pub struct ExSyntaxReference(SyntaxReference);

#[verifier::external_type_specification]
#[verifier::external_body]
pub struct ExThemeSet(ThemeSet);

#[verifier::external_type_specification]
#[verifier::external_body]
pub struct ExTheme(Theme);

#[verifier::external_type_specification]
#[verifier::external_body]
pub struct ExHighlightLines<'a>(HighlightLines<'a>);

/// The syntax the bodies are highlighted as.
pub const BODY_SYNTAX: &'static str = "JSON";

/// The theme the bodies are highlighted with.
pub const BODY_THEME: &'static str = "InspiredGitHub";

/// A piece of a line with the colors it is drawn in.
pub struct StyledText {
    pub fg: Color,
    pub bg: Color,
    pub text: String,
}

/// The text of the pieces, one after the other.
pub open spec fn pieces_text(p: Seq<StyledText>) -> Seq<char>
    decreases p.len(),
{
    if p.len() == 0 {
        Seq::empty()
    } else {
        pieces_text(p.drop_last()) + p.last().text@
    }
}

/// Relies on `SyntaxSet::load_defaults_newlines`: the syntaxes bundled
/// with syntect.
#[verifier::external_body]
fn default_syntaxes() -> SyntaxSet {
    SyntaxSet::load_defaults_newlines()
}

/// Relies on `ThemeSet::load_defaults`: the themes bundled with syntect.
#[verifier::external_body]
fn default_themes() -> ThemeSet {
    ThemeSet::load_defaults()
}

/// Relies on `SyntaxSet::find_syntax_by_name`: the syntax of that name, if
/// the set has one.
#[verifier::external_body]
fn find_syntax<'a>(ps: &'a SyntaxSet, name: &str) -> Option<&'a SyntaxReference> {
    ps.find_syntax_by_name(name)
}

/// Relies on the `themes` map of `ThemeSet`: the theme of that name, if the
/// set has one.
#[verifier::external_body]
fn find_theme<'a>(ts: &'a ThemeSet, name: &str) -> Option<&'a Theme> {
    ts.themes.get(name)
}

/// Relies on `HighlightLines::new`: a highlighter at the start of a file.
#[verifier::external_body]
fn highlighter<'a>(syntax: &SyntaxReference, theme: &'a Theme) -> HighlightLines<'a> {
    HighlightLines::new(syntax, theme)
}

/// Relies on `HighlightLines::highlight_line`: on success, pieces of the
/// line with their styles, which concatenate to the line.
#[verifier::external_body]
fn highlight_line(h: &mut HighlightLines, line: &str, ps: &SyntaxSet) -> (r: Option<
    Vec<StyledText>,
>)
    ensures
        r is Some ==> pieces_text(r->0@) == line@,
{
    h.highlight_line(line, ps).ok().map(
        |ranges|
            ranges.into_iter().map(
                |(st, text)|
                    StyledText {
                        fg: Color::Rgb { r: st.foreground.r, g: st.foreground.g, b: st.foreground.b },
                        bg: Color::Rgb { r: st.background.r, g: st.background.g, b: st.background.b },
                        text: text.to_string(),
                    },
            ).collect(),
    )
}

/// The lines of `s`, split at each line feed.
pub open spec fn split_lines(s: Seq<char>) -> Seq<Seq<char>>
    decreases s.len(),
{
    if s.len() == 0 {
        seq![Seq::empty()]
    } else {
        let prev = split_lines(s.drop_last());
        if s.last() == '\n' {
            prev.push(Seq::empty())
        } else {
            prev.update(prev.len() - 1, prev.last().push(s.last()))
        }
    }
}

/// The lines joined with line feeds.
pub open spec fn join_lines(lines: Seq<Seq<char>>) -> Seq<char>
    decreases lines.len(),
{
    if lines.len() == 0 {
        Seq::empty()
    } else if lines.len() == 1 {
        lines[0]
    } else {
        join_lines(lines.drop_last()) + seq!['\n'] + lines.last()
    }
}

/// `s` with every entry from `k` on set.
pub open spec fn mark_from(s: Seq<bool>, k: int) -> Seq<bool> {
    Seq::new(s.len(), |j: int| if j >= k { true } else { s[j] })
}

pub open spec fn min(a: int, b: int) -> int {
    if a < b {
        a
    } else {
        b
    }
}

pub struct EditorView {
    pub body: Seq<Seq<char>>,
    pub cursor_l: int,
    pub cursor_c: int,
    pub to_re_render: bool,
    pub only_cursor: bool,
    pub lines_changed: Seq<bool>,
}

impl EditorView {
    pub open spec fn wf(self) -> bool {
        &&& self.lines_changed.len() == self.body.len()
        &&& self.body.len() == 0 ==> self.cursor_l == 0 && self.cursor_c == 0
        &&& self.body.len() > 0 ==> {
            &&& 0 <= self.cursor_l < self.body.len()
            &&& 0 <= self.cursor_c <= self.body[self.cursor_l].len()
        }
    }

    /// The cursor moved to `(line, col)`, clipped to the text.
    pub open spec fn go_to(self, line: int, col: int) -> EditorView {
        if self.body.len() > 0 {
            let l = min(self.body.len() - 1, line);
            EditorView { cursor_l: l, cursor_c: min(self.body[l].len() as int, col), ..self }
        } else {
            EditorView { cursor_l: 0, ..self }
        }
    }

    /// Line `line` replaced with `text`.
    pub open spec fn with_line(self, line: int, text: Seq<char>) -> EditorView {
        EditorView {
            body: self.body.update(line, text),
            lines_changed: self.lines_changed.update(line, true),
            to_re_render: true,
            ..self
        }
    }

    /// Line `line` removed; the lines from there on are redrawn.
    pub open spec fn removed_line(self, line: int) -> EditorView {
        EditorView {
            body: self.body.remove(line),
            lines_changed: mark_from(self.lines_changed.remove(line), line),
            to_re_render: true,
            ..self
        }
    }

    /// `text` inserted as line `line`; the lines from there on are redrawn.
    pub open spec fn added_line(self, line: int, text: Seq<char>) -> EditorView {
        EditorView {
            body: self.body.insert(line, text),
            lines_changed: mark_from(self.lines_changed.insert(line, true), line),
            to_re_render: true,
            ..self
        }
    }

    /// The text replaced with `text`, every line to be drawn, the cursor
    /// clipped to the new text.
    pub open spec fn with_text(self, text: Seq<char>) -> EditorView {
        (EditorView {
            body: split_lines(text),
            lines_changed: Seq::new(split_lines(text).len(), |j: int| true),
            to_re_render: true,
            ..self
        }).go_to(self.cursor_l, self.cursor_c)
    }

    /// The state once drawn.
    pub open spec fn rendered(self) -> EditorView {
        if !self.to_re_render {
            self
        } else if self.only_cursor {
            EditorView { to_re_render: false, only_cursor: false, ..self }
        } else {
            EditorView {
                to_re_render: false,
                only_cursor: false,
                lines_changed: Seq::new(self.lines_changed.len(), |j: int| false),
                ..self
            }
        }
    }

    pub open spec fn cursor_moved(self, line: int, col: int) -> EditorView {
        EditorView { only_cursor: true, to_re_render: true, ..self.go_to(line, col) }
    }

    /// A character typed at the cursor, which then moves past it.
    pub open spec fn after_char(self, c: char) -> EditorView {
        let e = if self.body.len() == 0 {
            self.added_line(0, Seq::empty()).go_to(0, 0)
        } else {
            self
        };
        let e2 = e.with_line(e.cursor_l, e.body[e.cursor_l].insert(e.cursor_c, c));
        e2.go_to(e2.cursor_l, e2.cursor_c + 1)
    }

    /// Backspace: the character before the cursor goes, or at the start of
    /// a line the line joins the one above.
    pub open spec fn after_delete(self) -> EditorView {
        if self.cursor_c == 0 {
            if self.cursor_l > 0 {
                let p = self.cursor_l - 1;
                let end = self.body[p].len() as int;
                let e = self.with_line(p, self.body[p] + self.body[self.cursor_l]);
                e.removed_line(self.cursor_l).go_to(self.cursor_l - 1, end)
            } else {
                self
            }
        } else {
            let e = self.go_to(self.cursor_l, self.cursor_c - 1);
            e.with_line(e.cursor_l, e.body[e.cursor_l].remove(e.cursor_c))
        }
    }

    /// Enter: the line splits at the cursor, which goes to the start of the
    /// new line.
    pub open spec fn after_enter(self) -> EditorView {
        if self.cursor_c == 0 {
            let e = self.added_line(self.cursor_l, Seq::empty());
            e.go_to(e.cursor_l + 1, e.cursor_c)
        } else {
            let l = self.cursor_l;
            let text = self.body[l];
            if self.cursor_c == text.len() {
                self.added_line(l + 1, Seq::empty()).go_to(l + 1, 0)
            } else {
                let e = self.with_line(l, text.subrange(0, self.cursor_c));
                e.added_line(l + 1, text.subrange(self.cursor_c, text.len() as int)).go_to(l + 1, 0)
            }
        }
    }

    /// The state after a key.
    pub open spec fn after_key(self, e: KeyEvent) -> EditorView {
        if e.kind != KeyEventKind::Press {
            self
        } else {
            match e.code {
                KeyCode::Char(c) => self.after_char(c),
                KeyCode::Backspace | KeyCode::Delete => self.after_delete(),
                KeyCode::Enter => self.after_enter(),
                KeyCode::Up => if self.cursor_l > 0 {
                    self.cursor_moved(self.cursor_l - 1, self.cursor_c)
                } else {
                    self
                },
                KeyCode::Down => self.cursor_moved(self.cursor_l + 1, self.cursor_c),
                KeyCode::Left => if self.cursor_c > 0 {
                    self.cursor_moved(self.cursor_l, self.cursor_c - 1)
                } else {
                    self
                },
                KeyCode::Right => self.cursor_moved(self.cursor_l, self.cursor_c + 1),
                _ => self,
            }
        }
    }
}

/// What drawing the pieces from `v` on does: each piece written in its
/// colors.
pub open spec fn pieces_effect(v: BlockView, p: Seq<StyledText>) -> (BlockView, Seq<CommandView>)
    decreases p.len(),
{
    if p.len() == 0 {
        (v, Seq::empty())
    } else {
        let (v1, c1) = pieces_effect(v, p.drop_last());
        let (v2, c2) = write_effect(v1, encode_utf8(p.last().text@));
        (
            v2,
            c1 + seq![
                CommandView::SetForeground(p.last().fg),
                CommandView::SetBackground(p.last().bg),
            ] + c2,
        )
    }
}

/// What drawing a highlighted line on row `line` of `v` does: the row
/// blanked, the pieces from its start, then a line feed.
pub open spec fn line_effect(v: BlockView, line: int, p: Seq<StyledText>) -> (
    BlockView,
    Seq<CommandView>,
) {
    let start = v.with_cursor(v.x, v.y + line);
    let (v1, c1) = pieces_effect(start, p);
    let (v2, c2) = write_effect(v1, seq![0x0Au8]);
    (
        v2,
        seq![
            CommandView::MoveTo(v.x as u16, (v.y + line) as u16),
            CommandView::Print(repeat_chars(seq![' '], v.width as nat)),
            CommandView::MoveTo(start.cursor_x as u16, start.cursor_y as u16),
            CommandView::Flush,
        ] + c1 + c2,
    )
}

/// A line as one piece in the terminal's own colors.
fn plain_pieces(s: &String) -> (r: Vec<StyledText>)
    ensures
        pieces_text(r@) == s@,
{
    let mut r: Vec<StyledText> = Vec::new();
    r.push(StyledText { fg: Color::Reset, bg: Color::Reset, text: copy_string(s) });
    assert(r@.drop_last() =~= Seq::<StyledText>::empty());
    assert(pieces_text(Seq::<StyledText>::empty()) == Seq::<char>::empty());
    assert(pieces_text(r@) =~= s@);
    r
}

/// Draws a highlighted line on row `line` of `target`.
pub fn draw_line(console: &mut Console, target: &mut Block, line: u16, pieces: &Vec<StyledText>)
    requires
        old(target).wf(),
        line < old(target)@.height,
    ensures
        final(target).wf(),
        final(target)@ == old(target)@.with_cursor(final(target)@.cursor_x, final(target)@.cursor_y),
        final(target)@ == line_effect(old(target)@, line as int, pieces@).0,
        final(console)@ == old(console)@ + line_effect(old(target)@, line as int, pieces@).1,
{
    target.empty_line(console, line);
    target.move_to(console, 0, line);
    console.flush();
    let ghost start = target@;
    let ghost base = console@;
    let mut i: usize = 0;
    while i < pieces.len()
        invariant
            0 <= i <= pieces@.len(),
            target.wf(),
            target@ == old(target)@.with_cursor(target@.cursor_x, target@.cursor_y),
            target@ == pieces_effect(start, pieces@.subrange(0, i as int)).0,
            console@ == base + pieces_effect(start, pieces@.subrange(0, i as int)).1,
        decreases pieces.len() - i,
    {
        let piece = &pieces[i];
        console.set_fg_color(piece.fg);
        console.set_bg_color(piece.bg);
        target.write(console, piece.text.as_str().as_bytes());
        i = i + 1;
        proof {
            let sub = pieces@.subrange(0, i as int);
            assert(sub.drop_last() =~= pieces@.subrange(0, i - 1));
            assert(console@ =~= base + pieces_effect(start, sub).1);
        }
    }
    assert(pieces@.subrange(0, pieces@.len() as int) =~= pieces@);
    let lf: Vec<u8> = vec![0x0A];
    assert(lf@ =~= seq![0x0Au8]);
    target.write(console, lf.as_slice());
    assert(console@ =~= old(console)@ + line_effect(old(target)@, line as int, pieces@).1);
}

/// Whether `output` draws line `j` of `e` into `v`: it changed and fits.
pub open spec fn drawn_line(e: EditorView, v: BlockView, j: int) -> bool {
    e.lines_changed[j] && j < v.height
}

/// What the line pass of `output` queues for the lines `pieces` covers:
/// each drawn line as `draw_line` draws it, each line followed by a color
/// reset and a commit.
pub open spec fn lines_commands(e: EditorView, v: BlockView, pieces: Seq<Seq<StyledText>>) -> Seq<
    CommandView,
>
    decreases pieces.len(),
{
    if pieces.len() == 0 {
        Seq::empty()
    } else {
        let j = pieces.len() - 1;
        lines_commands(e, v, pieces.drop_last()) + (if drawn_line(e, v, j) {
            line_effect(v, j, pieces.last()).1
        } else {
            Seq::empty()
        }) + seq![CommandView::ResetColor, CommandView::Flush]
    }
}

/// `pieces` gives, for each drawn line, pieces whose text is that line.
pub open spec fn highlights_fit(e: EditorView, v: BlockView, pieces: Seq<Seq<StyledText>>) -> bool {
    &&& pieces.len() == e.body.len()
    &&& forall|j: int|
        0 <= j < pieces.len() && drawn_line(e, v, j) ==> pieces_text(#[trigger] pieces[j])
            == e.body[j]
}

/// The cell the editing cursor is shown at in `v`.
pub open spec fn cursor_cell(e: EditorView, v: BlockView) -> (int, int) {
    (v.x + min(e.cursor_c, v.width - 1), v.y + min(e.cursor_l, v.height - 1))
}

/// What `output` queues, given the highlighted pieces of the lines it
/// draws: nothing when nothing changed; the cursor alone after a move;
/// otherwise the changed lines that fit, blanks below the text, and the
/// cursor.
pub open spec fn output_commands(e: EditorView, v: BlockView, pieces: Seq<Seq<StyledText>>) -> Seq<
    CommandView,
> {
    let (cx, cy) = cursor_cell(e, v);
    let tail = seq![
        CommandView::Flush,
        CommandView::ShowCursor,
        CommandView::MoveTo(cx as u16, cy as u16),
    ];
    if !e.to_re_render {
        Seq::empty()
    } else if e.only_cursor {
        seq![CommandView::HideCursor] + tail
    } else {
        seq![CommandView::HideCursor] + lines_commands(e, v, pieces) + blank_rows_from(
            v,
            e.body.len() as int,
            v.height,
        ) + tail
    }
}

proof fn lemma_blank_rows_frame(a: BlockView, b: BlockView, from: int, n: int)
    requires
        same_frame(a, b),
    ensures
        blank_rows_from(a, from, n) == blank_rows_from(b, from, n),
    decreases n - from,
{
    if n > from {
        lemma_blank_rows_frame(a, b, from, n - 1);
    }
}

/// The text of `s` from `from` to `to` replaced with `mid`.
fn splice(s: &String, from: usize, to: usize, mid: &str) -> (r: String)
    requires
        from <= to <= s@.len(),
    ensures
        r@ == s@.subrange(0, from as int) + mid@ + s@.subrange(to as int, s@.len() as int),
{
    let st = s.as_str();
    let n = st.unicode_len();
    let mut r = st.substring_char(0, from).to_owned();
    r.append(mid);
    r.append(st.substring_char(to, n));
    r
}

/// A copy of `s`.
fn copy_string(s: &String) -> (r: String)
    ensures
        r@ == s@,
{
    s.as_str().to_owned()
}

pub struct Editor {
    body: Vec<String>,
    ps: SyntaxSet,
    ts: ThemeSet,
    cursor_l: usize,
    cursor_c: usize,
    to_re_render: bool,
    only_cursor: bool,
    lines_changed: Vec<bool>,
}

impl View for Editor {
    type V = EditorView;

    closed spec fn view(&self) -> EditorView {
        EditorView {
            body: self.body@.map_values(|s: String| s@),
            cursor_l: self.cursor_l as int,
            cursor_c: self.cursor_c as int,
            to_re_render: self.to_re_render,
            only_cursor: self.only_cursor,
            lines_changed: self.lines_changed@,
        }
    }
}

impl Editor {
    /// An empty editor that highlights with the bundled JSON syntax.
    pub fn new() -> (r: Self)
        ensures
            r@ == (EditorView {
                body: Seq::empty(),
                cursor_l: 0,
                cursor_c: 0,
                to_re_render: true,
                only_cursor: false,
                lines_changed: Seq::empty(),
            }),
    {
        let r = Editor {
            body: Vec::new(),
            lines_changed: Vec::new(),
            cursor_l: 0,
            cursor_c: 0,
            to_re_render: true,
            only_cursor: false,
            ps: default_syntaxes(),
            ts: default_themes(),
        };
        assert(r@.body =~= Seq::<Seq<char>>::empty());
        r
    }

    /// Redraws what changed: the changed lines that fit in `target`,
    /// highlighted, and blanks below the text; then shows the cursor at
    /// the editing position. Moving the cursor only repositions it.
    pub fn output(&mut self, console: &mut Console, target: &mut Block)
        requires
            old(self)@.wf(),
            old(target).wf(),
        ensures
            final(self)@.wf(),
            final(target).wf(),
            same_frame(final(target)@, old(target)@),
            final(self)@ == old(self)@.rendered(),
            !old(self)@.to_re_render ==> final(target)@ == old(target)@ && final(console)@ == old(
                console,
            )@,
            old(self)@.to_re_render ==> final(target)@ == old(target)@.with_cursor(
                cursor_cell(old(self)@, old(target)@).0,
                cursor_cell(old(self)@, old(target)@).1,
            ),
            exists|pieces: Seq<Seq<StyledText>>|
                {
                    &&& final(console)@ == old(console)@ + #[trigger] output_commands(
                        old(self)@,
                        old(target)@,
                        pieces,
                    )
                    &&& old(self)@.to_re_render && !old(self)@.only_cursor ==> highlights_fit(
                        old(self)@,
                        old(target)@,
                        pieces,
                    )
                },
    {
        let ghost e0 = self@;
        let ghost v0 = target@;
        let ghost mut drawn: Seq<Seq<StyledText>> = Seq::empty();
        if !self.to_re_render {
            assert(console@ =~= old(console)@ + output_commands(e0, v0, drawn));
            assert(!(e0.to_re_render && !e0.only_cursor));
            return ;
        }
        console.hide_cursor();
        target.reset();
        let ghost base = console@;
        if !self.only_cursor {
            let syntax = find_syntax(&self.ps, BODY_SYNTAX);
            let theme = find_theme(&self.ts, BODY_THEME);
            let mut h = match (syntax, theme) {
                (Some(sy), Some(th)) => Some(highlighter(sy, th)),
                _ => None,
            };
            let mut line: usize = 0;
            while line < self.lines_changed.len()
                invariant
                    0 <= line <= self.lines_changed@.len(),
                    old(self)@.wf(),
                    self.lines_changed@.len() == old(self)@.lines_changed.len(),
                    self@ == (EditorView { lines_changed: self@.lines_changed, ..old(self)@ }),
                    forall|j: int|
                        0 <= j < self.lines_changed@.len() ==> #[trigger] self.lines_changed@[j]
                            == if j < line {
                            false
                        } else {
                            old(self)@.lines_changed[j]
                        },
                    target.wf(),
                    target@ == old(target)@.with_cursor(target@.cursor_x, target@.cursor_y),
                    e0 == old(self)@,
                    v0 == old(target)@,
                    drawn.len() == line,
                    forall|j: int|
                        0 <= j < line && drawn_line(e0, v0, j) ==> pieces_text(#[trigger] drawn[j])
                            == e0.body[j],
                    console@ == base + lines_commands(e0, v0, drawn),
                decreases self.lines_changed.len() - line,
            {
                let ghost before = console@;
                let ghost piece: Seq<StyledText> = Seq::empty();
                if self.lines_changed[line] {
                    if line < target.height() as usize {
                        assert(self@.body.len() == self.body@.len());
                        assert(self@.body[line as int] == self.body@[line as int]@);
                        let highlighted = match &mut h {
                            Some(hl) => highlight_line(hl, self.body[line].as_str(), &self.ps),
                            None => None,
                        };
                        let pieces = match highlighted {
                            Some(p) => p,
                            None => plain_pieces(&self.body[line]),
                        };
                        draw_line(console, target, line as u16, &pieces);
                        proof {
                            piece = pieces@;
                        }
                    }
                    self.lines_changed.set(line, false);
                }
                console.reset_color();
                console.flush();
                proof {
                    let next = drawn.push(piece);
                    assert(next.drop_last() =~= drawn);
                    assert(console@ =~= base + lines_commands(e0, v0, next));
                    drawn = next;
                }
                line = line + 1;
            }
            assert(self.lines_changed@ =~= Seq::new(old(self)@.lines_changed.len(), |j: int| false));
            let ghost mid = console@;
            target.empty_after(console, self.body.len());
            proof {
                lemma_blank_rows_frame(target@, v0, self.body.len() as int, v0.height);
                assert(console@ =~= mid + blank_rows_from(v0, e0.body.len() as int, v0.height));
            }
        }
        console.flush();
        console.show_cursor();
        let col: u16 = if self.cursor_c > 65535 {
            65535
        } else {
            self.cursor_c as u16
        };
        let row: u16 = if self.cursor_l > 65535 {
            65535
        } else {
            self.cursor_l as u16
        };
        target.move_to(console, col, row);
        self.to_re_render = false;
        self.only_cursor = false;
        assert(console@ =~= old(console)@ + output_commands(e0, v0, drawn));
        assert(e0.to_re_render && !e0.only_cursor ==> highlights_fit(e0, v0, drawn));
    }

    pub fn needs_re_render(&self) -> (r: bool)
        ensures
            r == self@.to_re_render,
    {
        self.to_re_render
    }

    fn line_len(&self, line: usize) -> (r: usize)
        requires
            line < self@.body.len(),
        ensures
            r == self@.body[line as int].len(),
    {
        assert(self@.body[line as int] == self.body@[line as int]@);
        self.body[line].as_str().unicode_len()
    }

    /// The text with lines joined by line feeds.
    pub fn get_body(&self) -> (r: String)
        ensures
            r@ == join_lines(self@.body),
    {
        let mut r = String::new();
        let mut i: usize = 0;
        while i < self.body.len()
            invariant
                0 <= i <= self.body@.len(),
                r@ == join_lines(self@.body.subrange(0, i as int)),
            decreases self.body.len() - i,
        {
            if i > 0 {
                push_char(&mut r, '\n');
            }
            r.append(self.body[i].as_str());
            i = i + 1;
            proof {
                let s = self@.body.subrange(0, i as int);
                assert(s.drop_last() =~= self@.body.subrange(0, i - 1));
                assert(s.last() == self.body@[i - 1]@);
            }
        }
        assert(self@.body.subrange(0, self@.body.len() as int) =~= self@.body);
        r
    }

    /// Replaces the text with `val`, split into lines, all to be drawn.
    pub fn set_val(&mut self, val: &str)
        requires
            old(self)@.wf(),
        ensures
            final(self)@.wf(),
            final(self)@ == old(self)@.with_text(val@),
    {
        let n = val.unicode_len();
        let mut lines: Vec<String> = Vec::new();
        let mut cur = String::new();
        let mut i: usize = 0;
        while i < n
            invariant
                0 <= i <= n,
                n == val@.len(),
                lines@.map_values(|s: String| s@).push(cur@) == split_lines(
                    val@.subrange(0, i as int),
                ),
            decreases n - i,
        {
            let c = val.get_char(i);
            let ghost prev = split_lines(val@.subrange(0, i as int));
            proof {
                assert(val@.subrange(0, i + 1).drop_last() =~= val@.subrange(0, i as int));
            }
            if c == '\n' {
                let done = cur;
                lines.push(done);
                cur = String::new();
                assert(lines@.map_values(|s: String| s@).push(cur@) =~= prev.push(Seq::empty()));
            } else {
                push_char(&mut cur, c);
                assert(lines@.map_values(|s: String| s@).push(cur@) =~= prev.update(
                    prev.len() - 1,
                    prev.last().push(c),
                ));
            }
            i = i + 1;
        }
        lines.push(cur);
        assert(val@.subrange(0, n as int) =~= val@);
        let count = lines.len();
        let mut changed: Vec<bool> = Vec::new();
        let mut j: usize = 0;
        while j < count
            invariant
                0 <= j <= count,
                changed@ == Seq::new(j as nat, |k: int| true),
            decreases count - j,
        {
            changed.push(true);
            j = j + 1;
            assert(changed@ =~= Seq::new(j as nat, |k: int| true));
        }
        self.body = lines;
        self.lines_changed = changed;
        self.to_re_render = true;
        assert(self@.body =~= split_lines(val@));
        self.safe_go_to(self.cursor_l, self.cursor_c);
    }

    fn safe_go_to(&mut self, line: usize, col: usize)
        requires
            old(self)@.lines_changed.len() == old(self)@.body.len(),
            old(self)@.body.len() == 0 ==> old(self)@.cursor_c == 0,
        ensures
            final(self)@ == old(self)@.go_to(line as int, col as int),
            final(self)@.wf(),
    {
        let line_cnt = self.body.len();
        if line_cnt > 0 {
            let safe_line = if line_cnt - 1 < line {
                line_cnt - 1
            } else {
                line
            };
            let line_len = self.line_len(safe_line);
            self.cursor_c = if line_len < col {
                line_len
            } else {
                col
            };
            self.cursor_l = safe_line;
        } else {
            self.cursor_l = 0;
        }
    }

    fn safe_go_to_col(&mut self, col: usize)
        requires
            old(self)@.wf(),
        ensures
            final(self)@ == old(self)@.go_to(old(self)@.cursor_l, col as int),
            final(self)@.wf(),
    {
        self.safe_go_to(self.cursor_l, col);
    }

    fn safe_go_to_line(&mut self, line: usize)
        requires
            old(self)@.wf(),
        ensures
            final(self)@ == old(self)@.go_to(line as int, old(self)@.cursor_c),
            final(self)@.wf(),
    {
        self.safe_go_to(line, self.cursor_c);
    }

    fn get_line_end(&self, line: usize) -> (r: usize)
        requires
            line < self@.body.len(),
        ensures
            r == self@.body[line as int].len(),
    {
        self.line_len(line)
    }

    /// Marks the lines from `line` on to be drawn.
    fn mark_lines_from(&mut self, line: usize)
        ensures
            final(self)@ == (EditorView {
                lines_changed: mark_from(old(self)@.lines_changed, line as int),
                ..old(self)@
            }),
    {
        let mut j = line;
        while j < self.lines_changed.len()
            invariant
                line <= j || j >= self.lines_changed@.len(),
                self.lines_changed@.len() == old(self)@.lines_changed.len(),
                self.body == old(self).body,
                self.cursor_l == old(self).cursor_l,
                self.cursor_c == old(self).cursor_c,
                self.to_re_render == old(self).to_re_render,
                self.only_cursor == old(self).only_cursor,
                forall|k: int|
                    0 <= k < self.lines_changed@.len() ==> #[trigger] self.lines_changed@[k] == if line
                        <= k < j {
                        true
                    } else {
                        old(self)@.lines_changed[k]
                    },
            decreases self.lines_changed.len() - j,
        {
            self.lines_changed.set(j, true);
            j = j + 1;
        }
        assert(self.lines_changed@ =~= mark_from(old(self)@.lines_changed, line as int));
    }

    fn remove_line(&mut self, line: usize)
        requires
            old(self)@.lines_changed.len() == old(self)@.body.len(),
            line < old(self)@.body.len(),
        ensures
            final(self)@ == old(self)@.removed_line(line as int),
    {
        self.body.remove(line);
        self.lines_changed.remove(line);
        self.to_re_render = true;
        assert(self@.body =~= old(self)@.body.remove(line as int));
        self.mark_lines_from(line);
    }

    /// Cuts the characters `start..end` out of line `line` and returns them.
    fn remove_line_interval(&mut self, line: usize, start: usize, end: usize) -> (r: String)
        requires
            old(self)@.lines_changed.len() == old(self)@.body.len(),
            line < old(self)@.body.len(),
            start <= end <= old(self)@.body[line as int].len(),
        ensures
            r@ == old(self)@.body[line as int].subrange(start as int, end as int),
            final(self)@ == old(self)@.with_line(
                line as int,
                old(self)@.body[line as int].subrange(0, start as int) + old(self)@.body[line
                    as int].subrange(end as int, old(self)@.body[line as int].len() as int),
            ),
    {
        self.to_re_render = true;
        self.lines_changed.set(line, true);
        assert(self@.body[line as int] == self.body@[line as int]@);
        let old_line = &self.body[line];
        let cut = old_line.as_str().substring_char(start, end).to_owned();
        let new_line = splice(old_line, start, end, "");
        proof {
            reveal_strlit("");
        }
        self.body.set(line, new_line);
        assert(self@.body =~= old(self)@.body.update(
            line as int,
            old(self)@.body[line as int].subrange(0, start as int) + old(self)@.body[line
                as int].subrange(end as int, old(self)@.body[line as int].len() as int),
        ));
        cut
    }

    fn add_line(&mut self, line: usize, buf: &str)
        requires
            old(self)@.lines_changed.len() == old(self)@.body.len(),
            line <= old(self)@.body.len(),
        ensures
            final(self)@ == old(self)@.added_line(line as int, buf@),
    {
        self.to_re_render = true;
        self.body.insert(line, buf.to_owned());
        self.lines_changed.insert(line, true);
        assert(self@.body =~= old(self)@.body.insert(line as int, buf@));
        self.mark_lines_from(line);
    }

    fn remove_char(&mut self, line: usize, col: usize)
        requires
            old(self)@.lines_changed.len() == old(self)@.body.len(),
            line < old(self)@.body.len(),
            col < old(self)@.body[line as int].len(),
        ensures
            final(self)@ == old(self)@.with_line(
                line as int,
                old(self)@.body[line as int].remove(col as int),
            ),
    {
        let n = self.line_len(line);
        self.to_re_render = true;
        self.lines_changed.set(line, true);
        assert(self@.body[line as int] == self.body@[line as int]@);
        let new_line = splice(&self.body[line], col, col + 1, "");
        proof {
            reveal_strlit("");
        }
        self.body.set(line, new_line);
        assert(self@.body =~= old(self)@.body.update(
            line as int,
            old(self)@.body[line as int].remove(col as int),
        ));
    }

    fn insert(&mut self, line: usize, col: usize, buf: &str)
        requires
            old(self)@.lines_changed.len() == old(self)@.body.len(),
            line < old(self)@.body.len(),
            col <= old(self)@.body[line as int].len(),
        ensures
            final(self)@ == old(self)@.with_line(
                line as int,
                old(self)@.body[line as int].subrange(0, col as int) + buf@ + old(self)@.body[line
                    as int].subrange(col as int, old(self)@.body[line as int].len() as int),
            ),
    {
        assert(self@.body[line as int] == self.body@[line as int]@);
        let new_line = splice(&self.body[line], col, col, buf);
        self.body.set(line, new_line);
        self.to_re_render = true;
        self.lines_changed.set(line, true);
        assert(self@.body =~= old(self)@.body.update(
            line as int,
            old(self)@.body[line as int].subrange(0, col as int) + buf@ + old(self)@.body[line
                as int].subrange(col as int, old(self)@.body[line as int].len() as int),
        ));
    }
    fn on_char_insert(&mut self, ch: char)
        requires
            old(self)@.wf(),
        ensures
            final(self)@.wf(),
            final(self)@ == old(self)@.after_char(ch),
    {
        proof {
            reveal_strlit("");
            assert(""@ =~= Seq::<char>::empty());
        }
        if self.body.len() == 0 {
            self.add_line(0, "");
            self.safe_go_to(0, 0);
        }
        let mut one = String::new();
        push_char(&mut one, ch);
        let ghost e = self@;
        assert(e.body[e.cursor_l].insert(e.cursor_c, ch) =~= e.body[e.cursor_l].subrange(
            0,
            e.cursor_c,
        ) + one@ + e.body[e.cursor_l].subrange(e.cursor_c, e.body[e.cursor_l].len() as int));
        self.insert(self.cursor_l, self.cursor_c, one.as_str());
        let len = self.line_len(self.cursor_l);
        self.safe_go_to_col(self.cursor_c + 1);
    }

    fn on_delete(&mut self)
        requires
            old(self)@.wf(),
        ensures
            final(self)@.wf(),
            final(self)@ == old(self)@.after_delete(),
    {
        if self.cursor_c == 0 {
            if self.cursor_l > 0 {
                let prev_line = self.cursor_l - 1;
                let cur_line = self.cursor_l;
                let prev_line_end = self.get_line_end(prev_line);
                assert(self@.body[cur_line as int] == self.body@[cur_line as int]@);
                let cur_text = copy_string(&self.body[cur_line]);
                let ghost e = self@;
                assert(e.body[prev_line as int] + e.body[cur_line as int] =~= e.body[prev_line
                    as int].subrange(0, prev_line_end as int) + cur_text@ + e.body[prev_line
                    as int].subrange(prev_line_end as int, e.body[prev_line as int].len() as int));
                self.insert(prev_line, prev_line_end, cur_text.as_str());
                self.remove_line(cur_line);
                self.safe_go_to(self.cursor_l - 1, prev_line_end);
            }
        } else {
            self.safe_go_to_col(self.cursor_c - 1);
            self.remove_char(self.cursor_l, self.cursor_c);
        }
    }

    fn on_enter(&mut self)
        requires
            old(self)@.wf(),
        ensures
            final(self)@.wf(),
            final(self)@ == old(self)@.after_enter(),
    {
        proof {
            reveal_strlit("");
            assert(""@ =~= Seq::<char>::empty());
        }
        let count = self.body.len();
        assert(self@.body.len() == count);
        if self.cursor_c == 0 {
            self.add_line(self.cursor_l, "");
            self.safe_go_to_line(self.cursor_l + 1);
        } else {
            let end = self.get_line_end(self.cursor_l);
            if self.cursor_c == end {
                self.add_line(self.cursor_l + 1, "");
                self.safe_go_to(self.cursor_l + 1, 0);
            } else {
                let ghost text = self@.body[self.cursor_l as int];
                let substr = self.remove_line_interval(self.cursor_l, self.cursor_c, end);
                assert(text.subrange(0, self.cursor_c as int) + text.subrange(end as int, text.len() as int) =~= text.subrange(0, self.cursor_c as int));
                self.add_line(self.cursor_l + 1, substr.as_str());
                self.safe_go_to(self.cursor_l + 1, 0);
            }
        }
    }

    fn on_move_up(&mut self)
        requires
            old(self)@.wf(),
        ensures
            final(self)@.wf(),
            final(self)@ == if old(self)@.cursor_l > 0 {
                old(self)@.cursor_moved(old(self)@.cursor_l - 1, old(self)@.cursor_c)
            } else {
                old(self)@
            },
    {
        if self.cursor_l > 0 {
            self.safe_go_to_line(self.cursor_l - 1);
            self.only_cursor = true;
            self.to_re_render = true;
        }
    }

    fn on_move_down(&mut self)
        requires
            old(self)@.wf(),
        ensures
            final(self)@.wf(),
            final(self)@ == old(self)@.cursor_moved(old(self)@.cursor_l + 1, old(self)@.cursor_c),
    {
        let count = self.body.len();
        assert(self@.body.len() == count);
        self.safe_go_to_line(self.cursor_l.saturating_add(1));
        self.only_cursor = true;
        self.to_re_render = true;
    }

    fn on_move_left(&mut self)
        requires
            old(self)@.wf(),
        ensures
            final(self)@.wf(),
            final(self)@ == if old(self)@.cursor_c > 0 {
                old(self)@.cursor_moved(old(self)@.cursor_l, old(self)@.cursor_c - 1)
            } else {
                old(self)@
            },
    {
        if self.cursor_c > 0 {
            self.safe_go_to_col(self.cursor_c - 1);
            self.only_cursor = true;
            self.to_re_render = true;
        }
    }

    fn on_move_right(&mut self)
        requires
            old(self)@.wf(),
        ensures
            final(self)@.wf(),
            final(self)@ == old(self)@.cursor_moved(old(self)@.cursor_l, old(self)@.cursor_c + 1),
    {
        if self.body.len() > 0 {
            let len = self.line_len(self.cursor_l);
        }
        self.safe_go_to_col(self.cursor_c.saturating_add(1));
        self.only_cursor = true;
        self.to_re_render = true;
    }

    /// Edits the text or moves the cursor for a key press.
    pub fn on_event(&mut self, event: &KeyEvent)
        requires
            old(self)@.wf(),
        ensures
            final(self)@.wf(),
            final(self)@ == old(self)@.after_key(*event),
    {
        if !matches!(event.kind, KeyEventKind::Press) {
            return ;
        }
        match event.code {
            KeyCode::Char(c) => self.on_char_insert(c),
            KeyCode::Backspace | KeyCode::Delete => self.on_delete(),
            KeyCode::Enter => self.on_enter(),
            KeyCode::Up => self.on_move_up(),
            KeyCode::Down => self.on_move_down(),
            KeyCode::Left => self.on_move_left(),
            KeyCode::Right => self.on_move_right(),
            _ => {},
        }
    }
}

} // verus!

verus! {

proof fn lemma_split_nonempty(s: Seq<char>)
    ensures
        split_lines(s).len() >= 1,
    decreases s.len(),
{
    if s.len() > 0 {
        lemma_split_nonempty(s.drop_last());
    }
}

/// Setting a body and reading it back gives the same text: joining the
/// lines of `s` with line feeds restores `s`.
pub proof fn lemma_body_round_trip(s: Seq<char>)
    ensures
        join_lines(split_lines(s)) == s,
    decreases s.len(),
{
    if s.len() > 0 {
        let t = s.drop_last();
        let c = s.last();
        lemma_body_round_trip(t);
        lemma_split_nonempty(t);
        let prev = split_lines(t);
        if c == '\n' {
            let next = prev.push(Seq::empty());
            assert(next.drop_last() =~= prev);
            assert(join_lines(next) =~= s);
        } else {
            let next = prev.update(prev.len() - 1, prev.last().push(c));
            if prev.len() == 1 {
                assert(join_lines(next) =~= s);
            } else {
                assert(next.drop_last() =~= prev.drop_last());
                assert(next.last() == prev.last().push(c));
                assert(join_lines(prev) == join_lines(prev.drop_last()) + seq!['\n'] + prev.last());
                assert(s =~= t.push(c));
                assert(join_lines(next) =~= s);
            }
        }
    }
}

/// Drawing twice in a row draws once: after `output` the editor is not
/// stale, and `output` on an editor that is not stale changes nothing.
pub proof fn lemma_editor_output_idempotent(e: EditorView)
    ensures
        !e.rendered().to_re_render,
        e.rendered().rendered() == e.rendered(),
{
}

} // verus!
