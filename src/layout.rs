//! The focus layout: four named viewports, a focus state on each, and the
//! two-mode machine (navigation or interaction) that decides which pane
//! receives keys. Exactly one of the list, input and request viewports
//! holds the focus at any time: Selected while navigating, Active while its
//! pane receives keys. The hint viewport never holds it.

use vstd::prelude::*;
use crate::block::{new_view, render_commands, same_frame, Block, BlockState, BlockView};
use crate::console::{CommandView, Console};
use crate::keys::{KeyCode, KeyEvent, KeyEventKind};

verus! {

/// The viewports that can hold the focus.
#[derive(Clone, Copy, Debug, PartialEq, Eq, Structural)]
pub enum Region {
    List,
    Input,
    Request,
}

/// What the application loop does after the layout has seen a key.
#[derive(Clone, Copy, Debug, PartialEq, Eq, Structural)]
pub enum LayoutAction {
    /// Leave the application.
    Exit,
    /// The layout took care of the key.
    Consumed,
    /// Hand the key to the pane of this viewport.
    Forward(Region),
    /// A key in navigation mode that the layout does not use.
    Unhandled,
}

pub const LEFT_COL_WIDTH: u16 = 40;

pub const INPUT_HEIGHT: u16 = 3;

pub const HINT_HEIGHT: u16 = 3;

pub open spec fn with_state(v: BlockView, s: BlockState) -> BlockView {
    BlockView { state: s, ..v }
}

pub open spec fn is_arrow(code: KeyCode) -> bool {
    code == KeyCode::Up || code == KeyCode::Down || code == KeyCode::Left || code
        == KeyCode::Right
}

/// The neighbor of `focus` in the direction of an arrow key; `focus` itself
/// where there is none.
pub open spec fn neighbor(focus: Region, code: KeyCode) -> Region {
    match code {
        KeyCode::Up => if focus == Region::Request {
            Region::Input
        } else {
            focus
        },
        KeyCode::Down => if focus == Region::Input {
            Region::Request
        } else {
            focus
        },
        KeyCode::Left => if focus == Region::Request || focus == Region::Input {
            Region::List
        } else {
            focus
        },
        KeyCode::Right => if focus == Region::List {
            Region::Input
        } else {
            focus
        },
        _ => focus,
    }
}

/// The focused viewport and the navigation flag after a key.
pub open spec fn next_focus(focus: Region, navigating: bool, e: KeyEvent) -> (Region, bool) {
    if !e.is_press() {
        (focus, navigating)
    } else if navigating {
        if e.code == KeyCode::Enter {
            (focus, false)
        } else {
            (neighbor(focus, e.code), true)
        }
    } else if e.code == KeyCode::Esc {
        (focus, true)
    } else {
        (focus, false)
    }
}

/// What the loop is told to do after a key.
pub open spec fn key_action(focus: Region, navigating: bool, e: KeyEvent) -> LayoutAction {
    if !e.is_press() {
        LayoutAction::Consumed
    } else if navigating {
        if e.code == KeyCode::Esc {
            LayoutAction::Exit
        } else if e.code == KeyCode::Enter || is_arrow(e.code) {
            LayoutAction::Consumed
        } else {
            LayoutAction::Unhandled
        }
    } else if e.code == KeyCode::Esc {
        LayoutAction::Consumed
    } else {
        LayoutAction::Forward(focus)
    }
}

/// The four viewports of the screen and the navigation flag.
pub struct Layout {
    pub select_mode: bool,
    pub list_cont: Block,
    pub input_cont: Block,
    pub req_cont: Block,
    pub hint_cont: Block,
}

impl Layout {
    pub open spec fn block_of(&self, r: Region) -> BlockView {
        match r {
            Region::List => self.list_cont@,
            Region::Input => self.input_cont@,
            Region::Request => self.req_cont@,
        }
    }

    /// The viewport that holds the focus.
    pub open spec fn focus(&self) -> Region {
        if self.list_cont@.state != BlockState::Inactive {
            Region::List
        } else if self.input_cont@.state != BlockState::Inactive {
            Region::Input
        } else {
            Region::Request
        }
    }

    pub open spec fn focus_state(&self) -> BlockState {
        if self.select_mode {
            BlockState::Selected
        } else {
            BlockState::Active
        }
    }

    pub open spec fn blocks_wf(&self) -> bool {
        &&& self.list_cont.wf()
        &&& self.input_cont.wf()
        &&& self.req_cont.wf()
        &&& self.hint_cont.wf()
    }

    /// The focus state that viewport `r` must be in.
    pub open spec fn expected_state(&self, r: Region) -> BlockState {
        if r == self.focus() {
            self.focus_state()
        } else {
            BlockState::Inactive
        }
    }

    pub open spec fn wf(&self) -> bool {
        &&& self.blocks_wf()
        &&& self.hint_cont@.state == BlockState::Inactive
        &&& self.list_cont@.state == self.expected_state(Region::List)
        &&& self.input_cont@.state == self.expected_state(Region::Input)
        &&& self.req_cont@.state == self.expected_state(Region::Request)
    }

    /// Only focus states differ between `self` and `other`.
    pub open spec fn same_frames(&self, other: &Layout) -> bool {
        &&& self.list_cont@ == with_state(other.list_cont@, self.list_cont@.state)
        &&& self.input_cont@ == with_state(other.input_cont@, self.input_cont@.state)
        &&& self.req_cont@ == with_state(other.req_cont@, self.req_cont@.state)
        &&& self.hint_cont@ == other.hint_cont@
    }

    /// Only cursors differ between the viewports of `self` and `other`.
    pub open spec fn same_geometry(&self, other: &Layout) -> bool {
        &&& same_frame(self.list_cont@, other.list_cont@)
        &&& same_frame(self.input_cont@, other.input_cont@)
        &&& same_frame(self.req_cont@, other.req_cont@)
        &&& same_frame(self.hint_cont@, other.hint_cont@)
    }

    /// Nothing that a contract speaks of differs between `self` and `other`.
    pub open spec fn same_views(&self, other: &Layout) -> bool {
        &&& self.select_mode == other.select_mode
        &&& self.list_cont@ == other.list_cont@
        &&& self.input_cont@ == other.input_cont@
        &&& self.req_cont@ == other.req_cont@
        &&& self.hint_cont@ == other.hint_cont@
    }

    /// What the screen shows after a key, beyond the panes' content: the
    /// borders whose focus changed, and the cursor's visibility.
    pub open spec fn key_commands(&self, e: KeyEvent) -> Seq<CommandView> {
        let f = self.focus();
        if !e.is_press() {
            Seq::empty()
        } else if self.select_mode {
            if is_arrow(e.code) {
                let t = neighbor(f, e.code);
                let moved = if t != f {
                    render_commands(with_state(self.block_of(f), BlockState::Inactive))
                        + render_commands(with_state(self.block_of(t), BlockState::Selected))
                } else {
                    Seq::empty()
                };
                moved.push(CommandView::HideCursor)
            } else if e.code == KeyCode::Enter {
                render_commands(with_state(self.block_of(f), BlockState::Active)).push(
                    if f == Region::List {
                        CommandView::HideCursor
                    } else {
                        CommandView::ShowCursor
                    },
                )
            } else {
                Seq::empty()
            }
        } else if e.code == KeyCode::Esc {
            render_commands(with_state(self.block_of(f), BlockState::Selected)).push(
                CommandView::HideCursor,
            )
        } else {
            Seq::empty()
        }
    }

    /// The layout of a `width` by `height` screen: the request list on the
    /// left above the hints, the URL input and the request body on the right.
    /// Navigation starts on the list.
    pub fn new(width: u16, height: u16) -> (r: Self)
        requires
            width >= LEFT_COL_WIDTH + 2 + 3,
            height >= HINT_HEIGHT + INPUT_HEIGHT + 3,
        ensures
            r.wf(),
            r.select_mode,
            r.focus() == Region::List,
            r.list_cont@ == with_state(
                new_view(0, 0, LEFT_COL_WIDTH, (height - HINT_HEIGHT) as u16, true),
                BlockState::Selected,
            ),
            r.input_cont@ == new_view(
                (LEFT_COL_WIDTH + 1) as u16,
                0,
                (width - LEFT_COL_WIDTH - 2) as u16,
                INPUT_HEIGHT,
                true,
            ),
            r.req_cont@ == new_view(
                (LEFT_COL_WIDTH + 1) as u16,
                INPUT_HEIGHT,
                (width - LEFT_COL_WIDTH - 2) as u16,
                (height - HINT_HEIGHT - INPUT_HEIGHT) as u16,
                true,
            ),
            r.hint_cont@ == new_view(
                0,
                (height - HINT_HEIGHT) as u16,
                (width - 1) as u16,
                HINT_HEIGHT,
                true,
            ),
    {
        let right_col_width: u16 = width - LEFT_COL_WIDTH - 2;
        let list_height: u16 = height - HINT_HEIGHT;
        let req_height: u16 = height - HINT_HEIGHT - INPUT_HEIGHT;

        let mut list_cont = Block::new(0, 0, LEFT_COL_WIDTH, list_height, true);
        list_cont.set_state(BlockState::Selected);

        let input_cont = Block::new(LEFT_COL_WIDTH + 1, 0, right_col_width, INPUT_HEIGHT, true);
        let req_cont = Block::new(
            LEFT_COL_WIDTH + 1,
            INPUT_HEIGHT,
            right_col_width,
            req_height,
            true,
        );
        let hint_cont = Block::new(0, list_height, width - 1, HINT_HEIGHT, true);

        let r = Layout { select_mode: true, list_cont, input_cont, req_cont, hint_cont };
        r
    }

    /// The viewport that holds the focus.
    pub fn focused(&self) -> (r: Region)
        ensures
            r == self.focus(),
    {
        if !matches!(self.list_cont.state(), BlockState::Inactive) {
            Region::List
        } else if !matches!(self.input_cont.state(), BlockState::Inactive) {
            Region::Input
        } else {
            Region::Request
        }
    }

    fn set_region_state(&mut self, r: Region, s: BlockState)
        requires
            old(self).blocks_wf(),
        ensures
            final(self).blocks_wf(),
            final(self).select_mode == old(self).select_mode,
            final(self).hint_cont@ == old(self).hint_cont@,
            final(self).list_cont@ == if r == Region::List {
                with_state(old(self).list_cont@, s)
            } else {
                old(self).list_cont@
            },
            final(self).input_cont@ == if r == Region::Input {
                with_state(old(self).input_cont@, s)
            } else {
                old(self).input_cont@
            },
            final(self).req_cont@ == if r == Region::Request {
                with_state(old(self).req_cont@, s)
            } else {
                old(self).req_cont@
            },
    {
        match r {
            Region::List => self.list_cont.set_state(s),
            Region::Input => self.input_cont.set_state(s),
            Region::Request => self.req_cont.set_state(s),
        }
    }

    fn render_region(&mut self, r: Region, console: &mut Console)
        requires
            old(self).blocks_wf(),
        ensures
            final(self).same_views(old(self)),
            final(console)@ == old(console)@ + render_commands(old(self).block_of(r)),
    {
        match r {
            Region::List => self.list_cont.render(console),
            Region::Input => self.input_cont.render(console),
            Region::Request => self.req_cont.render(console),
        }
    }

    /// Back to navigation: the active viewport becomes the selected one.
    pub fn enter_select_mode(&mut self)
        requires
            old(self).wf(),
        ensures
            final(self).wf(),
            final(self).select_mode,
            final(self).focus() == old(self).focus(),
            final(self).same_frames(old(self)),
    {
        let f = self.focused();
        self.select_mode = true;
        self.set_region_state(f, BlockState::Selected);
    }

    /// Draws the borders of the four viewports.
    pub fn render(&mut self, console: &mut Console)
        requires
            old(self).blocks_wf(),
        ensures
            final(self).same_views(old(self)),
            final(console)@ == old(console)@ + render_commands(old(self).list_cont@)
                + render_commands(old(self).input_cont@) + render_commands(
                old(self).req_cont@,
            ) + render_commands(old(self).hint_cont@),
    {
        self.list_cont.render(console);
        self.input_cont.render(console);
        self.req_cont.render(console);
        self.hint_cont.render(console);
    }

    /// In navigation mode, moves the selection with the arrow keys and
    /// activates the selected viewport with Enter; redraws the borders that
    /// changed. Does nothing otherwise.
    pub fn navigate(&mut self, e: &KeyEvent, console: &mut Console)
        requires
            old(self).wf(),
        ensures
            final(self).wf(),
            final(self).same_frames(old(self)),
            old(self).select_mode && e.code != KeyCode::Esc ==> {
                &&& (final(self).focus(), final(self).select_mode) == next_focus(
                    old(self).focus(),
                    old(self).select_mode,
                    *e,
                )
                &&& final(console)@ == old(console)@ + old(self).key_commands(*e)
            },
            !(old(self).select_mode && e.code != KeyCode::Esc) ==> {
                &&& final(self).same_views(old(self))
                &&& final(console)@ == old(console)@
            },
    {
        if !self.select_mode || !matches!(e.kind, KeyEventKind::Press) {
            return ;
        }
        let ghost start = console@;
        let f = self.focused();
        match e.code {
            KeyCode::Up | KeyCode::Down | KeyCode::Left | KeyCode::Right => {
                let t = neighbor_of(f, e.code);
                if t != f {
                    self.set_region_state(f, BlockState::Inactive);
                    self.set_region_state(t, BlockState::Selected);
                    self.render_region(f, console);
                    self.render_region(t, console);
                }
                console.hide_cursor();
            },
            KeyCode::Enter => {
                self.set_region_state(f, BlockState::Active);
                self.select_mode = false;
                self.render_region(f, console);
                if f == Region::List {
                    console.hide_cursor();
                } else {
                    console.show_cursor();
                }
            },
            _ => {},
        }
        assert(console@ =~= start + old(self).key_commands(*e));
    }

    /// Handles a key: in navigation mode Escape leaves the application and
    /// arrows and Enter move or activate the focus; in interaction mode
    /// Escape goes back to navigation and every other key belongs to the
    /// active pane. Key releases and repeats change nothing.
    pub fn handle_key(&mut self, e: &KeyEvent, console: &mut Console) -> (r: LayoutAction)
        requires
            old(self).wf(),
        ensures
            final(self).wf(),
            final(self).same_frames(old(self)),
            (final(self).focus(), final(self).select_mode) == next_focus(
                old(self).focus(),
                old(self).select_mode,
                *e,
            ),
            r == key_action(old(self).focus(), old(self).select_mode, *e),
            final(console)@ == old(console)@ + old(self).key_commands(*e),
    {
        if !matches!(e.kind, KeyEventKind::Press) {
            assert(console@ =~= old(console)@ + old(self).key_commands(*e));
            return LayoutAction::Consumed;
        }
        if self.select_mode {
            match e.code {
                KeyCode::Esc => {
                    assert(console@ =~= old(console)@ + old(self).key_commands(*e));
                    LayoutAction::Exit
                },
                KeyCode::Up | KeyCode::Down | KeyCode::Left | KeyCode::Right | KeyCode::Enter => {
                    self.navigate(e, console);
                    LayoutAction::Consumed
                },
                _ => {
                    self.navigate(e, console);
                    LayoutAction::Unhandled
                },
            }
        } else {
            let f = self.focused();
            match e.code {
                KeyCode::Esc => {
                    self.enter_select_mode();
                    self.render_region(f, console);
                    console.hide_cursor();
                    LayoutAction::Consumed
                },
                _ => {
                    assert(console@ =~= old(console)@ + old(self).key_commands(*e));
                    LayoutAction::Forward(f)
                },
            }
        }
    }
}

fn neighbor_of(focus: Region, code: KeyCode) -> (r: Region)
    ensures
        r == neighbor(focus, code),
{
    match code {
        KeyCode::Up => if focus == Region::Request {
            Region::Input
        } else {
            focus
        },
        KeyCode::Down => if focus == Region::Input {
            Region::Request
        } else {
            focus
        },
        KeyCode::Left => if focus == Region::Request || focus == Region::Input {
            Region::List
        } else {
            focus
        },
        KeyCode::Right => if focus == Region::List {
            Region::Input
        } else {
            focus
        },
        _ => focus,
    }
}

} // verus!

verus! {

/// Focus is exclusive: while navigating no viewport is active and exactly
/// one is selected; otherwise exactly one is active and none is selected.
/// The hint viewport is never focused.
pub proof fn lemma_focus_exclusive(l: Layout)
    requires
        l.wf(),
    ensures
        l.hint_cont@.state == BlockState::Inactive,
        l.select_mode ==> {
            &&& forall|r: Region| #[trigger] l.block_of(r).state != BlockState::Active
            &&& forall|r: Region| #[trigger] l.block_of(r).state == BlockState::Selected <==> r == l.focus()
        },
        !l.select_mode ==> {
            &&& forall|r: Region| #[trigger] l.block_of(r).state != BlockState::Selected
            &&& forall|r: Region| #[trigger] l.block_of(r).state == BlockState::Active <==> r == l.focus()
        },
{
    assert forall|r: Region| #[trigger] l.block_of(r).state == l.expected_state(r) by {
        match r {
            Region::List => {},
            Region::Input => {},
            Region::Request => {},
        }
    }
}

} // verus!

verus! {

/// Enter then Escape comes back to navigation on the same viewport, and
/// Escape leaves the application only while navigating.
pub proof fn lemma_enter_escape_round_trip(f: Region, shift: bool)
    ensures
        ({
            let enter = KeyEvent { code: KeyCode::Enter, shift, kind: KeyEventKind::Press };
            let esc = KeyEvent { code: KeyCode::Esc, shift, kind: KeyEventKind::Press };
            let (f1, nav1) = next_focus(f, true, enter);
            &&& f1 == f && !nav1
            &&& next_focus(f1, nav1, esc) == (f, true)
            &&& key_action(f1, nav1, esc) == LayoutAction::Consumed
            &&& key_action(f, true, esc) == LayoutAction::Exit
        }),
{
}

} // verus!
