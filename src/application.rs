//! The application: the model, the layout and the panes bound to its
//! viewports, and what each key does to them. The caller runs the loop:
//! it reads keys, hands them over, persists the model when asked, and
//! sends the queued drawing commands to the terminal.

use vstd::prelude::*;
use crate::block::{new_view, render_commands};
use crate::console::{CommandView, Console};
use crate::editor::{highlights_fit, join_lines, output_commands, Editor, EditorView, StyledText};
use crate::input::{Input, InputView};
use crate::keys::{KeyCode, KeyEvent};
use crate::layout::{
    key_action,
    next_focus,
    with_state,
    Layout,
    LayoutAction,
    Region,
    HINT_HEIGHT,
    INPUT_HEIGHT,
    LEFT_COL_WIDTH,
};
use crate::list::{byte_len, List, ListView};
use crate::model::{Model, Request, RequestView};
use crate::shortcuts::{hints_effect, ShortcutsView};
use crate::text::is_trim_of;
use crate::block::BlockState;

verus! {

/// What the loop does after a key.
#[derive(Clone, Copy, Debug, PartialEq, Eq, Structural)]
pub enum AppAction {
    Continue,
    /// The model changed and is to be persisted.
    Save,
    Exit,
}

pub const SAVED_MESSAGE: &'static str = "saved on disk";

/// The request saved by `s`: the open request with the URL and body being
/// edited.
pub open spec fn edited_request(cur: RequestView, url: Seq<char>, body: Seq<char>) -> RequestView {
    RequestView { url, body, query_params: Seq::empty(), ..cur }
}

pub struct Application {
    pub model: Model,
    pub layout: Layout,
    pub input: Input,
    pub options: List,
    pub editor: Editor,
    pub shortcuts: ShortcutsView,
    pub current_request: Option<Request>,
    pub current_request_id: Option<usize>,
}

impl Application {
    pub open spec fn wf(&self) -> bool {
        &&& self.layout.wf()
        &&& self.options@.wf()
        &&& self.editor@.wf()
        &&& self.options@.values.len() == self.model@.len()
        &&& self.current_request_id matches Some(id) ==> id < self.model@.len()
    }

    /// What a key does at the application's level.
    pub open spec fn action(&self, e: KeyEvent) -> AppAction {
        let a = key_action(self.layout.focus(), self.layout.select_mode, e);
        if a == LayoutAction::Exit {
            AppAction::Exit
        } else if a == LayoutAction::Unhandled && e.code == KeyCode::Char('s')
            && self.current_request is Some && self.current_request_id is Some {
            AppAction::Save
        } else {
            AppAction::Continue
        }
    }

    /// Whether the key picks a request in the active list, which then opens.
    pub open spec fn opens_request(&self, e: KeyEvent) -> bool {
        &&& key_action(self.layout.focus(), self.layout.select_mode, e) == LayoutAction::Forward(
            Region::List,
        )
        &&& self.options@.after_key(e).option_selected
        &&& self.model@.len() > 0
    }

    /// What a key queues beyond the layout's own redraws: the notice of a
    /// save.
    pub open spec fn save_commands(&self, e: KeyEvent) -> Seq<CommandView> {
        if key_action(self.layout.focus(), self.layout.select_mode, e) == LayoutAction::Unhandled
            && e.code == KeyCode::Char('s') && self.current_request is Some {
            seq![
                CommandView::MoveTo(0, 50),
                CommandView::Print(SAVED_MESSAGE@),
                CommandView::Flush,
            ]
        } else {
            Seq::empty()
        }
    }

    /// What the hints draw when asked to render.
    pub open spec fn hints_commands(&self) -> Seq<CommandView> {
        if self.shortcuts.needs_re_render_spec() {
            hints_effect(self.layout.hint_cont@).1
        } else {
            Seq::empty()
        }
    }

    /// The input, editor, open request and layout of `self` are those of
    /// `prior`, whose list was `list`, after opening the request picked in
    /// `list`: its URL goes to the input, its body to the editor, and
    /// navigation resumes on the same viewport. When nothing was picked,
    /// nothing changes; a pick in an empty list is only cleared.
    pub open spec fn opened_from(&self, prior: &Application, list: ListView) -> bool {
        &&& self.model@ == prior.model@
        &&& if !list.option_selected {
            &&& self.options@ == list
            &&& self.input@ == prior.input@
            &&& self.editor@ == prior.editor@
            &&& self.current_request == prior.current_request
            &&& self.current_request_id == prior.current_request_id
            &&& self.layout.same_views(&prior.layout)
        } else if prior.model@.len() == 0 {
            &&& self.options@ == (ListView { option_selected: false, ..list })
            &&& self.input@ == prior.input@
            &&& self.editor@ == prior.editor@
            &&& self.current_request == prior.current_request
            &&& self.current_request_id == prior.current_request_id
            &&& self.layout.same_views(&prior.layout)
        } else {
            let r = prior.model@[list.selected];
            &&& self.options@ == (ListView { option_selected: false, ..list })
            &&& self.current_request_id == Some(list.selected as usize)
            &&& self.current_request is Some
            &&& self.current_request->0@ == r.stripped()
            &&& self.input@ == (InputView { value: r.url, to_re_render: true, ..prior.input@ })
            &&& self.editor@ == prior.editor@.with_text(r.body)
            &&& self.layout.select_mode
            &&& self.layout.focus() == prior.layout.focus()
            &&& self.layout.same_frames(&prior.layout)
        }
    }

    /// The application on a screen of `width` by `height` cells, showing
    /// `model`.
    pub fn new(width: u16, height: u16, model: Model) -> (r: Self)
        requires
            width >= 45,
            height >= 9,
            forall|i: int|
                0 <= i < model@.len() ==> byte_len(#[trigger] model@[i].method) + 2 <= usize::MAX
                    && byte_len(model@[i].title) <= usize::MAX,
        ensures
            r.wf(),
            r.model@ == model@,
            r.layout.select_mode,
            r.layout.focus() == Region::List,
            r.layout.list_cont@ == with_state(
                new_view(0, 0, LEFT_COL_WIDTH, (height - HINT_HEIGHT) as u16, true),
                BlockState::Selected,
            ),
            r.layout.input_cont@ == new_view(
                (LEFT_COL_WIDTH + 1) as u16,
                0,
                (width - LEFT_COL_WIDTH - 2) as u16,
                INPUT_HEIGHT,
                true,
            ),
            r.layout.req_cont@ == new_view(
                (LEFT_COL_WIDTH + 1) as u16,
                INPUT_HEIGHT,
                (width - LEFT_COL_WIDTH - 2) as u16,
                (height - HINT_HEIGHT - INPUT_HEIGHT) as u16,
                true,
            ),
            r.layout.hint_cont@ == new_view(
                0,
                (height - HINT_HEIGHT) as u16,
                (width - 1) as u16,
                HINT_HEIGHT,
                true,
            ),
            r.options@.values.len() == model@.len(),
            forall|j: int|
                0 <= j < model@.len() ==> #[trigger] r.options@.values[j] == model@[j].stripped(),
            r.options@.selected == 0,
            !r.options@.option_selected,
            r.options@.to_re_render,
            r.options@.width == r.layout.list_cont@.width,
            r.input@ == (InputView { value: Seq::empty(), to_empty: false, to_re_render: true }),
            r.editor@ == (EditorView {
                body: Seq::empty(),
                cursor_l: 0,
                cursor_c: 0,
                to_re_render: true,
                only_cursor: false,
                lines_changed: Seq::empty(),
            }),
            r.shortcuts.needs_re_render_spec(),
            r.current_request is None,
            r.current_request_id is None,
    {
        let layout = Layout::new(width, height);
        let list_width = layout.list_cont.width() as usize;
        let values = model.snapshot();
        proof {
            assert forall|i: int| 0 <= i < values@.len() implies byte_len(
                #[trigger] values@[i].method@,
            ) + 2 <= usize::MAX && byte_len(values@[i].title@) <= usize::MAX by {
                assert(values@[i]@ == model@[i].stripped());
            }
        }
        let options = List::new(values, list_width);
        proof {
            assert(values@.map_values(|q: Request| q@).len() == values@.len());
            assert forall|j: int| 0 <= j < model@.len() implies #[trigger] options@.values[j]
                == model@[j].stripped() by {
                assert(values@.map_values(|q: Request| q@)[j] == values@[j]@);
            }
        }
        Application {
            current_request: None,
            current_request_id: None,
            input: Input::new(),
            options,
            editor: Editor::new(),
            shortcuts: ShortcutsView::new(),
            model,
            layout,
        }
    }

    /// Opens the request picked in the list: its URL and body go to the
    /// input and the editor, and navigation resumes.
    pub fn check_option_selected(&mut self)
        requires
            old(self).wf(),
        ensures
            final(self).wf(),
            final(self).opened_from(old(self), old(self).options@),
    {
        if self.options.option_selected() && self.options.selected() < self.model.requests.len() {
            let i = self.options.selected();
            assert(self.model@[i as int] == self.model.requests@[i as int]@);
            let request = Request::from(&self.model.requests[i]);
            self.options.clear_option_selected();
            self.input.set_val(request.url.as_str());
            self.editor.set_val(request.body.as_str());
            self.current_request = Some(request);
            self.current_request_id = Some(i);
            self.layout.enter_select_mode();
        } else if self.options.option_selected() {
            self.options.clear_option_selected();
        }
    }

    /// Saves the open request with what the input and the editor hold.
    fn save(&mut self, console: &mut Console) -> (r: AppAction)
        requires
            old(self).wf(),
        ensures
            final(self).wf(),
            final(self).layout == old(self).layout,
            final(self).input@ == old(self).input@,
            final(self).editor@ == old(self).editor@,
            final(self).options@ == old(self).options@,
            final(self).current_request == old(self).current_request,
            final(self).current_request_id == old(self).current_request_id,
            final(console)@ == old(console)@ + if old(self).current_request is Some {
                seq![
                    CommandView::MoveTo(0, 50),
                    CommandView::Print(SAVED_MESSAGE@),
                    CommandView::Flush,
                ]
            } else {
                Seq::empty()
            },
            r == if old(self).current_request is Some && old(self).current_request_id is Some {
                AppAction::Save
            } else {
                AppAction::Continue
            },
            r == AppAction::Save ==> exists|url: Seq<char>|
                is_trim_of(url, old(self).input@.value) && final(self).model@ == old(self).model@.update(
                    old(self).current_request_id->0 as int,
                    edited_request(
                        old(self).current_request->0@,
                        url,
                        join_lines(old(self).editor@.body),
                    ),
                ),
            r != AppAction::Save ==> final(self).model@ == old(self).model@,
    {
        match &self.current_request {
            Some(cur) => {
                let r = Request {
                    title: cur.title.clone(),
                    method: cur.method.clone(),
                    url: self.input.get_value(),
                    body: self.editor.get_body(),
                    query_params: Vec::new(),
                };
                assert(r@.query_params =~= Seq::<Seq<char>>::empty());
                console.move_to(0, 50);
                console.write(SAVED_MESSAGE);
                console.flush();
                match self.current_request_id {
                    Some(id) => {
                        self.model.update_request(id, &r);
                        assert(r@.stripped() == edited_request(cur@, r@.url, r@.body));
                        AppAction::Save
                    },
                    None => AppAction::Continue,
                }
            },
            None => {
                assert(console@ =~= old(console)@ + Seq::<CommandView>::empty());
                AppAction::Continue
            },
        }
    }

    /// Dispatches a key: navigation and Escape go to the layout, `s` saves
    /// the open request and `e` executes it while navigating, and every
    /// other key goes to the active pane, and to no other.
    pub fn on_key(&mut self, e: &KeyEvent, console: &mut Console) -> (r: AppAction)
        requires
            old(self).wf(),
        ensures
            final(self).wf(),
            r == old(self).action(*e),
            final(console)@ == old(console)@ + old(self).layout.key_commands(*e) + old(
                self,
            ).save_commands(*e),
            final(self).layout.same_frames(&old(self).layout),
            !old(self).opens_request(*e) ==> (final(self).layout.focus(), final(self).layout.select_mode)
                == next_focus(old(self).layout.focus(), old(self).layout.select_mode, *e),
            key_action(old(self).layout.focus(), old(self).layout.select_mode, *e)
                == LayoutAction::Forward(Region::List) ==> final(self).opened_from(
                old(self),
                old(self).options@.after_key(*e),
            ),
            key_action(old(self).layout.focus(), old(self).layout.select_mode, *e)
                != LayoutAction::Forward(Region::List) ==> {
                &&& final(self).options@ == old(self).options@
                &&& final(self).current_request == old(self).current_request
                &&& final(self).current_request_id == old(self).current_request_id
            },
            final(self).input@ == if key_action(
                old(self).layout.focus(),
                old(self).layout.select_mode,
                *e,
            ) == LayoutAction::Forward(Region::Input) {
                old(self).input@.after_key(*e)
            } else if old(self).opens_request(*e) {
                InputView {
                    value: old(self).model@[old(self).options@.after_key(*e).selected].url,
                    to_re_render: true,
                    ..old(self).input@
                }
            } else {
                old(self).input@
            },
            final(self).editor@ == if key_action(
                old(self).layout.focus(),
                old(self).layout.select_mode,
                *e,
            ) == LayoutAction::Forward(Region::Request) {
                old(self).editor@.after_key(*e)
            } else if old(self).opens_request(*e) {
                old(self).editor@.with_text(
                    old(self).model@[old(self).options@.after_key(*e).selected].body,
                )
            } else {
                old(self).editor@
            },
            r == AppAction::Save ==> exists|url: Seq<char>|
                is_trim_of(url, old(self).input@.value) && final(self).model@ == old(self).model@.update(
                    old(self).current_request_id->0 as int,
                    edited_request(
                        old(self).current_request->0@,
                        url,
                        join_lines(old(self).editor@.body),
                    ),
                ),
            r != AppAction::Save ==> final(self).model@ == old(self).model@,
    {
        let a = self.layout.handle_key(e, console);
        let ghost after_layout = console@;
        match a {
            LayoutAction::Exit => AppAction::Exit,
            LayoutAction::Consumed => AppAction::Continue,
            LayoutAction::Unhandled => match e.code {
                KeyCode::Char('s') => {
                    let r = self.save(console);
                    r
                },
                KeyCode::Char('e') => {
                    match &self.current_request {
                        Some(req) => self.model.make_request(req),
                        None => {},
                    }
                    AppAction::Continue
                },
                _ => AppAction::Continue,
            },
            LayoutAction::Forward(Region::List) => {
                self.options.on_event(e);
                self.check_option_selected();
                AppAction::Continue
            },
            LayoutAction::Forward(Region::Request) => {
                self.editor.on_event(e);
                AppAction::Continue
            },
            LayoutAction::Forward(Region::Input) => {
                self.input.on_event(e);
                AppAction::Continue
            },
        }
    }

    /// Redraws each pane that reports itself stale into its viewport, in
    /// the order hints, list, editor, input; a pane that is not stale draws
    /// nothing.
    pub fn render_stale(&mut self, console: &mut Console)
        requires
            old(self).wf(),
        ensures
            final(self).wf(),
            final(self).layout.select_mode == old(self).layout.select_mode,
            final(self).layout.focus() == old(self).layout.focus(),
            final(self).layout.same_geometry(&old(self).layout),
            final(self).model@ == old(self).model@,
            final(self).current_request == old(self).current_request,
            final(self).current_request_id == old(self).current_request_id,
            !final(self).shortcuts.needs_re_render_spec(),
            final(self).options@ == (ListView { to_re_render: false, ..old(self).options@ }),
            final(self).editor@ == old(self).editor@.rendered(),
            final(self).input@ == old(self).input@.rendered(),
            exists|pieces: Seq<Seq<StyledText>>|
                {
                    &&& final(console)@ == old(console)@ + old(self).hints_commands() + old(
                        self,
                    ).options@.output_effect(old(self).layout.list_cont@).1
                        + #[trigger] output_commands(
                        old(self).editor@,
                        old(self).layout.req_cont@,
                        pieces,
                    ) + old(self).input@.output_effect(old(self).layout.input_cont@).1
                    &&& old(self).editor@.to_re_render && !old(self).editor@.only_cursor
                        ==> highlights_fit(old(self).editor@, old(self).layout.req_cont@, pieces)
                },
    {
        let ghost mut pieces: Seq<Seq<StyledText>> = Seq::empty();
        if self.shortcuts.needs_re_render() {
            self.shortcuts.output(console, &mut self.layout.hint_cont);
        }
        assert(console@ =~= old(console)@ + old(self).hints_commands());
        let ghost c1 = console@;
        if self.options.needs_re_render() {
            self.options.output(console, &mut self.layout.list_cont);
        } else {
            assert(console@ =~= c1 + old(self).options@.output_effect(old(self).layout.list_cont@).1);
        }
        let ghost c2 = console@;
        let ghost ed = self.editor@;
        let ghost rc = self.layout.req_cont@;
        if self.editor.needs_re_render() {
            self.editor.output(console, &mut self.layout.req_cont);
            proof {
                pieces = choose|p: Seq<Seq<StyledText>>|
                    {
                        &&& console@ == c2 + #[trigger] output_commands(ed, rc, p)
                        &&& ed.to_re_render && !ed.only_cursor ==> highlights_fit(ed, rc, p)
                    };
            }
        } else {
            assert(console@ =~= c2 + output_commands(ed, rc, pieces));
        }
        let ghost c3 = console@;
        if self.input.needs_re_render() {
            self.input.output(console, &mut self.layout.input_cont);
        } else {
            assert(console@ =~= c3 + old(self).input@.output_effect(old(self).layout.input_cont@).1);
        }
        assert(console@ =~= old(console)@ + old(self).hints_commands() + old(
            self,
        ).options@.output_effect(old(self).layout.list_cont@).1 + output_commands(ed, rc, pieces)
            + old(self).input@.output_effect(old(self).layout.input_cont@).1);
    }

    /// Takes the screen and draws the first frame: the list, the hints and
    /// the borders of the four viewports.
    pub fn start(&mut self, console: &mut Console)
        requires
            old(self).wf(),
        ensures
            final(self).wf(),
            final(self).layout.select_mode == old(self).layout.select_mode,
            final(self).layout.focus() == old(self).layout.focus(),
            final(self).layout.same_geometry(&old(self).layout),
            final(self).model@ == old(self).model@,
            !final(self).options@.to_re_render,
            !final(self).shortcuts.needs_re_render_spec(),
            final(console)@ == old(console)@.push(CommandView::EnterFullScreen).push(
                CommandView::Flush,
            ) + old(self).options@.output_effect(old(self).layout.list_cont@).1 + old(
                self,
            ).hints_commands() + render_commands(final(self).layout.list_cont@) + render_commands(
                final(self).layout.input_cont@,
            ) + render_commands(final(self).layout.req_cont@) + render_commands(
                final(self).layout.hint_cont@,
            ),
    {
        console.enter_full_screen();
        self.options.output(console, &mut self.layout.list_cont);
        let ghost c1 = console@;
        self.shortcuts.output(console, &mut self.layout.hint_cont);
        assert(console@ =~= c1 + old(self).hints_commands());
        self.layout.render(console);
        assert(console@ =~= old(console)@.push(CommandView::EnterFullScreen).push(
            CommandView::Flush,
        ) + old(self).options@.output_effect(old(self).layout.list_cont@).1 + old(
            self,
        ).hints_commands() + render_commands(self.layout.list_cont@) + render_commands(
            self.layout.input_cont@,
        ) + render_commands(self.layout.req_cont@) + render_commands(self.layout.hint_cont@));
    }

    /// Gives the screen back.
    pub fn finish(&self, console: &mut Console)
        ensures
            final(console)@ == old(console)@.push(CommandView::ExitFullScreen).push(
                CommandView::Flush,
            ),
    {
        console.exit_full_screen();
    }
}

} // verus!
