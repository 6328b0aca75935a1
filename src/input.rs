//! A one-line text input.

use vstd::prelude::*;
use vstd::string::StringSliceAdditionalSpecFns;
use crate::block::{blank_rows, same_frame, start_state, write_run, Block, BlockView};
use crate::console::{CommandView, Console};
use crate::keys::{KeyCode, KeyEvent, KeyEventKind};
use crate::text::{is_trim_of, pop_char, push_char, trim};
use vstd::utf8::encode_utf8;

verus! {

pub struct InputView {
    pub value: Seq<char>,
    pub to_empty: bool,
    pub to_re_render: bool,
}

impl InputView {
    /// The state once drawn.
    pub open spec fn rendered(self) -> InputView {
        if self.to_re_render {
            InputView { to_empty: false, to_re_render: false, ..self }
        } else {
            self
        }
    }

    /// The viewport and the commands after drawing into `b`.
    pub open spec fn output_effect(self, b: BlockView) -> (BlockView, Seq<CommandView>) {
        if self.to_re_render {
            let home = b.with_cursor(b.x, b.y);
            let blank = if self.to_empty {
                blank_rows(home, home.height as nat)
            } else {
                Seq::empty()
            };
            let run = write_run(home, start_state(home), encode_utf8(self.value));
            (
                home.with_cursor(run.0.cx, run.0.cy),
                blank + run.1.push(CommandView::Flush).push(CommandView::ShowCursor),
            )
        } else {
            (b, Seq::empty())
        }
    }

    /// The state after a key.
    pub open spec fn after_key(self, e: KeyEvent) -> InputView {
        if e.kind != KeyEventKind::Press {
            self
        } else {
            match e.code {
                KeyCode::Char(c) => InputView {
                    value: self.value.push(c),
                    to_re_render: true,
                    ..self
                },
                KeyCode::Backspace | KeyCode::Delete => InputView {
                    value: if self.value.len() > 0 {
                        self.value.drop_last()
                    } else {
                        self.value
                    },
                    to_empty: true,
                    to_re_render: true,
                },
                _ => self,
            }
        }
    }
}

pub struct Input {
    value: String,
    to_empty: bool,
    to_re_render: bool,
}

impl View for Input {
    type V = InputView;

    closed spec fn view(&self) -> InputView {
        InputView { value: self.value@, to_empty: self.to_empty, to_re_render: self.to_re_render }
    }
}

impl Input {
    pub fn new() -> (r: Self)
        ensures
            r@ == (InputView { value: Seq::empty(), to_empty: false, to_re_render: true }),
    {
        Input { value: String::new(), to_empty: false, to_re_render: true }
    }

    /// The text without its leading and trailing white space.
    pub fn get_value(&self) -> (r: String)
        ensures
            is_trim_of(r@, self@.value),
    {
        trim(self.value.as_str())
    }

    pub fn set_val(&mut self, val: &str)
        ensures
            final(self)@ == (InputView { value: val@, to_re_render: true, ..old(self)@ }),
    {
        self.value = val.to_owned();
        self.to_re_render = true;
    }

    /// Redraws the text from the top-left of `target` when it changed,
    /// blanking the area first after a deletion.
    pub fn output(&mut self, console: &mut Console, target: &mut Block)
        requires
            old(target).wf(),
        ensures
            final(target).wf(),
            same_frame(final(target)@, old(target)@),
            final(self)@ == old(self)@.rendered(),
            final(target)@ == old(self)@.output_effect(old(target)@).0,
            final(console)@ == old(console)@ + old(self)@.output_effect(old(target)@).1,
    {
        if self.to_re_render {
            target.reset();
            if self.to_empty {
                self.to_empty = false;
                target.empty(console);
            }
            target.write(console, self.value.as_str().as_bytes());
            console.show_cursor();
            assert(console@ =~= old(console)@ + old(self)@.output_effect(old(target)@).1);
        }
        self.to_re_render = false;
    }

    /// Types a character, or deletes the last one with Backspace or Delete.
    pub fn on_event(&mut self, event: &KeyEvent)
        ensures
            final(self)@ == old(self)@.after_key(*event),
    {
        if !matches!(event.kind, KeyEventKind::Press) {
            return ;
        }
        match event.code {
            KeyCode::Char(c) => {
                push_char(&mut self.value, c);
                self.to_re_render = true;
            },
            KeyCode::Backspace | KeyCode::Delete => {
                pop_char(&mut self.value);
                self.to_empty = true;
                self.to_re_render = true;
            },
            _ => {},
        }
    }

    pub fn needs_re_render(&self) -> (r: bool)
        ensures
            r == self@.to_re_render,
    {
        self.to_re_render
    }
}

/// Drawing twice in a row draws once: after `output` the input is not
/// stale, and `output` on an input that is not stale draws nothing and
/// changes nothing.
pub proof fn lemma_input_output_idempotent(p: InputView, b: BlockView)
    ensures
        !p.rendered().to_re_render,
        p.rendered().rendered() == p.rendered(),
        p.rendered().output_effect(b) == (b, Seq::<CommandView>::empty()),
{
}

} // verus!
