//! The capability every pane offers to the layout: draw into a viewport,
//! take a key, and tell whether it has something new to draw.

use vstd::prelude::*;
use crate::block::{same_frame, Block};
use crate::console::Console;
use crate::editor::Editor;
use crate::input::Input;
use crate::keys::KeyEvent;
use crate::list::List;
use crate::shortcuts::ShortcutsView;
use crate::tty::{key_bytes, PtyView};

verus! {

pub trait Element {
    /// What the pane keeps true between calls.
    spec fn inv(&self) -> bool;

    /// Whether the pane has something new to draw.
    spec fn stale(&self) -> bool;

    /// Draws into `target`. A pane with nothing new to draw draws nothing,
    /// so drawing twice in a row draws once.
    fn output(&mut self, console: &mut Console, target: &mut Block)
        requires
            old(self).inv(),
            old(target).wf(),
        ensures
            final(self).inv(),
            final(target).wf(),
            same_frame(final(target)@, old(target)@),
            !old(self).stale() ==> final(target)@ == old(target)@ && final(console)@ == old(
                console,
            )@,
    ;

    /// Takes a key; returns the bytes it sends to a child process, if the
    /// pane hosts one.
    fn on_event(&mut self, event: &KeyEvent) -> (r: Vec<u8>)
        requires
            old(self).inv(),
        ensures
            final(self).inv(),
    ;

    fn needs_re_render(&self) -> (r: bool)
        ensures
            r == self.stale(),
    ;
}

impl Element for Input {
    open spec fn inv(&self) -> bool {
        true
    }

    open spec fn stale(&self) -> bool {
        self@.to_re_render
    }

    fn output(&mut self, console: &mut Console, target: &mut Block) {
        Input::output(self, console, target)
    }

    fn on_event(&mut self, event: &KeyEvent) -> (r: Vec<u8>) {
        Input::on_event(self, event);
        Vec::new()
    }

    fn needs_re_render(&self) -> (r: bool) {
        Input::needs_re_render(self)
    }
}

impl Element for List {
    open spec fn inv(&self) -> bool {
        self@.wf()
    }

    open spec fn stale(&self) -> bool {
        self@.to_re_render
    }

    fn output(&mut self, console: &mut Console, target: &mut Block) {
        List::output(self, console, target)
    }

    fn on_event(&mut self, event: &KeyEvent) -> (r: Vec<u8>) {
        List::on_event(self, event);
        Vec::new()
    }

    fn needs_re_render(&self) -> (r: bool) {
        List::needs_re_render(self)
    }
}

impl Element for Editor {
    open spec fn inv(&self) -> bool {
        self@.wf()
    }

    open spec fn stale(&self) -> bool {
        self@.to_re_render
    }

    fn output(&mut self, console: &mut Console, target: &mut Block) {
        Editor::output(self, console, target)
    }

    fn on_event(&mut self, event: &KeyEvent) -> (r: Vec<u8>) {
        Editor::on_event(self, event);
        Vec::new()
    }

    fn needs_re_render(&self) -> (r: bool) {
        Editor::needs_re_render(self)
    }
}

impl Element for ShortcutsView {
    open spec fn inv(&self) -> bool {
        true
    }

    open spec fn stale(&self) -> bool {
        self.needs_re_render_spec()
    }

    fn output(&mut self, console: &mut Console, target: &mut Block) {
        ShortcutsView::output(self, console, target)
    }

    fn on_event(&mut self, event: &KeyEvent) -> (r: Vec<u8>) {
        ShortcutsView::on_event(self, event);
        Vec::new()
    }

    fn needs_re_render(&self) -> (r: bool) {
        ShortcutsView::needs_re_render(self)
    }
}

impl Element for PtyView {
    open spec fn inv(&self) -> bool {
        true
    }

    open spec fn stale(&self) -> bool {
        true
    }

    fn output(&mut self, console: &mut Console, target: &mut Block) {
        PtyView::output(self, console, target)
    }

    fn on_event(&mut self, event: &KeyEvent) -> (r: Vec<u8>) {
        PtyView::on_event(self, event)
    }

    fn needs_re_render(&self) -> (r: bool) {
        PtyView::needs_re_render(self)
    }
}

} // verus!
