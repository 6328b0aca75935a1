//! The hint bar that lists the global shortcuts.

use vstd::prelude::*;
use vstd::string::StringSliceAdditionalSpecFns;
use crate::block::{same_frame, write_effect, Block, BlockView};
use crate::console::{CommandView, Console};

verus! {

pub const SEND_HINT: &'static str = "[s] Send";

pub const EXECUTE_HINT: &'static str = " [e] Execute";

/// What drawing the hints into `b` does, when they are stale.
pub open spec fn hints_effect(b: BlockView) -> (BlockView, Seq<CommandView>) {
    let home = b.with_cursor(b.x, b.y);
    let (v1, c1) = write_effect(home, SEND_HINT.spec_bytes());
    let (v2, c2) = write_effect(v1, EXECUTE_HINT.spec_bytes());
    (v2, seq![CommandView::ResetColor] + c1 + c2 + seq![CommandView::Flush])
}

pub struct ShortcutsView {
    to_re_render: bool,
}

impl ShortcutsView {
    pub fn new() -> (r: Self)
        ensures
            r.needs_re_render_spec(),
    {
        ShortcutsView { to_re_render: true }
    }

    pub closed spec fn needs_re_render_spec(&self) -> bool {
        self.to_re_render
    }

    pub fn needs_re_render(&self) -> (r: bool)
        ensures
            r == self.needs_re_render_spec(),
    {
        self.to_re_render
    }

    /// Draws the hints from the top-left of `target` when they are stale.
    pub fn output(&mut self, console: &mut Console, target: &mut Block)
        requires
            old(target).wf(),
        ensures
            final(target).wf(),
            same_frame(final(target)@, old(target)@),
            !final(self).needs_re_render_spec(),
            old(self).needs_re_render_spec() ==> {
                &&& final(target)@ == hints_effect(old(target)@).0
                &&& final(console)@ == old(console)@ + hints_effect(old(target)@).1
            },
            !old(self).needs_re_render_spec() ==> {
                &&& final(target)@ == old(target)@
                &&& final(console)@ == old(console)@
            },
    {
        if self.to_re_render {
            console.reset_color();
            target.reset();
            target.write(console, SEND_HINT.as_bytes());
            target.write(console, EXECUTE_HINT.as_bytes());
            console.flush();
            assert(console@ =~= old(console)@ + hints_effect(old(target)@).1);
        }
        self.to_re_render = false;
    }

    /// The hints react to no key.
    pub fn on_event(&mut self, event: &crate::keys::KeyEvent)
        ensures
            final(self).needs_re_render_spec() == old(self).needs_re_render_spec(),
    {
    }
}

} // verus!
