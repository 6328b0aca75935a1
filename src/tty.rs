//! The pane that hosts a child process in a pseudoterminal. Its output
//! arrives in chunks from a reader running beside the UI loop; the pane
//! shows at most one chunk per tick and never waits for one. Key events
//! become the bytes a terminal program expects.

use vstd::prelude::*;
use vstd::utf8::{encode_scalar, encode_utf8};
use std::sync::mpsc::Receiver;
use crate::block::{same_frame, start_state, write_run, Block};
use crate::console::{CommandView, Console};
use crate::keys::{KeyCode, KeyEvent};

verus! {

#[verifier::external_type_specification]
#[verifier::external_body]
#[verifier::reject_recursive_types(T)]
pub struct ExReceiver<T>(Receiver<T>);

/// The first character of the upper-case mapping of `c`.
pub uninterp spec fn first_uppercase(c: char) -> char;

/// Relies on `char::to_uppercase`: its mapping, of which the first
/// character is kept (the mapping is never empty).
#[verifier::external_body]
fn to_upper(c: char) -> (r: char)
    ensures
        r == first_uppercase(c),
{
    c.to_uppercase().next().unwrap_or(c)
}

/// The UTF-8 encoding of `c`.
fn utf8_of(c: char) -> (r: Vec<u8>)
    ensures
        r@ == encode_utf8(seq![c]),
{
    let u = c as u32;
    let r: Vec<u8> = if u <= 0x7F {
        vec![#[verifier::truncate] ((u & 0x7F) as u8)]
    } else if u <= 0x7FF {
        vec![
            0xC0 | (#[verifier::truncate] (((u >> 6) & 0x1F) as u8)),
            0x80 | (#[verifier::truncate] ((u & 0x3F) as u8)),
        ]
    } else if u <= 0xFFFF {
        vec![
            0xE0 | (#[verifier::truncate] (((u >> 12) & 0x0F) as u8)),
            0x80 | (#[verifier::truncate] (((u >> 6) & 0x3F) as u8)),
            0x80 | (#[verifier::truncate] ((u & 0x3F) as u8)),
        ]
    } else {
        vec![
            0xF0 | (#[verifier::truncate] (((u >> 18) & 0x7) as u8)),
            0x80 | (#[verifier::truncate] (((u >> 12) & 0x3F) as u8)),
            0x80 | (#[verifier::truncate] (((u >> 6) & 0x3F) as u8)),
            0x80 | (#[verifier::truncate] ((u & 0x3F) as u8)),
        ]
    };
    assert(seq![c].drop_first() =~= Seq::<char>::empty());
    assert(encode_utf8(Seq::<char>::empty()) == Seq::<u8>::empty());
    assert(encode_utf8(seq![c]) =~= encode_scalar(u));
    assert(r@ =~= encode_scalar(u));
    r
}

/// Relies on `Receiver::try_recv`: it never blocks, and yields the oldest
/// chunk not yet taken when there is one. Whether one is there depends on
/// the reader, so nothing is stated of the result.
#[verifier::external_body]
fn try_take(rx: &Receiver<Vec<u8>>) -> (r: Option<Vec<u8>>) {
    rx.try_recv().ok()
}

/// The bytes of a key that is not a character.
pub open spec fn key_sequence(code: KeyCode) -> Seq<u8> {
    match code {
        KeyCode::Esc => seq![0x1Bu8],
        KeyCode::Enter => seq![0x0Du8],
        KeyCode::Backspace => seq![0x7Fu8],
        KeyCode::Left => seq![0x1Bu8, 0x5Bu8, 0x44u8],
        KeyCode::Right => seq![0x1Bu8, 0x5Bu8, 0x43u8],
        KeyCode::Up => seq![0x1Bu8, 0x5Bu8, 0x41u8],
        KeyCode::Down => seq![0x1Bu8, 0x5Bu8, 0x42u8],
        _ => Seq::empty(),
    }
}

/// What the child receives for a key event.
pub open spec fn key_bytes(e: KeyEvent) -> Seq<u8> {
    match e.code {
        KeyCode::Char(c) => if e.shift {
            encode_utf8(seq![first_uppercase(c)])
        } else {
            encode_utf8(seq![c])
        },
        _ => key_sequence(e.code),
    }
}

fn match_key_sequence(code: KeyCode) -> (r: Vec<u8>)
    ensures
        r@ == key_sequence(code),
{
    let r: Vec<u8> = match code {
        KeyCode::Esc => vec![0x1B],
        KeyCode::Enter => vec![0x0D],
        KeyCode::Backspace => vec![0x7F],
        KeyCode::Left => vec![0x1B, 0x5B, 0x44],
        KeyCode::Right => vec![0x1B, 0x5B, 0x43],
        KeyCode::Up => vec![0x1B, 0x5B, 0x41],
        KeyCode::Down => vec![0x1B, 0x5B, 0x42],
        _ => Vec::new(),
    };
    assert(r@ =~= key_sequence(code));
    r
}

/// The UTF-8 bytes of a character.
pub fn char_bytes(c: char) -> (r: Vec<u8>)
    ensures
        r@ == encode_utf8(seq![c]),
{
    utf8_of(c)
}

/// What a terminal draws for one chunk of child output: nothing for no
/// chunk.
pub open spec fn chunk_commands(v: crate::block::BlockView, chunk: Seq<u8>) -> Seq<CommandView> {
    write_run(v, start_state(v), chunk).1.push(CommandView::Flush).push(CommandView::Flush)
}

/// The receiving end of the child's output, and the pane that shows it.
pub struct PtyView {
    rx: Receiver<Vec<u8>>,
}

impl PtyView {
    /// A pane fed by the chunks sent into `rx`.
    pub fn new(rx: Receiver<Vec<u8>>) -> (r: Self) {
        PtyView { rx }
    }

    /// The child may print at any time, so the pane always asks to render.
    pub fn needs_re_render(&self) -> (r: bool)
        ensures
            r,
    {
        true
    }

    /// Writes one chunk of child output through the viewport's writer and
    /// commits; with no chunk, does nothing.
    pub fn show_chunk(console: &mut Console, target: &mut Block, chunk: Option<Vec<u8>>)
        requires
            old(target).wf(),
        ensures
            final(target).wf(),
            same_frame(final(target)@, old(target)@),
            match chunk {
                Some(data) => {
                    &&& final(target)@ == old(target)@.with_cursor(
                        write_run(old(target)@, start_state(old(target)@), data@).0.cx,
                        write_run(old(target)@, start_state(old(target)@), data@).0.cy,
                    )
                    &&& final(console)@ == old(console)@ + chunk_commands(old(target)@, data@)
                },
                None => {
                    &&& final(target)@ == old(target)@
                    &&& final(console)@ == old(console)@
                },
            },
    {
        match chunk {
            Some(data) => {
                target.write(console, data.as_slice());
                console.flush();
                assert(console@ =~= old(console)@ + chunk_commands(old(target)@, data@));
            },
            None => {},
        }
    }

    /// Shows the oldest pending chunk of child output, if one has arrived,
    /// without waiting.
    pub fn output(&mut self, console: &mut Console, target: &mut Block)
        requires
            old(target).wf(),
        ensures
            final(target).wf(),
            same_frame(final(target)@, old(target)@),
            (final(target)@ == old(target)@ && final(console)@ == old(console)@) || exists|
                data: Seq<u8>,
            |
                {
                    &&& final(target)@ == old(target)@.with_cursor(
                        write_run(old(target)@, start_state(old(target)@), data).0.cx,
                        write_run(old(target)@, start_state(old(target)@), data).0.cy,
                    )
                    &&& final(console)@ == old(console)@ + chunk_commands(old(target)@, data)
                },
    {
        let chunk = try_take(&self.rx);
        Self::show_chunk(console, target, chunk);
    }

    /// The bytes to send to the child for a key event: a character as
    /// UTF-8, upper-cased with SHIFT; Escape, Enter, Backspace and the
    /// arrows as a terminal sends them; nothing for other keys.
    pub fn on_event(&self, event: &KeyEvent) -> (r: Vec<u8>)
        ensures
            r@ == key_bytes(*event),
    {
        match event.code {
            KeyCode::Char(c) => if event.shift {
                char_bytes(to_upper(c))
            } else {
                char_bytes(c)
            },
            _ => match_key_sequence(event.code),
        }
    }
}

} // verus!
