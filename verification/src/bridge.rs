//! Terminal-side byte translation and the per-tick bridge step.
//!
//! One tick of the console moves at most one byte in each direction: a key
//! event polled from the terminal is translated to a byte and written to the
//! down channel, then at most one byte is read from the up channel and
//! rendered as a printable character. The translation in both directions is
//! defined and verified here.

use vstd::prelude::*;
use crate::ring::{spec_read, spec_write, RingBuffer};

verus! {

/// The key of a terminal key event, reduced to what the console reacts to.
/// Every key that produces no down-channel byte (escape, function keys,
/// navigation keys, bare modifiers) is `Other`.
pub enum KeyCode {
    Char(char),
    Enter,
    Tab,
    Other,
}

/// What happened to the key: only presses produce a byte; repeats and
/// releases are ignored.
pub enum KeyKind {
    Press,
    Repeat,
    Release,
}

/// The byte that one terminal key event sends down to the target, if any:
/// an ASCII character maps to itself, Enter to line feed, Tab to horizontal
/// tab; everything else (including non-ASCII characters and non-press
/// events) produces nothing.
pub open spec fn spec_key_byte(code: KeyCode, kind: KeyKind) -> Option<u8> {
    match kind {
        KeyKind::Press => match code {
            KeyCode::Char(c) => {
                if c as u32 <= 127 {
                    Some(c as u8)
                } else {
                    None
                }
            },
            KeyCode::Enter => Some(0x0a),
            KeyCode::Tab => Some(0x09),
            KeyCode::Other => None,
        },
        _ => None,
    }
}

/// Translates one terminal key event to the byte it sends to the target.
pub fn key_to_byte(code: KeyCode, kind: KeyKind) -> (r: Option<u8>)
    ensures
        r == spec_key_byte(code, kind),
{
    match kind {
        KeyKind::Press => match code {
            KeyCode::Char(c) => {
                let n = c as u32;
                if n <= 127 {
                    Some(n as u8)
                } else {
                    None
                }
            },
            KeyCode::Enter => Some(0x0a),
            KeyCode::Tab => Some(0x09),
            KeyCode::Other => None,
        },
        _ => None,
    }
}

/// One terminal key event: which key, and what happened to it.
pub struct KeyEvent {
    pub code: KeyCode,
    pub kind: KeyKind,
}

/// The character an up-channel byte renders as: valid ASCII prints itself,
/// anything else is dropped silently.
pub open spec fn spec_render_byte(b: u8) -> Option<char> {
    if b <= 127 {
        Some(b as char)
    } else {
        None
    }
}

/// Renders one byte received from the target as a printable character, or
/// nothing when the byte is not ASCII.
pub fn render_byte(b: u8) -> (r: Option<char>)
    ensures
        r == spec_render_byte(b),
{
    if b <= 127 {
        Some(b as char)
    } else {
        None
    }
}

/// A simulated link that echoes every accepted down-channel byte onto the
/// up channel and keeps a log of the down-channel traffic. It stands in for
/// the live target when the bridge loop is exercised without hardware.
pub struct LoopbackLink {
    up: RingBuffer,
    written: Vec<u8>,
}

impl LoopbackLink {
    /// Well-formed: the underlying channel buffer is.
    pub closed spec fn wf(&self) -> bool {
        self.up.wf()
    }

    /// The bytes currently waiting on the up channel, oldest first.
    pub closed spec fn up_contents(&self) -> Seq<u8> {
        self.up@
    }

    /// Every down-channel byte the link has accepted so far, in order.
    pub closed spec fn down_log(&self) -> Seq<u8> {
        self.written@
    }

    /// The capacity of the up-channel buffer.
    pub closed spec fn capacity(&self) -> nat {
        self.up.capacity()
    }

    /// Creates an idle loopback link whose up channel holds `capacity`
    /// bytes at most.
    pub fn new(capacity: usize) -> (r: LoopbackLink)
        requires
            capacity > 0,
        ensures
            r.wf(),
            r.capacity() == capacity,
            r.up_contents() == Seq::<u8>::empty(),
            r.down_log() == Seq::<u8>::empty(),
    {
        LoopbackLink { up: RingBuffer::new(capacity), written: Vec::new() }
    }

    /// A down-channel write: best effort, like the real channel — the
    /// accepted prefix is logged and echoed onto the up channel.
    pub fn write(&mut self, bytes: &[u8]) -> (n: usize)
        requires
            old(self).wf(),
        ensures
            final(self).wf(),
            final(self).capacity() == old(self).capacity(),
            n as nat == spec_write(old(self).up_contents(), old(self).capacity(), bytes@).1,
            final(self).up_contents() == spec_write(
                old(self).up_contents(),
                old(self).capacity(),
                bytes@,
            ).0,
            final(self).down_log() == old(self).down_log() + bytes@.take(n as int),
    {
        proof {
            old(self).up.lemma_len_le_capacity();
        }
        let n = self.up.write(bytes);
        let mut j: usize = 0;
        while j < n
            invariant
                n <= bytes@.len(),
                j <= n,
                self.up.wf(),
                self.up.capacity() == old(self).capacity(),
                n as nat == spec_write(old(self).up_contents(), old(self).capacity(), bytes@).1,
                self.up@ == spec_write(old(self).up_contents(), old(self).capacity(), bytes@).0,
                self.written@ == old(self).written@ + bytes@.take(j as int),
            decreases n - j,
        {
            self.written.push(bytes[j]);
            assert(self.written@ =~= old(self).written@ + bytes@.take(j + 1));
            j = j + 1;
        }
        n
    }

    /// An up-channel read: removes and returns up to `max` waiting bytes.
    pub fn read(&mut self, max: usize) -> (r: Vec<u8>)
        requires
            old(self).wf(),
        ensures
            final(self).wf(),
            final(self).capacity() == old(self).capacity(),
            r@ == spec_read(old(self).up_contents(), max as nat).0,
            final(self).up_contents() == spec_read(old(self).up_contents(), max as nat).1,
            final(self).down_log() == old(self).down_log(),
    {
        self.up.read(max)
    }

    /// The down-channel traffic log, for inspection.
    pub fn down_bytes(&self) -> (r: &Vec<u8>)
        ensures
            r@ == self.down_log(),
    {
        &self.written
    }
}

/// One tick of the bridge against a link: what the tick prints and what it
/// leaves of the up channel and the down log. The key event (if any) is
/// translated first and its byte written to the down channel; only then is
/// at most one byte read back from the up channel and rendered — strictly
/// that order, once each per tick.
pub open spec fn spec_tick(
    up: Seq<u8>,
    log: Seq<u8>,
    cap: nat,
    key: Option<KeyEvent>,
) -> (Seq<u8>, Seq<u8>, Option<char>) {
    let sent = match key {
        Some(k) => spec_key_byte(k.code, k.kind),
        None => None,
    };
    let up1 = match sent {
        Some(b) => spec_write(up, cap, seq![b]).0,
        None => up,
    };
    let log1 = match sent {
        Some(b) => log + seq![b].take(spec_write(up, cap, seq![b]).1 as int),
        None => log,
    };
    let got = spec_read(up1, 1);
    let printed = if got.0.len() > 0 {
        spec_render_byte(got.0[0])
    } else {
        None
    };
    (got.1, log1, printed)
}

/// Runs one tick of the main loop against the loopback link: one write
/// attempt, then one read attempt, in that order, as `spec_tick` says.
pub fn loopback_tick(link: &mut LoopbackLink, key: Option<KeyEvent>) -> (printed: Option<char>)
    requires
        old(link).wf(),
    ensures
        final(link).wf(),
        final(link).capacity() == old(link).capacity(),
        ({
            let t = spec_tick(
                old(link).up_contents(),
                old(link).down_log(),
                old(link).capacity(),
                key,
            );
            final(link).up_contents() == t.0 && final(link).down_log() == t.1 && printed == t.2
        }),
{
    let byte = match key {
        Some(k) => key_to_byte(k.code, k.kind),
        None => None,
    };
    if let Some(b) = byte {
        let mut one: Vec<u8> = Vec::new();
        one.push(b);
        assert(one@ =~= seq![b]);
        link.write(one.as_slice());
    }
    let got = link.read(1);
    if got.len() > 0 {
        render_byte(got[0])
    } else {
        None
    }
}

} // verus!
