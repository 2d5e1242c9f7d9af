//! Kitty Graphics Protocol encoder.
//!
//! Every command is appended to an output string; the caller writes it to
//! the terminal. The commands are built so that they mix safely with the
//! character grid:
//! - `q=2` suppresses terminal responses (otherwise they arrive as input
//!   events and trip the any-key-exit loop)
//! - `C=1` tells the terminal not to move the cursor after placing an image
//! - placements are wrapped in DECSC/DECRC (`ESC 7` / `ESC 8`) so the cursor
//!   ends up exactly where the grid renderer left it.

use vstd::prelude::*;
use base64::Engine as _;
use crate::text::{decimal, push_decimal, contains, contains_seq};

verus! {

/// Payload characters carried by one transmission chunk.
pub const CHUNK_SIZE: usize = 4096;

/// Whether `c` belongs to the standard base64 alphabet or is its `=` pad.
pub open spec fn is_base64_char(c: char) -> bool {
    ||| 'A' <= c <= 'Z'
    ||| 'a' <= c <= 'z'
    ||| '0' <= c <= '9'
    ||| c == '+'
    ||| c == '/'
    ||| c == '='
}

/// The character of the standard base64 alphabet (RFC 4648) for the 6-bit
/// value `v`: `A`-`Z`, `a`-`z`, `0`-`9`, `+`, `/`.
pub open spec fn base64_symbol(v: int) -> char {
    if v < 26 {
        (65 + v) as char
    } else if v < 52 {
        (97 + v - 26) as char
    } else if v < 62 {
        (48 + v - 52) as char
    } else if v == 62 {
        '+'
    } else {
        '/'
    }
}

/// The standard base64 encoding (RFC 4648 alphabet, `=` padding) of
/// `bytes`: each group of three bytes becomes four characters of six bits
/// each, high bits first; a final group of one or two bytes is padded with
/// zero bits and `=` up to four characters.
pub open spec fn base64_standard(bytes: Seq<u8>) -> Seq<char>
    decreases bytes.len(),
{
    if bytes.len() == 0 {
        seq![]
    } else if bytes.len() == 1 {
        let b0 = bytes[0] as int;
        seq![base64_symbol(b0 / 4), base64_symbol((b0 % 4) * 16), '=', '=']
    } else if bytes.len() == 2 {
        let b0 = bytes[0] as int;
        let b1 = bytes[1] as int;
        seq![base64_symbol(b0 / 4), base64_symbol((b0 % 4) * 16 + b1 / 16), base64_symbol((b1 % 16) * 4), '=']
    } else {
        let b0 = bytes[0] as int;
        let b1 = bytes[1] as int;
        let b2 = bytes[2] as int;
        seq![
            base64_symbol(b0 / 4),
            base64_symbol((b0 % 4) * 16 + b1 / 16),
            base64_symbol((b1 % 16) * 4 + b2 / 64),
            base64_symbol(b2 % 64),
        ] + base64_standard(bytes.skip(3))
    }
}

/// Every base64 symbol lies in the alphabet.
proof fn lemma_symbol_in_alphabet(v: int)
    requires
        0 <= v < 64,
    ensures
        is_base64_char(base64_symbol(v)),
{
}

/// The encoding is four characters per started group of three bytes, all
/// from the alphabet or `=`.
pub proof fn lemma_base64_shape(bytes: Seq<u8>)
    ensures
        base64_standard(bytes).len() == 4 * ((bytes.len() + 2) / 3),
        forall|i: int| 0 <= i < base64_standard(bytes).len() ==> is_base64_char(#[trigger] base64_standard(bytes)[i]),
    decreases bytes.len(),
{
    let e = base64_standard(bytes);
    if bytes.len() == 0 {
    } else if bytes.len() <= 2 {
        let b0 = bytes[0] as int;
        lemma_symbol_in_alphabet(b0 / 4);
        lemma_symbol_in_alphabet((b0 % 4) * 16);
        if bytes.len() == 2 {
            let b1 = bytes[1] as int;
            lemma_symbol_in_alphabet((b0 % 4) * 16 + b1 / 16);
            lemma_symbol_in_alphabet((b1 % 16) * 4);
        }
    } else {
        let b0 = bytes[0] as int;
        let b1 = bytes[1] as int;
        let b2 = bytes[2] as int;
        lemma_symbol_in_alphabet(b0 / 4);
        lemma_symbol_in_alphabet((b0 % 4) * 16 + b1 / 16);
        lemma_symbol_in_alphabet((b1 % 16) * 4 + b2 / 64);
        lemma_symbol_in_alphabet(b2 % 64);
        let rest = bytes.skip(3);
        lemma_base64_shape(rest);
        assert forall|i: int| 0 <= i < e.len() implies is_base64_char(#[trigger] e[i]) by {
            if i >= 4 {
                assert(e[i] == base64_standard(rest)[i - 4]);
            }
        }
    }
}

/// Calls `base64::engine::general_purpose::STANDARD.encode`, which the
/// crate documents as the standard RFC 4648 alphabet with `=` padding; the
/// contract states that encoding. Computing the output length overflows
/// (and the crate panics) unless it fits in a `usize`, hence the `requires`.
#[verifier::external_body]
fn base64_encode(bytes: &[u8]) -> (s: String)
    requires
        4 * ((bytes@.len() + 2) / 3) <= usize::MAX,
    ensures
        s@ == base64_standard(bytes@),
{
    base64::engine::general_purpose::STANDARD.encode(bytes)
}

/// The `m=` flag of a chunk: `1` while more chunks follow, `0` on the last.
pub open spec fn more_flag(more: bool) -> Seq<char> {
    if more { seq!['1'] } else { seq!['0'] }
}

/// Header of a chunk: the first one carries the image description
/// (`a=t` transmit only, 32-bit RGBA, id and pixel size), the rest only `m`.
pub open spec fn chunk_header(id: u32, width: u16, height: u16, first: bool, more: bool) -> Seq<char> {
    if first {
        "\x1b_Ga=t,q=2,f=32,i="@ + decimal(id as nat) + ",s="@ + decimal(width as nat) + ",v="@
            + decimal(height as nat) + ",m="@ + more_flag(more) + ";"@
    } else {
        "\x1b_Gm="@ + more_flag(more) + ";"@
    }
}

/// The escape sequences carrying `payload` split into chunks of at most
/// `CHUNK_SIZE` characters, each closed by the string terminator `ESC \`.
/// An empty payload yields nothing.
pub open spec fn transmit_frames(id: u32, width: u16, height: u16, payload: Seq<char>, first: bool) -> Seq<char>
    decreases payload.len(),
{
    if payload.len() == 0 {
        seq![]
    } else {
        let n = if payload.len() < CHUNK_SIZE { payload.len() } else { CHUNK_SIZE as nat };
        chunk_header(id, width, height, first, payload.len() > CHUNK_SIZE) + payload.take(n as int)
            + "\x1b\\"@ + transmit_frames(id, width, height, payload.skip(n as int), false)
    }
}

/// The payload pieces that `transmit_frames` sends, in order.
pub open spec fn chunks(payload: Seq<char>) -> Seq<Seq<char>>
    decreases payload.len(),
{
    if payload.len() == 0 {
        seq![]
    } else {
        let n = if payload.len() < CHUNK_SIZE { payload.len() } else { CHUNK_SIZE as nat };
        seq![payload.take(n as int)] + chunks(payload.skip(n as int))
    }
}

/// Law: the chunks of a payload put back together give the payload; every
/// chunk but the last holds exactly `CHUNK_SIZE` characters and the last
/// holds between one and `CHUNK_SIZE`.
pub proof fn lemma_chunks_reassemble(payload: Seq<char>)
    ensures
        chunks(payload).flatten() == payload,
        forall|k: int| 0 <= k < chunks(payload).len() - 1 ==> (#[trigger] chunks(payload)[k]).len() == CHUNK_SIZE,
        chunks(payload).len() > 0 ==> 1 <= chunks(payload).last().len() <= CHUNK_SIZE,
        chunks(payload).len() == (payload.len() + CHUNK_SIZE - 1) / (CHUNK_SIZE as int),
    decreases payload.len(),
{
    if payload.len() > 0 {
        let n = if payload.len() < CHUNK_SIZE { payload.len() } else { CHUNK_SIZE as nat };
        let rest = payload.skip(n as int);
        lemma_chunks_reassemble(rest);
        let c = chunks(payload);
        assert(c == seq![payload.take(n as int)] + chunks(rest));
        assert((seq![payload.take(n as int)] + chunks(rest)).flatten() == payload.take(n as int) + chunks(rest).flatten()) by {
            vstd::seq_lib::lemma_flatten_concat(seq![payload.take(n as int)], chunks(rest));
            assert(seq![payload.take(n as int)].flatten() =~= payload.take(n as int)) by {
                reveal_with_fuel(Seq::flatten, 2);
            }
        }
        assert(payload.take(n as int) + rest =~= payload);
        assert forall|k: int| 0 <= k < c.len() - 1 implies (#[trigger] c[k]).len() == CHUNK_SIZE by {
            if k > 0 {
                assert(c[k] == chunks(rest)[k - 1]);
            } else {
                assert(chunks(rest).len() > 0);
            }
        }
        if chunks(rest).len() > 0 {
            assert(c.last() == chunks(rest).last());
        } else {
            assert(rest.len() == 0);
        }
    }
}

/// Appends the header of one chunk.
fn push_chunk_header(out: &mut String, id: u32, width: u16, height: u16, first: bool, more: bool)
    ensures
        final(out)@ == old(out)@ + chunk_header(id, width, height, first, more),
{
    let ghost start = out@;
    if first {
        out.append("\x1b_Ga=t,q=2,f=32,i=");
        push_decimal(out, id as u64);
        out.append(",s=");
        push_decimal(out, width as u64);
        out.append(",v=");
        push_decimal(out, height as u64);
        out.append(",m=");
    } else {
        out.append("\x1b_Gm=");
    }
    out.append(if more { crate::text::digit_str(1) } else { crate::text::digit_str(0) });
    out.append(";");
    proof {
        assert(more_flag(more) =~= seq![crate::text::digit_char(if more { 1 } else { 0 })]);
        assert(out@ =~= start + chunk_header(id, width, height, first, more));
    }
}

/// Appends the chunked transmission of an already encoded `payload`.
fn push_frames(out: &mut String, id: u32, width: u16, height: u16, payload: &str)
    requires
        vstd::utf8::is_ascii_chars(payload@),
    ensures
        final(out)@ == old(out)@ + transmit_frames(id, width, height, payload@, true),
{
    let len = payload.unicode_len();
    let mut start: usize = 0;
    let ghost p = payload@;
    assert(p.skip(0) =~= p);
    while start < len
        invariant
            len == p.len(),
            p == payload@,
            vstd::utf8::is_ascii_chars(payload@),
            start <= len,
            out@ + transmit_frames(id, width, height, p.skip(start as int), start == 0)
                == old(out)@ + transmit_frames(id, width, height, p, true),
        decreases len - start,
    {
        let rest = len - start;
        let n: usize = if rest < CHUNK_SIZE { rest } else { CHUNK_SIZE };
        let more = rest > CHUNK_SIZE;
        let ghost before = out@;
        let ghost tail = p.skip(start as int);
        push_chunk_header(out, id, width, height, start == 0, more);
        let ghost mid = out@;
        out.append(payload.substring_ascii(start, start + n));
        out.append("\x1b\\");
        proof {
            assert(tail.take(n as int) =~= p.subrange(start as int, start + n));
            assert(tail.skip(n as int) =~= p.skip(start + n));
            assert(out@ =~= before + chunk_header(id, width, height, start == 0, more) + tail.take(n as int) + "\x1b\\"@);
        }
        start = start + n;
    }
    proof {
        assert(p.skip(len as int).len() == 0);
    }
}

/// Transmits RGBA pixel data as image `id` (`a=t`: transmit only, no
/// display): the pixels are base64-encoded and sent in chunks.
pub fn transmit(out: &mut String, id: u32, width: u16, height: u16, rgba: &[u8])
    requires
        4 * ((rgba@.len() + 2) / 3) <= usize::MAX,
    ensures
        final(out)@ == old(out)@ + transmit_frames(id, width, height, base64_standard(rgba@), true),
{
    let payload = base64_encode(rgba);
    proof {
        lemma_base64_shape(rgba@);
        assert forall|i: int| 0 <= i < payload@.len() implies '\0' <= #[trigger] payload@[i] <= '\u{7f}' by {
            assert(is_base64_char(payload@[i]));
        }
    }
    push_frames(out, id, width, height, payload.as_str());
}

/// The placement command: save the cursor, move to `(row, col)` (1-based),
/// place image `id` scaled to `cols` x `rows` cells without moving the
/// cursor, restore the cursor.
pub open spec fn place_seq(id: u32, col: u16, row: u16, cols: u16, rows: u16) -> Seq<char> {
    "\x1b7\x1b["@ + decimal(row as nat + 1) + ";"@ + decimal(col as nat + 1) + "H\x1b_Ga=p,q=2,i="@
        + decimal(id as nat) + ",p=1,c="@ + decimal(cols as nat) + ",r="@ + decimal(rows as nat)
        + ",C=1\x1b\\\x1b8"@
}

/// Places image `id` with its top-left at cell `(col, row)`, scaled to fit
/// `cols` x `rows` cells. Re-placing the same id replaces the old placement.
pub fn place(out: &mut String, id: u32, col: u16, row: u16, cols: u16, rows: u16)
    requires
        row < u16::MAX,
        col < u16::MAX,
    ensures
        final(out)@ == old(out)@ + place_seq(id, col, row, cols, rows),
{
    let ghost start = out@;
    out.append("\x1b7\x1b[");
    push_decimal(out, (row + 1) as u64);
    out.append(";");
    push_decimal(out, (col + 1) as u64);
    out.append("H\x1b_Ga=p,q=2,i=");
    push_decimal(out, id as u64);
    out.append(",p=1,c=");
    push_decimal(out, cols as u64);
    out.append(",r=");
    push_decimal(out, rows as u64);
    out.append(",C=1\x1b\\\x1b8");
    proof {
        assert(out@ =~= start + place_seq(id, col, row, cols, rows));
    }
}

/// The command removing the on-screen placement of image `id`.
pub open spec fn delete_placement_seq(id: u32) -> Seq<char> {
    "\x1b_Ga=d,q=2,d=i,i="@ + decimal(id as nat) + ";\x1b\\"@
}

/// Removes the on-screen placement of image `id` (pixel data stays cached).
pub fn delete_placement(out: &mut String, id: u32)
    ensures
        final(out)@ == old(out)@ + delete_placement_seq(id),
{
    let ghost start = out@;
    out.append("\x1b_Ga=d,q=2,d=i,i=");
    push_decimal(out, id as u64);
    out.append(";\x1b\\");
    proof {
        assert(out@ =~= start + delete_placement_seq(id));
    }
}

/// The command deleting every image and placement.
pub open spec fn delete_all_seq() -> Seq<char> {
    "\x1b_Ga=d,q=2,d=A;\x1b\\"@
}

/// Deletes all images and placements (exit cleanup).
pub fn delete_all(out: &mut String)
    ensures
        final(out)@ == old(out)@ + delete_all_seq(),
{
    out.append("\x1b_Ga=d,q=2,d=A;\x1b\\");
}

/// Whether a terminal with these environment values speaks the Kitty
/// graphics protocol: `KITTY_WINDOW_ID` is set, or `TERM` names kitty,
/// ghostty or wezterm.
pub open spec fn supported_spec(kitty_window_id: bool, term: Option<Seq<char>>) -> bool {
    kitty_window_id || match term {
        Some(t) => contains_seq(t, "kitty"@) || contains_seq(t, "ghostty"@) || contains_seq(t, "wezterm"@),
        None => false,
    }
}

/// Best-effort detection of a Kitty-graphics-capable terminal, from whether
/// `KITTY_WINDOW_ID` is set and the value of `TERM` (`None` when unset or not
/// valid Unicode).
pub fn supported(kitty_window_id: bool, term: Option<&str>) -> (r: bool)
    ensures
        r == supported_spec(kitty_window_id, match term { Some(t) => Some(t@), None => None }),
{
    if kitty_window_id {
        return true;
    }
    match term {
        Some(t) => contains(t, "kitty") || contains(t, "ghostty") || contains(t, "wezterm"),
        None => false,
    }
}

/// The escape sequences that move a sprite from its current placement
/// `last` to image `id` at `(col, row)`: nothing when it is already there;
/// otherwise the old image's placement is deleted first when the image
/// changes, then the new one is placed.
pub open spec fn placement_output(
    last: Option<(u32, u16, u16)>,
    id: u32,
    col: u16,
    row: u16,
    cols: u16,
    rows: u16,
) -> Seq<char> {
    if last == Some((id, col, row)) {
        Seq::empty()
    } else {
        let delete = match last {
            Some((old_id, _, _)) => if old_id != id { delete_placement_seq(old_id) } else { Seq::empty() },
            None => Seq::empty(),
        };
        delete + place_seq(id, col, row, cols, rows)
    }
}

/// Where a sprite was last placed: `(image id, column, row)`, or nothing
/// when it has not been placed since the last reset.
pub struct Placement {
    last: Option<(u32, u16, u16)>,
}

impl View for Placement {
    type V = Option<(u32, u16, u16)>;

    closed spec fn view(&self) -> Option<(u32, u16, u16)> {
        self.last
    }
}

impl Placement {
    /// A sprite not placed yet.
    pub fn new() -> (p: Placement)
        ensures
            p@ == None::<(u32, u16, u16)>,
    {
        Placement { last: None }
    }

    /// Forgets the current placement, so that the next `update` places the
    /// sprite again (after the geometry changed).
    pub fn reset(&mut self)
        ensures
            final(self)@ == None::<(u32, u16, u16)>,
    {
        self.last = None;
    }

    /// The current placement.
    pub fn last(&self) -> (r: Option<(u32, u16, u16)>)
        ensures
            r == self@,
    {
        self.last
    }

    /// Shows image `id` at `(col, row)`, `cols` x `rows` cells: writes only
    /// what changed since the last placement and remembers the new one.
    pub fn update(&mut self, out: &mut String, id: u32, col: u16, row: u16, cols: u16, rows: u16)
        requires
            row < u16::MAX,
            col < u16::MAX,
        ensures
            final(out)@ == old(out)@ + placement_output(old(self)@, id, col, row, cols, rows),
            final(self)@ == Some((id, col, row)),
    {
        let ghost start = out@;
        let changed = match self.last {
            Some((i, c, r)) => !(i == id && c == col && r == row),
            None => true,
        };
        if changed {
            if let Some((old_id, _, _)) = self.last {
                if old_id != id {
                    delete_placement(out, old_id);
                }
            }
            place(out, id, col, row, cols, rows);
            self.last = Some((id, col, row));
        }
        proof {
            assert(out@ =~= start + placement_output(old(self)@, id, col, row, cols, rows));
        }
    }
}

/// Placing a sprite where it already is sends nothing.
pub proof fn lemma_placement_idempotent(id: u32, col: u16, row: u16, cols: u16, rows: u16)
    ensures
        placement_output(Some((id, col, row)), id, col, row, cols, rows) == Seq::<char>::empty(),
{
}

/// Moving a sprite without changing its image only places it anew: no
/// placement is deleted.
pub proof fn lemma_placement_move(id: u32, col: u16, row: u16, col2: u16, row2: u16, cols: u16, rows: u16)
    requires
        (col, row) != (col2, row2),
    ensures
        placement_output(Some((id, col, row)), id, col2, row2, cols, rows) == place_seq(id, col2, row2, cols, rows),
{
    assert(Seq::<char>::empty() + place_seq(id, col2, row2, cols, rows) =~= place_seq(id, col2, row2, cols, rows));
}

} // verus!
