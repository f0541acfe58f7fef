//! Tracker-side logic: the mock tracker's frame schedule, validation of
//! preview images, and reading of length-bounded lines from the tracker's
//! output stream.

use std::io::Cursor;
use vstd::prelude::*;

verus! {

/// Frames per mock cycle of which the last `MOCK_DROP_FRAMES` are dropped.
pub const MOCK_DROP_CYCLE: u64 = 450;
pub const MOCK_DROP_FRAMES: u64 = 20;

/// Pinch shown by a mock frame.
#[derive(Debug, Clone, Copy, PartialEq, Eq, Structural)]
pub enum MockPinch {
    NoPinch,
    /// Thumb on the index tip.
    IndexPinch,
    /// Thumb on the middle tip.
    MiddlePinch,
}

/// Shape of a mock frame; landmark positions are laid out from it.
#[derive(Debug, Clone, Copy, PartialEq, Eq, Structural)]
pub enum MockFrame {
    Dropped,
    Hand { open_palm: bool, fist: bool, pinch: MockPinch },
}

pub open spec fn mock_frame_spec(frame_id: u64) -> MockFrame {
    if frame_id % MOCK_DROP_CYCLE >= MOCK_DROP_CYCLE - MOCK_DROP_FRAMES {
        MockFrame::Dropped
    } else {
        let phase = frame_id % 240;
        let click_cycle = frame_id % 220;
        let active = 35 <= phase < 190;
        MockFrame::Hand {
            open_palm: phase < 35,
            fist: phase >= 190,
            pinch: if active && (click_cycle == 140 || click_cycle == 141) {
                MockPinch::MiddlePinch
            } else if active && (click_cycle == 90 || click_cycle == 91) {
                MockPinch::IndexPinch
            } else {
                MockPinch::NoPinch
            },
        }
    }
}

/// Deterministic tracker used without a camera: a hand that opens, moves,
/// clicks and closes in a fixed cycle, with a short dropout.
#[derive(Debug, Clone, Copy, PartialEq, Eq, Structural)]
pub struct MockVisionTracker {
    pub frame_id: u64,
}

impl Default for MockVisionTracker {
    fn default() -> (t: Self)
        ensures
            t.frame_id == 0,
    {
        MockVisionTracker { frame_id: 0 }
    }
}

impl MockVisionTracker {
    /// A tracker at the first frame of its cycle.
    pub fn new() -> (t: Self)
        ensures
            t.frame_id == 0,
    {
        MockVisionTracker { frame_id: 0 }
    }

    /// The next frame's number and shape.
    pub fn next_frame(&mut self) -> (r: (u64, MockFrame))
        requires
            old(self).frame_id < u64::MAX,
        ensures
            r == (old(self).frame_id, mock_frame_spec(old(self).frame_id)),
            final(self).frame_id == old(self).frame_id + 1,
    {
        let frame_id = self.frame_id;
        self.frame_id = self.frame_id + 1;
        if frame_id % MOCK_DROP_CYCLE >= MOCK_DROP_CYCLE - MOCK_DROP_FRAMES {
            return (frame_id, MockFrame::Dropped);
        }
        let phase = frame_id % 240;
        let click_cycle = frame_id % 220;
        let active = 35 <= phase && phase < 190;
        let pinch = if active && (click_cycle == 140 || click_cycle == 141) {
            MockPinch::MiddlePinch
        } else if active && (click_cycle == 90 || click_cycle == 91) {
            MockPinch::IndexPinch
        } else {
            MockPinch::NoPinch
        };
        (frame_id, MockFrame::Hand { open_palm: phase < 35, fist: phase >= 190, pinch })
    }
}

/// The mock cycle never shows an open palm and a fist at once, and pinches
/// only between them.
pub proof fn lemma_mock_phases_are_exclusive(frame_id: u64)
    ensures
        mock_frame_spec(frame_id) matches MockFrame::Hand { open_palm, fist, pinch } ==> {
            &&& !(open_palm && fist)
            &&& pinch != MockPinch::NoPinch ==> (!open_palm && !fist)
        },
        (mock_frame_spec(frame_id) is Dropped) <==> frame_id % MOCK_DROP_CYCLE >= 430,
{
}

/// Longest accepted preview image, in Base64 bytes.
pub const MAX_PREVIEW_BASE64_BYTES: usize = 2 * 1024 * 1024;

/// ASCII letters and digits, `+`, `/` and `=`.
pub open spec fn is_base64_byte(b: u8) -> bool {
    (48 <= b <= 57) || (65 <= b <= 90) || (97 <= b <= 122) || b == 43 || b == 47 || b == 61
}

pub open spec fn preview_acceptable(bytes: Seq<u8>) -> bool {
    bytes.len() <= MAX_PREVIEW_BASE64_BYTES && forall|i: int| 0 <= i < bytes.len() ==> is_base64_byte(
        #[trigger] bytes[i],
    )
}

pub open spec fn sanitize_preview_spec(preview: Option<String>) -> Option<String> {
    match preview {
        None => None,
        Some(p) => if preview_acceptable(vstd::utf8::encode_utf8(p@)) { Some(p) } else { None },
    }
}

/// Keeps a preview only when it is Base64 text within the size limit.
pub fn sanitize_preview(preview: Option<String>) -> (r: Option<String>)
    ensures
        r == sanitize_preview_spec(preview),
{
    let p = match preview {
        None => return None,
        Some(p) => p,
    };
    let bytes = p.as_str().as_bytes();
    let n = bytes.len();
    if n > MAX_PREVIEW_BASE64_BYTES {
        return None;
    }
    let mut i: usize = 0;
    while i < n
        invariant
            n == bytes@.len(),
            i <= n,
            bytes@ == vstd::utf8::encode_utf8(p@),
            preview == Some(p),
            forall|j: int| 0 <= j < i ==> is_base64_byte(#[trigger] bytes@[j]),
        decreases n - i,
    {
        let b = bytes[i];
        let ok = (48 <= b && b <= 57) || (65 <= b && b <= 90) || (97 <= b && b <= 122) || b == 43
            || b == 47 || b == 61;
        if !ok {
            return None;
        }
        i = i + 1;
    }
    Some(p)
}

/// The newline byte.
pub const NEWLINE: u8 = 10;
/// The carriage-return byte.
pub const CARRIAGE_RETURN: u8 = 13;

/// Length of the first line of `s`, its newline included; all of `s` when it
/// holds no newline.
pub open spec fn line_prefix_len(s: Seq<u8>) -> nat
    decreases s.len(),
{
    if s.len() == 0 {
        0
    } else if s[0] == NEWLINE {
        1
    } else {
        1 + line_prefix_len(s.drop_first())
    }
}

/// `s` without its trailing newlines and carriage returns.
pub open spec fn trim_line_end_spec(s: Seq<u8>) -> Seq<u8>
    decreases s.len(),
{
    if s.len() > 0 && (s.last() == NEWLINE || s.last() == CARRIAGE_RETURN) {
        trim_line_end_spec(s.drop_last())
    } else {
        s
    }
}

proof fn lemma_line_prefix_len_at_newline(s: Seq<u8>, i: int)
    requires
        0 <= i < s.len(),
        s[i] == NEWLINE,
        forall|j: int| 0 <= j < i ==> s[j] != NEWLINE,
    ensures
        line_prefix_len(s) == i + 1,
    decreases i,
{
    if i > 0 {
        assert forall|j: int| 0 <= j < i - 1 implies s.drop_first()[j] != NEWLINE by {
            assert(s.drop_first()[j] == s[j + 1]);
        }
        lemma_line_prefix_len_at_newline(s.drop_first(), i - 1);
    }
}

proof fn lemma_line_prefix_len_without_newline(s: Seq<u8>)
    requires
        forall|j: int| 0 <= j < s.len() ==> s[j] != NEWLINE,
    ensures
        line_prefix_len(s) == s.len(),
    decreases s.len(),
{
    if s.len() > 0 {
        assert forall|j: int| 0 <= j < s.len() - 1 implies s.drop_first()[j] != NEWLINE by {
            assert(s.drop_first()[j] == s[j + 1]);
        }
        lemma_line_prefix_len_without_newline(s.drop_first());
    }
}

/// The line length is positive for a non-empty stream, never exceeds it, and
/// the line ends in a newline unless it runs to the end of the stream.
pub proof fn lemma_line_prefix_bounds(s: Seq<u8>)
    ensures
        line_prefix_len(s) <= s.len(),
        s.len() > 0 ==> line_prefix_len(s) > 0,
        line_prefix_len(s) < s.len() ==> s[line_prefix_len(s) - 1] == NEWLINE,
        forall|j: int| 0 <= j < line_prefix_len(s) - 1 ==> s[j] != NEWLINE,
    decreases s.len(),
{
    if s.len() > 0 && s[0] != NEWLINE {
        lemma_line_prefix_bounds(s.drop_first());
        let t = s.drop_first();
        assert forall|j: int| 0 <= j < line_prefix_len(s) - 1 implies s[j] != NEWLINE by {
            if j > 0 {
                assert(s[j] == t[j - 1]);
            }
        }
        if line_prefix_len(s) < s.len() {
            assert(s[line_prefix_len(s) - 1] == t[line_prefix_len(t) - 1]);
        }
    }
}

/// Trimming removes only trailing newlines and carriage returns: the result
/// is a prefix of the line, everything after it is a line-end byte, and it
/// does not itself end in one.
pub proof fn lemma_trim_removes_only_line_ends(s: Seq<u8>)
    ensures
        trim_line_end_spec(s).len() <= s.len(),
        trim_line_end_spec(s) == s.take(trim_line_end_spec(s).len() as int),
        forall|j: int| trim_line_end_spec(s).len() <= j < s.len() ==> (#[trigger] s[j] == NEWLINE || s[j] == CARRIAGE_RETURN),
        trim_line_end_spec(s).len() > 0 ==> (trim_line_end_spec(s).last() != NEWLINE && trim_line_end_spec(s).last() != CARRIAGE_RETURN),
    decreases s.len(),
{
    if s.len() > 0 && (s.last() == NEWLINE || s.last() == CARRIAGE_RETURN) {
        lemma_trim_removes_only_line_ends(s.drop_last());
        let t = trim_line_end_spec(s);
        assert(t == s.drop_last().take(t.len() as int));
        assert(t =~= s.take(t.len() as int));
        assert forall|j: int| t.len() <= j < s.len() implies (#[trigger] s[j] == NEWLINE || s[j] == CARRIAGE_RETURN) by {
            if j < s.len() - 1 {
                assert(s[j] == s.drop_last()[j]);
            }
        }
    } else {
        assert(s =~= s.take(s.len() as int));
    }
}

/// Part of a line taken from a buffered chunk.
#[derive(Debug, Clone, Copy, PartialEq, Eq, Structural)]
pub struct LineChunk {
    /// Bytes taken from the chunk, a newline included.
    pub take_len: usize,
    /// The chunk completed the line.
    pub has_newline: bool,
}

/// A line grew beyond the length limit.
#[derive(Debug, Clone, Copy, PartialEq, Eq, Structural)]
pub struct LineTooLong;

/// Moves the next line's bytes of `available[start..]` into `buf`, up to and
/// including the first newline; refuses, leaving `buf` unchanged, when `buf`
/// would exceed `max_len` bytes.
pub fn take_line_chunk(buf: &mut Vec<u8>, available: &[u8], start: usize, max_len: usize) -> (r:
    Result<LineChunk, LineTooLong>)
    requires
        start < available@.len(),
    ensures
        ({
            let rest = available@.subrange(start as int, available@.len() as int);
            let n = line_prefix_len(rest);
            &&& n > 0
            &&& (r is Err <==> old(buf)@.len() + n > max_len)
            &&& r is Err ==> final(buf)@ == old(buf)@
            &&& r matches Ok(c) ==> {
                &&& c.take_len == n
                &&& c.has_newline == (rest[n - 1] == NEWLINE)
                &&& final(buf)@ == old(buf)@ + rest.take(n as int)
            }
        }),
{
    let ghost rest = available@.subrange(start as int, available@.len() as int);
    let len = available.len();
    let mut end = start;
    while end < len && available[end] != NEWLINE
        invariant
            start <= end <= len,
            len == available@.len(),
            rest == available@.subrange(start as int, len as int),
            forall|j: int| start <= j < end ==> available@[j] != NEWLINE,
        decreases len - end,
    {
        end = end + 1;
    }
    let has_newline = end < len;
    let take_len = if has_newline { end - start + 1 } else { end - start };
    proof {
        assert forall|j: int| 0 <= j < end - start implies rest[j] != NEWLINE by {
            assert(rest[j] == available@[start + j]);
        }
        if has_newline {
            assert(rest[end - start] == available@[end as int]);
            lemma_line_prefix_len_at_newline(rest, end - start);
        } else {
            lemma_line_prefix_len_without_newline(rest);
        }
    }
    if take_len > max_len || buf.len() > max_len - take_len {
        return Err(LineTooLong);
    }
    let ghost old_buf = buf@;
    let mut k = start;
    while k < start + take_len
        invariant
            start <= k <= start + take_len <= len,
            len == available@.len(),
            buf@ == old_buf + available@.subrange(start as int, k as int),
        decreases start + take_len - k,
    {
        buf.push(available[k]);
        proof {
            assert(available@.subrange(start as int, k + 1) =~= available@.subrange(start as int, k as int).push(available@[k as int]));
        }
        k = k + 1;
    }
    proof {
        assert(available@.subrange(start as int, (start + take_len) as int) =~= rest.take(take_len as int));
    }
    Ok(LineChunk { take_len, has_newline })
}

/// Drops trailing newlines and carriage returns from a finished line.
pub fn trim_line_end(buf: &mut Vec<u8>)
    ensures
        final(buf)@ == trim_line_end_spec(old(buf)@),
{
    while buf.len() > 0 && (buf[buf.len() - 1] == NEWLINE || buf[buf.len() - 1] == CARRIAGE_RETURN)
        invariant
            trim_line_end_spec(buf@) == trim_line_end_spec(old(buf)@),
        decreases buf@.len(),
    {
        let ghost before = buf@;
        buf.pop();
        proof {
            assert(buf@ =~= before.drop_last());
        }
    }
}

/// What one look at a buffered stream's available bytes decides while a
/// line is read.
#[derive(Debug, Clone, Copy, PartialEq, Eq, Structural)]
pub enum LineRead {
    /// The stream ended before any byte of a line: no line.
    EndOfStream,
    /// The line grew beyond the limit: the read fails with `InvalidData`.
    TooLong,
    /// The line is complete once `consume` bytes are consumed.
    Line { consume: usize },
    /// `consume` bytes were taken; the line goes on in the next chunk.
    More { consume: usize },
}

pub open spec fn line_read_step_spec(buf: Seq<u8>, available: Seq<u8>, max_len: usize) -> (Seq<u8>, LineRead) {
    if available.len() == 0 {
        if buf.len() == 0 {
            (buf, LineRead::EndOfStream)
        } else {
            (trim_line_end_spec(buf), LineRead::Line { consume: 0 })
        }
    } else {
        let n = line_prefix_len(available);
        if buf.len() + n > max_len {
            (buf, LineRead::TooLong)
        } else if available[n - 1] == NEWLINE {
            (trim_line_end_spec(buf + available.take(n as int)), LineRead::Line { consume: n as usize })
        } else {
            (buf + available.take(n as int), LineRead::More { consume: n as usize })
        }
    }
}

/// One step of reading a bounded line from a buffered stream: `buf` holds the
/// line so far and `available` what the stream has buffered (empty at its
/// end). Takes the line's bytes up to and including the first newline,
/// refusing a line longer than `max_len` bytes, and trims a finished line of
/// its line ending. The bytes to consume never exceed what is available.
pub fn line_read_step(buf: &mut Vec<u8>, available: &[u8], max_len: usize) -> (r: LineRead)
    ensures
        (final(buf)@, r) == line_read_step_spec(old(buf)@, available@, max_len),
        r matches LineRead::Line { consume } ==> consume <= available@.len(),
        r matches LineRead::More { consume } ==> 0 < consume <= available@.len(),
{
    if available.len() == 0 {
        if buf.len() == 0 {
            return LineRead::EndOfStream;
        }
        trim_line_end(buf);
        return LineRead::Line { consume: 0 };
    }
    proof {
        assert(available@.subrange(0, available@.len() as int) =~= available@);
        lemma_line_prefix_bounds(available@);
    }
    match take_line_chunk(buf, available, 0, max_len) {
        Err(_) => LineRead::TooLong,
        Ok(c) => {
            if c.has_newline {
                trim_line_end(buf);
                LineRead::Line { consume: c.take_len }
            } else {
                LineRead::More { consume: c.take_len }
            }
        },
    }
}

/// The bytes a step consumes.
pub open spec fn line_read_consumed(r: LineRead) -> nat {
    match r {
        LineRead::Line { consume } => consume as nat,
        LineRead::More { consume } => consume as nat,
        _ => 0,
    }
}

/// Steps over a stream delivered in `chunks` (then its end) until a step
/// ends the read: the line buffer, the last step and the bytes consumed.
pub open spec fn line_read_run(buf: Seq<u8>, chunks: Seq<Seq<u8>>, max_len: usize) -> (Seq<u8>, LineRead, nat)
    decreases chunks.len(),
{
    if chunks.len() == 0 {
        let (b, r) = line_read_step_spec(buf, Seq::empty(), max_len);
        (b, r, 0)
    } else {
        let (b, r) = line_read_step_spec(buf, chunks[0], max_len);
        if r is More {
            let (b2, r2, c2) = line_read_run(b, chunks.drop_first(), max_len);
            (b2, r2, line_read_consumed(r) + c2)
        } else {
            (b, r, line_read_consumed(r))
        }
    }
}

proof fn lemma_line_prefix_len_append(c: Seq<u8>, r: Seq<u8>)
    ensures
        (c.len() > 0 && c[line_prefix_len(c) - 1] == NEWLINE) ==> line_prefix_len(c + r)
            == line_prefix_len(c),
        (forall|j: int| 0 <= j < c.len() ==> c[j] != NEWLINE) ==> line_prefix_len(c + r) == c.len()
            + line_prefix_len(r),
    decreases c.len(),
{
    if c.len() > 0 {
        assert((c + r)[0] == c[0]);
        if c[0] != NEWLINE {
            assert((c + r).drop_first() =~= c.drop_first() + r);
            lemma_line_prefix_len_append(c.drop_first(), r);
            if forall|j: int| 0 <= j < c.len() ==> c[j] != NEWLINE {
                assert forall|j: int| 0 <= j < c.drop_first().len() implies c.drop_first()[j] != NEWLINE by {
                    assert(c.drop_first()[j] == c[j + 1]);
                }
            }
            if c.drop_first().len() > 0 {
                lemma_line_prefix_bounds(c.drop_first());
                assert(c[line_prefix_len(c) - 1] == c.drop_first()[line_prefix_len(c.drop_first()) - 1]);
            }
        }
    } else {
        assert(c + r =~= r);
    }
}

proof fn lemma_line_read_run_from(b: Seq<u8>, chunks: Seq<Seq<u8>>, max_len: usize)
    requires
        forall|i: int| 0 <= i < chunks.len() ==> (#[trigger] chunks[i]).len() > 0,
    ensures
        ({
            let s = chunks.flatten();
            let n = line_prefix_len(s);
            let (buf, r, consumed) = line_read_run(b, chunks, max_len);
            &&& (s.len() == 0 && b.len() == 0) ==> (r == LineRead::EndOfStream && consumed == 0)
            &&& (s.len() == 0 && b.len() > 0) ==> (r is Line && buf == trim_line_end_spec(b)
                && consumed == 0)
            &&& (s.len() > 0 && b.len() + n > max_len) ==> r == LineRead::TooLong
            &&& (s.len() > 0 && b.len() + n <= max_len) ==> (r is Line && buf == trim_line_end_spec(
                b + s.take(n as int),
            ) && consumed == n)
        }),
    decreases chunks.len(),
{
    if chunks.len() > 0 {
        let c = chunks[0];
        let rest = chunks.drop_first();
        let s = chunks.flatten();
        assert(s == c + rest.flatten());
        assert(c.len() > 0);
        let m = line_prefix_len(c);
        lemma_line_prefix_bounds(c);
        lemma_line_prefix_len_append(c, rest.flatten());
        assert forall|i: int| 0 <= i < rest.len() implies (#[trigger] rest[i]).len() > 0 by {
            assert(rest[i] == chunks[i + 1]);
        }
        if c[m - 1] == NEWLINE {
            assert(s.take(m as int) =~= c.take(m as int));
        } else {
            assert(m == c.len());
            assert forall|j: int| 0 <= j < c.len() implies c[j] != NEWLINE by {
                if j < m - 1 {
                } else {
                    assert(j == m - 1);
                }
            }
            assert(c.take(m as int) =~= c);
            let b2 = b + c;
            lemma_line_read_run_from(b2, rest, max_len);
            let n = line_prefix_len(s);
            let rn = line_prefix_len(rest.flatten());
            assert(n == c.len() + rn);
            lemma_line_prefix_bounds(rest.flatten());
            assert(s.take(n as int) =~= c + rest.flatten().take(rn as int));
            assert(b + s.take(n as int) =~= b2 + rest.flatten().take(rn as int));
            if rest.flatten().len() == 0 {
                assert(rest.flatten().take(0) =~= Seq::<u8>::empty());
                assert(b2 + Seq::<u8>::empty() =~= b2);
            }
        }
    } else {
        assert(chunks.flatten() =~= Seq::<u8>::empty());
    }
}

/// Reading a bounded line does not depend on how the stream is buffered:
/// stepping over any split of the stream into non-empty chunks ends the
/// stream's end with no line, refuses a first line longer than `max_len`
/// (its newline included), and otherwise gives that line without its line
/// ending, consuming exactly its bytes, as `read_bounded_line` does on the
/// whole stream.
pub proof fn lemma_line_read_ignores_chunking(chunks: Seq<Seq<u8>>, max_len: usize)
    requires
        forall|i: int| 0 <= i < chunks.len() ==> (#[trigger] chunks[i]).len() > 0,
    ensures
        ({
            let s = chunks.flatten();
            let n = line_prefix_len(s);
            let (buf, r, consumed) = line_read_run(Seq::empty(), chunks, max_len);
            &&& s.len() == 0 ==> (r == LineRead::EndOfStream && consumed == 0)
            &&& (s.len() > 0 && n > max_len) ==> r == LineRead::TooLong
            &&& (s.len() > 0 && n <= max_len) ==> (r is Line && buf == trim_line_end_spec(
                s.take(n as int),
            ) && consumed == n)
        }),
{
    lemma_line_read_run_from(Seq::empty(), chunks, max_len);
    let s = chunks.flatten();
    assert(Seq::<u8>::empty() + s.take(line_prefix_len(s) as int) =~= s.take(line_prefix_len(s) as int));
}

/// What `Cursor::get_ref` shows of an in-memory cursor: its bytes.
pub uninterp spec fn cursor_data(c: Cursor<Vec<u8>>) -> Seq<u8>;

/// What `Cursor::position` shows of an in-memory cursor.
pub uninterp spec fn cursor_position(c: Cursor<Vec<u8>>) -> u64;

/// The bytes of a cursor not yet read.
pub open spec fn cursor_unread(c: Cursor<Vec<u8>>) -> Seq<u8> {
    if cursor_position(c) < cursor_data(c).len() {
        cursor_data(c).subrange(cursor_position(c) as int, cursor_data(c).len() as int)
    } else {
        Seq::empty()
    }
}

#[verifier::external_type_specification]
#[verifier::external_body]
#[verifier::reject_recursive_types(T)]
pub struct ExCursor<T>(Cursor<T>);

/// Calls `Cursor::get_ref`: the cursor's underlying bytes.
#[verifier::external_body]
fn cursor_get_ref(c: &Cursor<Vec<u8>>) -> (r: &Vec<u8>)
    ensures
        r@ == cursor_data(*c),
{
    c.get_ref()
}

/// Calls `Cursor::position`: the cursor's current position.
#[verifier::external_body]
fn cursor_get_position(c: &Cursor<Vec<u8>>) -> (p: u64)
    ensures
        p == cursor_position(*c),
{
    c.position()
}

/// Calls `Cursor::set_position`: moves the cursor, leaving its bytes.
#[verifier::external_body]
fn cursor_set_position(c: &mut Cursor<Vec<u8>>, pos: u64)
    ensures
        cursor_position(*final(c)) == pos,
        cursor_data(*final(c)) == cursor_data(*old(c)),
{
    c.set_position(pos)
}

#[verifier::external_type_specification]
#[verifier::external_body]
pub struct ExIoError(std::io::Error);

/// `std::io::ErrorKind`, with its variants open to contracts, which name
/// the kind of an error.
#[verifier::external_type_specification]
pub struct ExIoErrorKind(std::io::ErrorKind);

/// What `std::io::Error::kind` gives for an error.
pub uninterp spec fn std_io_error_kind(e: std::io::Error) -> std::io::ErrorKind;

/// Calls `std::io::Error::new` with kind `InvalidData`: an error whose `kind()`
/// is `InvalidData`, as that constructor documents. Nothing is stated of its
/// message.
#[verifier::external_body]
fn invalid_data_error(message: &str) -> (e: std::io::Error)
    ensures
        std_io_error_kind(e) == std::io::ErrorKind::InvalidData,
{
    std::io::Error::new(std::io::ErrorKind::InvalidData, message.to_owned())
}

/// Reads the next line of an in-memory stream into `buf`, without its line
/// ending: `Ok(false)` at the end of the stream, an `InvalidData` error
/// (reading nothing) when the line including its newline is longer than
/// `max_len`.
pub fn read_bounded_line(reader: &mut Cursor<Vec<u8>>, buf: &mut Vec<u8>, max_len: usize) -> (r:
    std::io::Result<bool>)
    ensures
        ({
            let rest = cursor_unread(*old(reader));
            let n = line_prefix_len(rest);
            &&& cursor_data(*final(reader)) == cursor_data(*old(reader))
            &&& rest.len() == 0 ==> {
                &&& r matches Ok(false)
                &&& final(buf)@ == Seq::<u8>::empty()
                &&& cursor_position(*final(reader)) == cursor_position(*old(reader))
            }
            &&& (rest.len() > 0 && n > max_len) ==> {
                &&& r is Err
                &&& std_io_error_kind(r->Err_0) == std::io::ErrorKind::InvalidData
                &&& final(buf)@ == Seq::<u8>::empty()
                &&& cursor_position(*final(reader)) == cursor_position(*old(reader))
            }
            &&& (rest.len() > 0 && n <= max_len) ==> {
                &&& r matches Ok(true)
                &&& final(buf)@ == trim_line_end_spec(rest.take(n as int))
                &&& cursor_position(*final(reader)) == cursor_position(*old(reader)) + n
                &&& cursor_unread(*final(reader)) == rest.skip(n as int)
            }
        }),
{
    buf.clear();
    let pos = cursor_get_position(reader);
    let data = cursor_get_ref(reader);
    let len = data.len();
    if pos >= len as u64 {
        return Ok(false);
    }
    let start = pos as usize;
    let ghost rest = cursor_unread(*reader);
    proof {
        assert(data@.subrange(start as int, len as int) == rest);
    }
    let taken = take_line_chunk(buf, data.as_slice(), start, max_len);
    match taken {
        Err(_) => Err(invalid_data_error("python tracker line exceeded maximum length")),
        Ok(chunk) => {
            proof {
                lemma_line_prefix_bounds(rest);
            }
            let next = pos + chunk.take_len as u64;
            cursor_set_position(reader, next);
            proof {
                let c = *reader;
                if cursor_position(c) < cursor_data(c).len() {
                    assert(cursor_unread(c) =~= rest.skip(chunk.take_len as int));
                } else {
                    assert(rest.skip(chunk.take_len as int) =~= Seq::<u8>::empty());
                }
            }
            trim_line_end(buf);
            Ok(true)
        },
    }
}


/// Frame numbering of the external tracker's stream, and whether its
/// process has exited.
#[derive(Debug, Clone, Copy, PartialEq, Eq, Structural)]
pub struct StreamFrameCounter {
    pub frame_id: u64,
    pub child_exited: bool,
}

/// What to deliver when no new packet arrived.
#[derive(Debug, Clone, Copy, PartialEq, Eq, Structural)]
pub enum EmptyPoll {
    /// The tracker process is gone: the mock tracker takes over.
    UseFallback,
    /// A dropped frame with this number.
    Dropped { frame_id: u64 },
}

pub open spec fn sat_add(a: u64, b: u64) -> u64 {
    if a + b > u64::MAX { u64::MAX } else { (a + b) as u64 }
}

impl StreamFrameCounter {
    /// Numbering from frame zero, the process running.
    pub fn new() -> (c: StreamFrameCounter)
        ensures
            c == (StreamFrameCounter { frame_id: 0, child_exited: false }),
    {
        StreamFrameCounter { frame_id: 0, child_exited: false }
    }

    /// A packet arrived: numbering continues after its frame.
    pub fn on_packet(&mut self, packet_frame_id: u64)
        ensures
            *final(self) == (StreamFrameCounter { frame_id: sat_add(packet_frame_id, 1), ..*old(self) }),
    {
        self.frame_id = packet_frame_id.saturating_add(1);
    }

    /// Records that the tracker process has exited; it never comes back.
    pub fn mark_exited(&mut self)
        ensures
            *final(self) == (StreamFrameCounter { child_exited: true, ..*old(self) }),
    {
        self.child_exited = true;
    }

    /// No packet arrived: fall back to the mock tracker once the process has
    /// exited, else report a dropped frame and advance the numbering.
    pub fn on_empty_poll(&mut self) -> (r: EmptyPoll)
        ensures
            old(self).child_exited ==> (r == EmptyPoll::UseFallback && *final(self) == *old(self)),
            !old(self).child_exited ==> {
                &&& r == (EmptyPoll::Dropped { frame_id: old(self).frame_id })
                &&& *final(self) == (StreamFrameCounter { frame_id: sat_add(old(self).frame_id, 1), ..*old(self) })
            },
    {
        if self.child_exited {
            return EmptyPoll::UseFallback;
        }
        let frame_id = self.frame_id;
        self.frame_id = self.frame_id.saturating_add(1);
        EmptyPoll::Dropped { frame_id }
    }
}

} // verus!
