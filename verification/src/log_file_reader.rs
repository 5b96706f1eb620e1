//! Following a log file that another process keeps writing to.
//!
//! The reader keeps a cursor into the file, as a byte offset. The caller
//! hands it the bytes that the file holds from the cursor on; the reader
//! gives back the next complete line, if there is one, and moves the cursor
//! past what it has taken. A line that the writer has not finished is left
//! where it is: the cursor stays at its first byte until the rest arrives.

use crate::text::is_white_space;
use crate::text::lemma_trimmed_end;
use crate::text::trim_end;
use crate::text::trimmed_end;
use vstd::prelude::*;
use vstd::slice::slice_subrange;
use vstd::string::*;
use vstd::utf8::decode_utf8;
use vstd::utf8::encode_utf8;
use vstd::utf8::encode_utf8_decode_utf8;
use vstd::utf8::decode_utf8_encode_utf8;
use vstd::utf8::valid_utf8;

verus! {

/// The byte that ends a line.
pub const LINE_FEED: u8 = 10;

/// The number of bytes before the first line feed of `bytes`; the length of
/// `bytes` where it holds none.
pub open spec fn line_length(bytes: Seq<u8>) -> int {
    match bytes.index_of_first(LINE_FEED) {
        Some(i) => i,
        None => bytes.len() as int,
    }
}

/// What `line_length` is: it stays within `bytes`, no line feed comes before
/// it, and where it falls short of the end a line feed stands there.
pub proof fn lemma_line_length(bytes: Seq<u8>)
    ensures
        0 <= line_length(bytes) <= bytes.len(),
        forall|i: int| 0 <= i < line_length(bytes) ==> #[trigger] bytes[i] != LINE_FEED,
        line_length(bytes) < bytes.len() ==> bytes[line_length(bytes)] == LINE_FEED,
        line_length(bytes) < bytes.len() <==> bytes.contains(LINE_FEED),
{
    bytes.index_of_first_ensures(LINE_FEED);
    match bytes.index_of_first(LINE_FEED) {
        Some(n) => {
            assert forall|i: int| 0 <= i < n implies #[trigger] bytes[i] != LINE_FEED by {}
        },
        None => {
            assert forall|i: int| 0 <= i < bytes.len() implies #[trigger] bytes[i]
                != LINE_FEED by {
                if bytes[i] == LINE_FEED {
                    assert(bytes.contains(LINE_FEED));
                }
            }
        },
    }
}

/// The position `n` is `line_length(bytes)` as soon as no line feed comes
/// before it and it is the end of `bytes` or holds a line feed.
pub proof fn lemma_line_length_is(bytes: Seq<u8>, n: int)
    requires
        0 <= n <= bytes.len(),
        forall|i: int| 0 <= i < n ==> #[trigger] bytes[i] != LINE_FEED,
        n < bytes.len() ==> bytes[n] == LINE_FEED,
    ensures
        line_length(bytes) == n,
{
    lemma_line_length(bytes);
    let m = line_length(bytes);
    if m < n {
        assert(bytes[m] == LINE_FEED);
    } else if n < m {
        assert(bytes[n] == LINE_FEED);
    }
}

/// What one attempt to read a line finds, as mathematical values.
pub enum Reading {
    /// No byte is waiting.
    NoData,
    /// Bytes are waiting, but the line they begin has not been finished.
    Partial,
    /// The bytes up to the next line feed, or all of them where there is
    /// none, are not UTF-8; `consumed` bytes are given up.
    Undecodable { consumed: nat },
    /// A complete line: its text without the white space at its end, and the
    /// number of bytes it took, line feed included.
    Line { text: Seq<char>, consumed: nat },
}

impl Reading {
    /// The line that the attempt yields.
    pub open spec fn line(self) -> Option<Seq<char>> {
        match self {
            Reading::Line { text, .. } => Some(text),
            _ => None,
        }
    }

    /// The number of bytes by which the attempt moves the cursor.
    pub open spec fn consumed(self) -> nat {
        match self {
            Reading::Line { consumed, .. } => consumed,
            Reading::Undecodable { consumed } => consumed,
            _ => 0,
        }
    }
}

/// What an attempt to read a line finds in the unread bytes `unread`.
///
/// The attempt looks at the bytes up to the first line feed. Where they are
/// not UTF-8 the attempt fails and gives them up, together with the line
/// feed if there is one. Where they are, they make a line if the line feed
/// is there, and stay unread if it is not.
pub open spec fn reading(unread: Seq<u8>) -> Reading {
    let n = line_length(unread);
    let complete = n < unread.len();
    let raw = unread.take(n);
    if unread.len() == 0 {
        Reading::NoData
    } else if !valid_utf8(raw) {
        Reading::Undecodable {
            consumed: if complete {
                (n + 1) as nat
            } else {
                n as nat
            },
        }
    } else if complete {
        Reading::Line { text: trimmed_end(decode_utf8(raw)), consumed: (n + 1) as nat }
    } else {
        Reading::Partial
    }
}

/// An attempt takes no more bytes than there are, and a line takes at least
/// its line feed.
pub proof fn lemma_reading_consumes(unread: Seq<u8>)
    ensures
        reading(unread).consumed() <= unread.len(),
        reading(unread) is Line ==> reading(unread).consumed() >= 1,
{
    lemma_line_length(unread);
}

/// The lines that a drain pass yields from `unread`: those that repeated
/// attempts find, in order, up to the first attempt that yields none.
pub open spec fn drained_lines(unread: Seq<u8>) -> Seq<Seq<char>>
    decreases unread.len(),
    via drained_lines_terminates
{
    match reading(unread) {
        Reading::Line { text, consumed } => seq![text] + drained_lines(unread.skip(consumed as int)),
        _ => seq![],
    }
}

#[via_fn]
proof fn drained_lines_terminates(unread: Seq<u8>) {
    lemma_reading_consumes(unread);
}

/// The number of bytes that a drain pass over `unread` gives up at its end
/// for not being UTF-8; none where the pass stops for want of a complete
/// line.
pub open spec fn given_up(unread: Seq<u8>) -> nat
    decreases unread.len(),
    via given_up_terminates
{
    match reading(unread) {
        Reading::Line { consumed, .. } => given_up(unread.skip(consumed as int)),
        Reading::Undecodable { consumed } => consumed,
        _ => 0,
    }
}

#[via_fn]
proof fn given_up_terminates(unread: Seq<u8>) {
    lemma_reading_consumes(unread);
}

/// The number of bytes by which a drain pass over `unread` moves the cursor:
/// those of the lines it yields and those it gives up.
pub open spec fn drained_len(unread: Seq<u8>) -> nat
    decreases unread.len(),
    via drained_len_terminates
{
    match reading(unread) {
        Reading::Line { consumed, .. } => consumed + drained_len(unread.skip(consumed as int)),
        other => other.consumed(),
    }
}

#[via_fn]
proof fn drained_len_terminates(unread: Seq<u8>) {
    lemma_reading_consumes(unread);
}

/// What one attempt to read a line found.
#[derive(Debug, PartialEq, Eq)]
pub enum LineRead {
    /// No byte is waiting.
    NoData,
    /// Bytes are waiting, but the line they begin has not been finished.
    Partial,
    /// The bytes looked at are not UTF-8; `consumed` of them are given up.
    Undecodable { consumed: usize },
    /// A complete line and the number of bytes it took.
    Line { text: String, consumed: usize },
}

impl View for LineRead {
    type V = Reading;

    open spec fn view(&self) -> Reading {
        match self {
            LineRead::NoData => Reading::NoData,
            LineRead::Partial => Reading::Partial,
            LineRead::Undecodable { consumed } => Reading::Undecodable { consumed: *consumed as nat },
            LineRead::Line { text, consumed } => Reading::Line {
                text: text@,
                consumed: *consumed as nat,
            },
        }
    }
}

/// The text that `bytes` encode, where they are UTF-8.
///
/// Calls `core::str::from_utf8`. The contract claims what that function
/// documents: it succeeds exactly on UTF-8, and the string it then returns
/// is made of the very bytes it was given.
#[verifier::external_body]
fn text_of(bytes: &[u8]) -> (r: Option<&str>)
    ensures
        r is Some <==> valid_utf8(bytes@),
        r matches Some(text) ==> text.spec_bytes() == bytes@,
{
    match core::str::from_utf8(bytes) {
        Ok(text) => Some(text),
        Err(_) => None,
    }
}

/// Finds the first line feed of `bytes`.
pub fn find_line_feed(bytes: &[u8]) -> (n: usize)
    ensures
        n == line_length(bytes@),
{
    let mut n: usize = 0;
    while n < bytes.len() && bytes[n] != LINE_FEED
        invariant
            n <= bytes.len(),
            forall|i: int| 0 <= i < n ==> #[trigger] bytes@[i] != LINE_FEED,
        decreases bytes.len() - n,
    {
        n += 1;
    }
    proof {
        lemma_line_length_is(bytes@, n as int);
    }
    n
}

/// Attempts to read one line from the unread bytes `unread`.
pub fn read_next(unread: &[u8]) -> (r: LineRead)
    ensures
        r@ == reading(unread@),
{
    if unread.len() == 0 {
        return LineRead::NoData;
    }
    let n = find_line_feed(unread);
    proof {
        lemma_line_length(unread@);
    }
    let complete = n < unread.len();
    let raw = slice_subrange(unread, 0, n);
    match text_of(raw) {
        None => LineRead::Undecodable {
            consumed: if complete {
                n + 1
            } else {
                n
            },
        },
        Some(text) => {
            proof {
                encode_utf8_decode_utf8(text@);
            }
            if complete {
                LineRead::Line { text: trim_end(text), consumed: n + 1 }
            } else {
                LineRead::Partial
            }
        },
    }
}

/// What one drain pass found.
#[derive(Debug, PartialEq, Eq)]
pub struct DrainPass {
    /// The complete lines, in file order.
    pub lines: Vec<String>,
    /// The number of bytes given up at the end of the pass for not being
    /// UTF-8; none where the pass stopped for want of a complete line.
    pub given_up: usize,
}

/// What a reader holds, as mathematical values.
pub struct LogFileReaderView {
    /// The path of the file that is followed.
    pub log_file: Seq<char>,
    /// The cursor: the offset of the first byte not yet taken.
    pub offset: nat,
}

/// The cursor into one log file. A reader is made once per watch, for the
/// file chosen then, and stays with that file.
#[derive(Debug)]
pub struct LogFileReader {
    log_file: String,
    offset: u64,
}

impl View for LogFileReader {
    type V = LogFileReaderView;

    closed spec fn view(&self) -> LogFileReaderView {
        LogFileReaderView { log_file: self.log_file@, offset: self.offset as nat }
    }
}

impl LogFileReader {
    /// A reader for the file at `log_file`, with its cursor at the file's
    /// present end `end_of_file`: nothing written before now is ever read.
    pub fn new(log_file: String, end_of_file: u64) -> (r: Self)
        ensures
            r@ == (LogFileReaderView { log_file: log_file@, offset: end_of_file as nat }),
    {
        LogFileReader { log_file, offset: end_of_file }
    }

    /// The path of the file that is followed.
    pub fn log_file_path(&self) -> (r: &String)
        ensures
            r@ == self@.log_file,
    {
        &self.log_file
    }

    /// The cursor: the offset of the first byte not yet taken.
    pub fn offset(&self) -> (r: u64)
        ensures
            r == self@.offset,
    {
        self.offset
    }

    /// Attempts to read one line, where `unread` holds the bytes of the file
    /// from the cursor to its present end.
    ///
    /// The cursor moves past a complete line and past bytes that are not
    /// UTF-8, and stays where it is otherwise. A line that is returned holds
    /// no line feed and ends in no white space.
    pub fn read_line(&mut self, unread: &[u8]) -> (r: Option<String>)
        requires
            old(self)@.offset + unread@.len() <= u64::MAX,
        ensures
            final(self)@ == (LogFileReaderView {
                log_file: old(self)@.log_file,
                offset: old(self)@.offset + reading(unread@).consumed(),
            }),
            r is Some <==> reading(unread@) is Line,
            r matches Some(line) ==> reading(unread@).line() == Some(line@),
            r matches Some(line) ==> !line@.contains('\n'),
    {
        proof {
            lemma_reading_consumes(unread@);
            lemma_line_has_no_line_feed(unread@);
        }
        match read_next(unread) {
            LineRead::Line { text, consumed } => {
                self.offset = self.offset + consumed as u64;
                Some(text)
            },
            LineRead::Undecodable { consumed } => {
                self.offset = self.offset + consumed as u64;
                None
            },
            _ => None,
        }
    }

    /// Runs one drain pass, where `unread` holds the bytes of the file from
    /// the cursor to its present end: reads line after line until an attempt
    /// yields none, and returns the lines in file order.
    pub fn drain(&mut self, unread: &[u8]) -> (r: DrainPass)
        requires
            old(self)@.offset + unread@.len() <= u64::MAX,
        ensures
            final(self)@ == (LogFileReaderView {
                log_file: old(self)@.log_file,
                offset: old(self)@.offset + drained_len(unread@),
            }),
            r.lines.deep_view() == drained_lines(unread@),
            r.given_up == given_up(unread@),
    {
        let start: u64 = self.offset;
        let mut lines: Vec<String> = Vec::new();
        let mut taken: usize = 0;
        let mut abandoned: usize = 0;
        assert(unread@.skip(0) =~= unread@);
        assert(lines.deep_view() =~= Seq::<Seq<char>>::empty());
        loop
            invariant_except_break
                taken <= unread@.len(),
                start + unread@.len() <= u64::MAX,
                start == old(self)@.offset,
                self@ == (LogFileReaderView {
                    log_file: old(self)@.log_file,
                    offset: (start + taken) as nat,
                }),
                drained_lines(unread@) == lines.deep_view() + drained_lines(
                    unread@.skip(taken as int),
                ),
                drained_len(unread@) == taken + drained_len(unread@.skip(taken as int)),
                given_up(unread@) == given_up(unread@.skip(taken as int)),
            ensures
                self@ == (LogFileReaderView {
                    log_file: old(self)@.log_file,
                    offset: old(self)@.offset + drained_len(unread@),
                }),
                lines.deep_view() == drained_lines(unread@),
                abandoned == given_up(unread@),
            decreases unread@.len() - taken,
        {
            let rest = slice_subrange(unread, taken, unread.len());
            let ghost before = lines.deep_view();
            proof {
                lemma_reading_consumes(rest@);
            }
            match self.read_line(rest) {
                Some(line) => {
                    let ghost consumed = reading(rest@).consumed();
                    let ghost text = line@;
                    lines.push(line);
                    taken = (self.offset - start) as usize;
                    proof {
                        assert(rest@.skip(consumed as int) =~= unread@.skip(taken as int));
                        assert(lines.deep_view() =~= before + seq![text]);
                    }
                },
                None => {
                    abandoned = (self.offset - start) as usize - taken;
                    proof {
                        assert(drained_lines(rest@) =~= Seq::<Seq<char>>::empty());
                        assert(before + drained_lines(rest@) =~= before);
                    }
                    break ;
                },
            }
        }
        DrainPass { lines, given_up: abandoned }
    }
}

/// A line feed among characters shows as a line feed among the bytes that
/// encode them.
pub proof fn lemma_line_feed_is_encoded(chars: Seq<char>, j: int)
    requires
        0 <= j < chars.len(),
        chars[j] == '\n',
    ensures
        encode_utf8(chars).contains(LINE_FEED),
    decreases j,
{
    let head = vstd::utf8::encode_scalar(chars[0] as u32);
    let tail = encode_utf8(chars.drop_first());
    assert(encode_utf8(chars) == head + tail);
    if j == 0 {
        assert(chars[0] as u32 == 10u32);
        assert((10u32 & 0x7F) as u8 == 10u8) by (bit_vector);
        assert(head[0] == LINE_FEED);
        assert((head + tail)[0] == LINE_FEED);
    } else {
        lemma_line_feed_is_encoded(chars.drop_first(), j - 1);
        let i = choose|i: int| 0 <= i < tail.len() && tail[i] == LINE_FEED;
        assert((head + tail)[head.len() + i] == LINE_FEED);
    }
}

/// Bytes without a line feed decode to characters without one.
pub proof fn lemma_decoded_has_no_line_feed(bytes: Seq<u8>)
    requires
        valid_utf8(bytes),
        !bytes.contains(LINE_FEED),
    ensures
        !decode_utf8(bytes).contains('\n'),
{
    let chars = decode_utf8(bytes);
    decode_utf8_encode_utf8(bytes);
    if chars.contains('\n') {
        let j = choose|j: int| 0 <= j < chars.len() && chars[j] == '\n';
        lemma_line_feed_is_encoded(chars, j);
    }
}

/// No attempt yields a line with a line feed in it, nor one that ends in
/// white space.
pub proof fn lemma_line_has_no_line_feed(unread: Seq<u8>)
    ensures
        reading(unread) matches Reading::Line { text, .. } ==> {
            &&& !text.contains('\n')
            &&& text.len() > 0 ==> !is_white_space(text.last())
        },
{
    if let Reading::Line { text, .. } = reading(unread) {
        lemma_line_length(unread);
        let n = line_length(unread);
        let raw = unread.take(n);
        if raw.contains(LINE_FEED) {
            let i = choose|i: int| 0 <= i < raw.len() && raw[i] == LINE_FEED;
            assert(unread[i] == LINE_FEED);
        }
        lemma_decoded_has_no_line_feed(raw);
        lemma_trimmed_end(decode_utf8(raw));
        if text.contains('\n') {
            let i = choose|i: int| 0 <= i < text.len() && text[i] == '\n';
            assert(decode_utf8(raw)[i] == '\n');
        }
    }
}

} // verus!
