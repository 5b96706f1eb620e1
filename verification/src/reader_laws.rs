//! What holds of every file and every way of writing it.
//!
//! The laws speak of the unread bytes of a file at successive moments. The
//! file only grows: what a later attempt sees is what an earlier one saw,
//! from the cursor on, followed by what has been written since.

use crate::log_file_reader::drained_len;
use crate::log_file_reader::drained_lines;
use crate::log_file_reader::given_up;
use crate::log_file_reader::lemma_line_has_no_line_feed;
use crate::log_file_reader::lemma_line_length;
use crate::log_file_reader::lemma_line_length_is;
use crate::log_file_reader::lemma_reading_consumes;
use crate::log_file_reader::line_length;
use crate::log_file_reader::reading;
use crate::log_file_reader::Reading;
use crate::log_file_reader::LINE_FEED;
use crate::text::trimmed_end;
use vstd::prelude::*;
use vstd::utf8::decode_utf8;
use vstd::utf8::valid_utf8;

verus! {

/// A line is made of the bytes that its attempt takes and of no others:
/// it is the text of those bytes without the line feed, trimmed, and the
/// attempt finds the same in those bytes alone. It holds no line feed.
pub proof fn law_line_is_made_of_what_it_takes(unread: Seq<u8>)
    ensures
        reading(unread) matches Reading::Line { text, consumed } ==> {
            &&& 1 <= consumed <= unread.len()
            &&& unread[consumed - 1] == LINE_FEED
            &&& text == trimmed_end(decode_utf8(unread.take(consumed - 1)))
            &&& reading(unread.take(consumed as int)) == reading(unread)
            &&& !text.contains('\n')
        },
{
    if let Reading::Line { text, consumed } = reading(unread) {
        lemma_line_length(unread);
        lemma_line_has_no_line_feed(unread);
        let n = line_length(unread);
        let taken = unread.take(consumed as int);
        lemma_line_length_is(taken, n);
        assert(taken.take(n) =~= unread.take(n));
    }
}

/// No byte range is read twice. Of two successive attempts on a growing
/// file, the second begins where the first ended: where both yield a line,
/// the two lines are made of two ranges of the file that follow one another
/// and share no byte.
pub proof fn law_successive_lines_share_no_byte(earlier: Seq<u8>, later: Seq<u8>, cursor: int)
    requires
        0 <= cursor <= earlier.len(),
        earlier.is_prefix_of(later),
    ensures
        ({
            let first = reading(earlier.skip(cursor));
            let middle = cursor + first.consumed();
            let second = reading(later.skip(middle));
            let end = middle + second.consumed();
            &&& cursor <= middle <= earlier.len()
            &&& middle <= end <= later.len()
            &&& first matches Reading::Line { text, .. } ==> cursor < middle && text == trimmed_end(
                decode_utf8(later.subrange(cursor, middle - 1)),
            )
            &&& second matches Reading::Line { text, .. } ==> middle < end && text == trimmed_end(
                decode_utf8(later.subrange(middle, end - 1)),
            )
        }),
{
    let first = reading(earlier.skip(cursor));
    let middle = cursor + first.consumed();
    lemma_reading_consumes(earlier.skip(cursor));
    law_line_is_made_of_what_it_takes(earlier.skip(cursor));
    lemma_reading_consumes(later.skip(middle));
    law_line_is_made_of_what_it_takes(later.skip(middle));
    let second = reading(later.skip(middle));
    let end = middle + second.consumed();
    if first is Line {
        assert(earlier.skip(cursor).take(middle - 1 - cursor) =~= later.subrange(
            cursor,
            middle - 1,
        ));
    }
    if second is Line {
        assert(later.skip(middle).take(end - 1 - middle) =~= later.subrange(middle, end - 1));
    }
}

/// A complete line stays what it is, whatever is written after it.
pub proof fn law_complete_line_is_stable(unread: Seq<u8>, more: Seq<u8>)
    requires
        reading(unread) is Line,
    ensures
        reading(unread + more) == reading(unread),
{
    lemma_line_length(unread);
    let n = line_length(unread);
    lemma_line_length_is(unread + more, n);
    assert((unread + more).take(n) =~= unread.take(n));
}

/// A line that is written in two parts is delivered once, whole, and only
/// when it is complete.
///
/// `partial` is the part written first, `rest` what completes it, short of
/// the line feed. A drain pass over the part yields nothing and leaves the
/// cursor where it is. The next pass therefore sees the whole line, yields
/// it trimmed and takes all of it; a pass after that finds nothing left.
/// The part has to be text in itself: bytes that stop in the middle of a
/// character are given up by the first pass.
pub proof fn law_partial_line_is_delivered_once(partial: Seq<u8>, rest: Seq<u8>)
    requires
        !partial.contains(LINE_FEED),
        !rest.contains(LINE_FEED),
        valid_utf8(partial),
        valid_utf8(partial + rest),
    ensures
        reading(partial).line() is None,
        drained_lines(partial) == Seq::<Seq<char>>::empty(),
        drained_len(partial) == 0,
        reading(partial + rest + seq![LINE_FEED]).line() == Some(
            trimmed_end(decode_utf8(partial + rest)),
        ),
        drained_lines(partial + rest + seq![LINE_FEED]) == seq![
            trimmed_end(decode_utf8(partial + rest)),
        ],
        drained_len(partial + rest + seq![LINE_FEED]) == partial.len() + rest.len() + 1,
        drained_lines(Seq::<u8>::empty()) == Seq::<Seq<char>>::empty(),
        given_up(partial) == 0,
        given_up(partial + rest + seq![LINE_FEED]) == 0,
{
    let whole = partial + rest + seq![LINE_FEED];
    let body = partial + rest;
    let n = body.len() as int;
    assert forall|i: int| 0 <= i < partial.len() implies #[trigger] partial[i] != LINE_FEED by {
        if partial[i] == LINE_FEED {
            assert(partial.contains(LINE_FEED));
        }
    }
    lemma_line_length_is(partial, partial.len() as int);
    assert(partial.take(partial.len() as int) =~= partial);
    assert forall|i: int| 0 <= i < n implies #[trigger] whole[i] != LINE_FEED by {
        if i < partial.len() {
            assert(partial[i] == whole[i]);
        } else {
            assert(rest[i - partial.len()] == whole[i]);
            if rest[i - partial.len()] == LINE_FEED {
                assert(rest.contains(LINE_FEED));
            }
        }
    }
    assert(whole[n] == LINE_FEED);
    lemma_line_length_is(whole, n);
    assert(whole.take(n) =~= body);
    assert(whole.skip(n + 1) =~= Seq::<u8>::empty());
    let nothing = Seq::<u8>::empty();
    assert(reading(nothing) == Reading::NoData);
    assert(drained_lines(nothing) =~= Seq::<Seq<char>>::empty());
    assert(drained_len(nothing) == 0);
    let text = trimmed_end(decode_utf8(body));
    assert(reading(whole) == Reading::Line { text, consumed: (n + 1) as nat });
    assert(drained_lines(whole) == seq![text] + drained_lines(whole.skip(n + 1)));
    assert(drained_len(whole) == (n + 1) + drained_len(whole.skip(n + 1)));
    assert(given_up(nothing) == 0);
    assert(given_up(whole) == given_up(whole.skip(n + 1)));
    assert(drained_lines(whole) =~= seq![text]);
}

/// A drain pass takes no more bytes than there are.
pub proof fn lemma_drained_len_is_within(unread: Seq<u8>)
    ensures
        drained_len(unread) <= unread.len(),
    decreases unread.len(),
{
    lemma_reading_consumes(unread);
    if let Reading::Line { consumed, .. } = reading(unread) {
        lemma_drained_len_is_within(unread.skip(consumed as int));
    }
}

/// Two drain passes in a row yield what one pass over everything yields:
/// every complete line once, in file order.
///
/// The first pass sees `unread`. Then `more` is written, and the second pass
/// sees what the first left, followed by `more`. This holds of every first
/// pass that gives up no bytes: one that stops for want of a complete line.
pub proof fn law_passes_compose(unread: Seq<u8>, more: Seq<u8>)
    requires
        given_up(unread) == 0,
    ensures
        drained_len(unread) <= unread.len(),
        drained_lines(unread + more) == drained_lines(unread) + drained_lines(
            unread.skip(drained_len(unread) as int) + more,
        ),
        drained_len(unread + more) == drained_len(unread) + drained_len(
            unread.skip(drained_len(unread) as int) + more,
        ),
        given_up(unread + more) == given_up(unread.skip(drained_len(unread) as int) + more),
    decreases unread.len(),
{
    lemma_drained_len_is_within(unread);
    lemma_reading_consumes(unread);
    match reading(unread) {
        Reading::Line { text, consumed } => {
            let left = unread.skip(consumed as int);
            law_complete_line_is_stable(unread, more);
            law_passes_compose(left, more);
            lemma_drained_len_is_within(left);
            assert((unread + more).skip(consumed as int) =~= left + more);
            assert(left.skip(drained_len(left) as int) =~= unread.skip(
                drained_len(unread) as int,
            ));
            assert(drained_lines(unread + more) =~= drained_lines(unread) + drained_lines(
                unread.skip(drained_len(unread) as int) + more,
            ));
        },
        _ => {
            assert(unread.skip(0) =~= unread);
            assert(drained_lines(unread) + drained_lines(unread + more) =~= drained_lines(
                unread + more,
            ));
        },
    }
}

/// No line of a drain pass holds a line feed.
pub proof fn law_drained_lines_hold_no_line_feed(unread: Seq<u8>, i: int)
    requires
        0 <= i < drained_lines(unread).len(),
    ensures
        !drained_lines(unread)[i].contains('\n'),
    decreases unread.len(),
{
    lemma_reading_consumes(unread);
    lemma_line_has_no_line_feed(unread);
    if let Reading::Line { text, consumed } = reading(unread) {
        if i > 0 {
            law_drained_lines_hold_no_line_feed(unread.skip(consumed as int), i - 1);
        }
    }
}

} // verus!
