//! From the whole output of a listing to its records.
//!
//! The output is cut into lines, blank lines are passed over, and every other
//! line must decode: the first one that does not fails the whole listing.

use crate::decode::DecodeError;
use crate::record::{decode_line, line_record, Record};
use crate::types::views;
use vstd::prelude::*;
use vstd::slice::{slice_subrange, slice_to_vec};

verus! {

/// The line feed, which ends a line.
pub const LINE_FEED: u8 = 0x0a;

/// The carriage return, which is dropped where it stands before a line feed.
pub const CARRIAGE_RETURN: u8 = 0x0d;

/// The number of bytes before the first line feed of `bytes`, or the length of
/// `bytes` where it holds none.
pub open spec fn line_end(bytes: Seq<u8>) -> int
    decreases bytes.len(),
{
    if bytes.len() == 0 || bytes[0] == LINE_FEED {
        0
    } else {
        1 + line_end(bytes.drop_first())
    }
}

/// `line` without the carriage return at its end, if it has one.
pub open spec fn without_return(line: Seq<u8>) -> Seq<u8> {
    if line.len() > 0 && line.last() == CARRIAGE_RETURN {
        line.drop_last()
    } else {
        line
    }
}

/// The lines of `bytes`. A line ends at a line feed, which is not part of it,
/// nor is a carriage return just before that line feed. What follows the last
/// line feed is a line too, unless it is empty.
pub open spec fn lines_of(bytes: Seq<u8>) -> Seq<Seq<u8>>
    decreases bytes.len(),
{
    let end = line_end(bytes);
    if bytes.len() == 0 {
        Seq::empty()
    } else if 0 <= end < bytes.len() {
        seq![without_return(bytes.take(end))] + lines_of(bytes.skip(end + 1))
    } else {
        seq![bytes]
    }
}

/// `line_end` is the one position that no line feed precedes and that holds a
/// line feed or is the end.
pub proof fn lemma_line_end(bytes: Seq<u8>, k: int)
    requires
        0 <= k <= bytes.len(),
        forall|j: int| 0 <= j < k ==> bytes[j] != LINE_FEED,
        k < bytes.len() ==> bytes[k] == LINE_FEED,
    ensures
        line_end(bytes) == k,
    decreases k,
{
    if k > 0 {
        let rest = bytes.drop_first();
        assert forall|j: int| 0 <= j < k - 1 implies rest[j] != LINE_FEED by {
            assert(rest[j] == bytes[j + 1]);
        }
        lemma_line_end(rest, k - 1);
    }
}

/// Cuts `bytes` into its lines.
pub fn split_lines(bytes: &[u8]) -> (lines: Vec<&[u8]>)
    ensures
        views(lines@) == lines_of(bytes@),
{
    let n: usize = bytes.len();
    let mut lines: Vec<&[u8]> = Vec::new();
    let mut pos: usize = 0;
    assert(bytes@.skip(0) =~= bytes@);
    while pos < n
        invariant
            pos <= n,
            n == bytes@.len(),
            lines_of(bytes@) == views(lines@) + lines_of(bytes@.skip(pos as int)),
        decreases n - pos,
    {
        let ghost rest = bytes@.skip(pos as int);
        let mut end: usize = pos;
        while end < n && bytes[end] != LINE_FEED
            invariant
                pos <= end <= n,
                n == bytes@.len(),
                forall|j: int| pos <= j < end ==> bytes@[j] != LINE_FEED,
            decreases n - end,
        {
            end += 1;
        }
        proof {
            assert forall|j: int| 0 <= j < end - pos implies rest[j] != LINE_FEED by {
                assert(rest[j] == bytes@[pos + j]);
            }
            lemma_line_end(rest, end - pos);
        }
        if end == n {
            let line = slice_subrange(bytes, pos, n);
            lines.push(line);
            assert(line@ =~= rest);
            pos = n;
        } else {
            let mut stop: usize = end;
            if stop > pos && bytes[stop - 1] == CARRIAGE_RETURN {
                stop -= 1;
            }
            let line = slice_subrange(bytes, pos, stop);
            lines.push(line);
            proof {
                let whole = rest.take(end - pos);
                assert(line@ =~= without_return(whole));
                assert(rest.skip(end - pos + 1) =~= bytes@.skip(end + 1));
            }
            pos = end + 1;
        }
    }
    lines
}

/// A line that did not decode, and why.
#[derive(Debug, Clone, PartialEq, Eq)]
pub struct BadLine {
    /// The line as it was read.
    pub line: Vec<u8>,
    pub reason: DecodeError,
}

impl View for BadLine {
    type V = (Seq<u8>, DecodeError);

    open spec fn view(&self) -> (Seq<u8>, DecodeError) {
        (self.line@, self.reason)
    }
}

/// Whether a line holds anything.
pub open spec fn is_nonempty(line: Seq<u8>) -> bool {
    line.len() > 0
}

/// The lines that are decoded: all but the empty ones.
pub open spec fn nonempty_lines(lines: Seq<Seq<u8>>) -> Seq<Seq<u8>> {
    lines.filter(|line: Seq<u8>| is_nonempty(line))
}

/// What a list of lines decodes to: the record of each line that is not
/// empty, in order; or, where one of them does not decode, the first such
/// line with its error, and no record at all.
pub open spec fn records_of<R: Record>(lines: Seq<Seq<u8>>) -> Result<
    Seq<R::V>,
    (Seq<u8>, DecodeError),
>
    decreases lines.len(),
{
    if lines.len() == 0 {
        Ok(Seq::empty())
    } else {
        match records_of::<R>(lines.drop_last()) {
            Err(fault) => Err(fault),
            Ok(records) => if !is_nonempty(lines.last()) {
                Ok(records)
            } else {
                match line_record::<R>(lines.last()) {
                    Err(e) => Err((lines.last(), e)),
                    Ok(record) => Ok(records.push(record)),
                }
            },
        }
    }
}

/// What the output of a listing decodes to.
pub open spec fn listing_of<R: Record>(output: Seq<u8>) -> Result<
    Seq<R::V>,
    (Seq<u8>, DecodeError),
> {
    records_of::<R>(lines_of(output))
}

/// Whether `k` is the first line of `lines` that is not empty and does not
/// decode.
pub open spec fn first_fault<R: Record>(lines: Seq<Seq<u8>>, k: int) -> bool {
    &&& 0 <= k < lines.len()
    &&& is_nonempty(lines[k])
    &&& line_record::<R>(lines[k]) is Err
    &&& forall|i: int|
        0 <= i < k && is_nonempty(#[trigger] lines[i]) ==> line_record::<R>(lines[i]) is Ok
}

/// What `records_of` amounts to. A success holds one record for each line
/// that is not empty, each the record of its line, in the order of the lines.
/// A failure names the first line that does not decode, with that line's error.
pub proof fn lemma_records_of<R: Record>(lines: Seq<Seq<u8>>)
    ensures
        match records_of::<R>(lines) {
            Ok(records) => {
                &&& records.len() == nonempty_lines(lines).len()
                &&& forall|k: int|
                    0 <= k < records.len() ==> line_record::<R>(
                        #[trigger] nonempty_lines(lines)[k],
                    ) == Ok::<R::V, DecodeError>(records[k])
                &&& forall|i: int|
                    0 <= i < lines.len() && is_nonempty(#[trigger] lines[i]) ==> line_record::<R>(
                        lines[i],
                    ) is Ok
            },
            Err(fault) => exists|k: int|
                #[trigger] first_fault::<R>(lines, k) && fault == (
                    lines[k],
                    line_record::<R>(lines[k])->Err_0,
                ),
        },
    decreases lines.len(),
{
    reveal(Seq::filter);
    if lines.len() > 0 {
        let front = lines.drop_last();
        let last = lines.last();
        lemma_records_of::<R>(front);
        match records_of::<R>(front) {
            Err(fault) => {
                let k = choose|k: int|
                    #[trigger] first_fault::<R>(front, k) && fault == (
                        front[k],
                        line_record::<R>(front[k])->Err_0,
                    );
                assert forall|i: int| 0 <= i < k && is_nonempty(#[trigger] lines[i]) implies line_record::<
                    R,
                >(lines[i]) is Ok by {
                    assert(lines[i] == front[i]);
                }
                assert(first_fault::<R>(lines, k));
            },
            Ok(records) => {
                assert forall|i: int|
                    0 <= i < front.len() && is_nonempty(#[trigger] lines[i]) implies line_record::<
                    R,
                >(lines[i]) is Ok by {
                    assert(lines[i] == front[i]);
                }
                if is_nonempty(last) && line_record::<R>(last) is Err {
                    assert(first_fault::<R>(lines, lines.len() - 1));
                }
            },
        }
    }
}

/// A listing in which every line that is not empty decodes gives exactly one
/// record for each such line: as many records as there are such lines, each the
/// record of its line, in the order of the lines.
pub proof fn lemma_listing_total<R: Record>(lines: Seq<Seq<u8>>)
    requires
        forall|i: int|
            0 <= i < lines.len() && is_nonempty(#[trigger] lines[i]) ==> line_record::<R>(
                lines[i],
            ) is Ok,
    ensures
        records_of::<R>(lines) is Ok,
        records_of::<R>(lines)->Ok_0.len() == nonempty_lines(lines).len(),
        forall|k: int|
            0 <= k < nonempty_lines(lines).len() ==> line_record::<R>(
                #[trigger] nonempty_lines(lines)[k],
            ) == Ok::<R::V, DecodeError>(records_of::<R>(lines)->Ok_0[k]),
{
    lemma_records_of::<R>(lines);
}

/// A listing with a line that does not decode fails as a whole, with the
/// first such line and that line's error.
pub proof fn lemma_listing_fails_at<R: Record>(lines: Seq<Seq<u8>>, k: int)
    requires
        first_fault::<R>(lines, k),
    ensures
        records_of::<R>(lines) == Err::<Seq<R::V>, (Seq<u8>, DecodeError)>(
            (lines[k], line_record::<R>(lines[k])->Err_0),
        ),
{
    lemma_records_of::<R>(lines);
}

/// A failure among the first lines is the failure of the whole.
proof fn lemma_fault_stays<R: Record>(lines: Seq<Seq<u8>>, j: int)
    requires
        0 <= j <= lines.len(),
        records_of::<R>(lines.take(j)) is Err,
    ensures
        records_of::<R>(lines) == records_of::<R>(lines.take(j)),
    decreases lines.len() - j,
{
    if j == lines.len() {
        assert(lines.take(j) =~= lines);
    } else {
        assert(lines.take(j + 1).drop_last() =~= lines.take(j));
        lemma_fault_stays::<R>(lines, j + 1);
    }
}

/// Decodes the lines of a listing.
pub fn decode_lines<R: Record>(lines: &Vec<&[u8]>) -> (r: Result<Vec<R>, BadLine>)
    ensures
        match r {
            Ok(records) => records_of::<R>(views(lines@)) == Ok::<
                Seq<R::V>,
                (Seq<u8>, DecodeError),
            >(views(records@)),
            Err(bad) => records_of::<R>(views(lines@)) == Err::<
                Seq<R::V>,
                (Seq<u8>, DecodeError),
            >(bad@),
        },
{
    let ghost all = views(lines@);
    let n: usize = lines.len();
    let mut records: Vec<R> = Vec::new();
    let mut i: usize = 0;
    assert(views(records@) =~= Seq::<R::V>::empty());
    while i < n
        invariant
            i <= n,
            n == lines@.len(),
            all == views(lines@),
            records_of::<R>(all.take(i as int)) == Ok::<Seq<R::V>, (Seq<u8>, DecodeError)>(
                views(records@),
            ),
        decreases n - i,
    {
        let line: &[u8] = lines[i];
        let ghost done = views(records@);
        proof {
            assert(all.take(i + 1).drop_last() =~= all.take(i as int));
        }
        if line.len() > 0 {
            match decode_line::<R>(line) {
                Err(reason) => {
                    let bad = BadLine { line: slice_to_vec(line), reason };
                    proof {
                        lemma_fault_stays::<R>(all, i + 1);
                    }
                    return Err(bad);
                },
                Ok(record) => {
                    records.push(record);
                    assert(views(records@) =~= done.push(record@));
                },
            }
        }
        i += 1;
    }
    assert(all.take(n as int) =~= all);
    Ok(records)
}

/// Decodes the output of a listing.
pub fn decode_listing<R: Record>(output: &[u8]) -> (r: Result<Vec<R>, BadLine>)
    ensures
        match r {
            Ok(records) => listing_of::<R>(output@) == Ok::<Seq<R::V>, (Seq<u8>, DecodeError)>(
                views(records@),
            ),
            Err(bad) => listing_of::<R>(output@) == Err::<Seq<R::V>, (Seq<u8>, DecodeError)>(
                bad@,
            ),
        },
{
    let lines = split_lines(output);
    decode_lines::<R>(&lines)
}

} // verus!
