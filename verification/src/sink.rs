//! The verified model of one open file sink: the rotation byte counter and,
//! as ghost state, the sequence of lines committed to the current file.
//!
//! The sink's owner holds the file handle and this state behind one lock:
//! it writes a line, then calls [`SinkState::record_write`] before releasing
//! the lock, and — when that call says rotation is due — reopens the file and
//! calls [`SinkState::rotate`] under a fresh acquisition of the same lock.

use vstd::prelude::*;

use crate::config::SplitLogFiles;

verus! {

/// The byte counter the rotation policy watches, plus the (ghost) lines of
/// the current file.
pub struct SinkState {
    pub bytes_written: u64,
    pub lines: Ghost<Seq<Seq<char>>>,
}

/// The counter after committing `len` more bytes: counting only happens when
/// rotation is enabled, and sticks at the top of `u64` instead of wrapping.
pub open spec fn spec_next_bytes(bytes: u64, len: u64, policy: SplitLogFiles) -> u64 {
    match policy {
        SplitLogFiles::True(_) => if bytes + len <= u64::MAX {
            (bytes + len) as u64
        } else {
            u64::MAX
        },
        SplitLogFiles::False => bytes,
    }
}

/// Whether a counter value asks for rotation under a policy.
pub open spec fn spec_rotation_due(bytes: u64, policy: SplitLogFiles) -> bool {
    policy matches SplitLogFiles::True(max) && bytes >= max
}

impl SinkState {
    /// A freshly opened sink: no bytes counted, no lines committed.
    pub fn new() -> (r: Self)
        ensures
            r.bytes_written == 0,
            r.lines@ == Seq::<Seq<char>>::empty(),
    {
        SinkState { bytes_written: 0, lines: Ghost(Seq::empty()) }
    }

    /// Commits one written line: it joins the current file's lines, its byte
    /// length is counted when rotation is enabled, and the result says
    /// whether the size threshold has now been reached.
    pub fn record_write(&mut self, line: &str, policy: &SplitLogFiles) -> (rotate: bool)
        ensures
            final(self).lines@ == old(self).lines@.push(line@),
            final(self).bytes_written == spec_next_bytes(old(self).bytes_written, line.len() as u64, *policy),
            rotate == spec_rotation_due(final(self).bytes_written, *policy),
    {
        self.lines = Ghost(self.lines@.push(line@));
        match policy {
            SplitLogFiles::True(max) => {
                let len: u64 = line.len() as u64;
                if self.bytes_written <= u64::MAX - len {
                    self.bytes_written = self.bytes_written + len;
                } else {
                    self.bytes_written = u64::MAX;
                }
                self.bytes_written >= *max
            },
            SplitLogFiles::False => false,
        }
    }

    /// Begins a fresh sink after rotation: the counter restarts at zero and
    /// the new file holds no lines yet.
    pub fn rotate(&mut self)
        ensures
            final(self).bytes_written == 0,
            final(self).lines@ == Seq::<Seq<char>>::empty(),
    {
        self.bytes_written = 0;
        self.lines = Ghost(Seq::empty());
    }
}

/// Order preservation: two records committed in sequence by one caller stand
/// in the file in that order, after everything already there, and disturb
/// nothing that was committed before them.
pub proof fn lemma_sequential_writes_keep_order(
    s0: SinkState,
    s1: SinkState,
    s2: SinkState,
    l1: Seq<char>,
    l2: Seq<char>,
)
    requires
        s1.lines@ == s0.lines@.push(l1),
        s2.lines@ == s1.lines@.push(l2),
    ensures
        s2.lines@ =~= s0.lines@ + seq![l1, l2],
        s2.lines@[s0.lines@.len() as int] == l1,
        s2.lines@[s0.lines@.len() as int + 1] == l2,
        forall|i: int| 0 <= i < s0.lines@.len() ==> s2.lines@[i] == s0.lines@[i],
{
}

/// Rotation boundary: under an enabled policy with threshold `max`, the write
/// whose bytes take the counter to `max` or beyond — and no earlier write —
/// reports rotation due; the crossing record is already committed to the old
/// file when it does, so none is lost when the owner then rotates (and
/// `rotate` restarts the counter at zero for the next write's file).
pub proof fn lemma_rotation_boundary(
    s0: SinkState,
    s1: SinkState,
    line: Seq<char>,
    len: u64,
    max: u64,
    rotate: bool,
)
    requires
        s1.lines@ == s0.lines@.push(line),
        s1.bytes_written == spec_next_bytes(s0.bytes_written, len, SplitLogFiles::True(max)),
        rotate == spec_rotation_due(s1.bytes_written, SplitLogFiles::True(max)),
    ensures
        rotate <==> s0.bytes_written + len >= max,
        s1.lines@[s1.lines@.len() - 1] == line,
{
}

} // verus!
