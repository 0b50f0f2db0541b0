//! The pair of buffers that holds the latest report and the one before it.

use crate::registry::{
    lemma_clear_touches_one_button, lemma_raise_touches_one_button, lemma_registry_distinct_bits,
    registry, single_bit, Button, KeyInfo, BUTTONS_OFFSET, DPAD_OFFSET, REPORT_LEN,
};
use vstd::prelude::*;

verus! {

/// What a buffer holds once `data` has been written over its beginning:
/// `data` as far as it reaches into a report, then what was in `stale`.
pub open spec fn overlay(stale: Seq<u8>, data: Seq<u8>) -> Seq<u8> {
    Seq::new(
        REPORT_LEN as nat,
        |i: int|
            if i < data.len() {
                data[i]
            } else {
                stale[i]
            },
    )
}

/// The bytes that a read has delivered, if it has delivered any.
pub open spec fn delivered(report: Option<&[u8]>) -> Option<Seq<u8>> {
    match report {
        Some(bytes) => Some(bytes@),
        None => None,
    }
}

/// Between `before` and `after`, in the two bytes that hold button bits,
/// the one bit of `info` has gone up and no other bit has changed.
pub open spec fn raised_one_bit(before: Seq<u8>, after: Seq<u8>, info: KeyInfo) -> bool {
    let at = info.index as int;
    let beside = BUTTONS_OFFSET + DPAD_OFFSET - at;
    &&& single_bit(info.mask)
    &&& after[at] & info.mask == info.mask
    &&& after[at] & !info.mask == before[at] & !info.mask
    &&& after[beside] == before[beside]
}

/// The two reports that a buffer pair holds.
pub struct Reports {
    /// The most recent report.
    pub current: Seq<u8>,
    /// The report before the most recent one.
    pub previous: Seq<u8>,
}

impl Reports {
    /// Both reports have the length of a report.
    pub open spec fn wf(self) -> bool {
        self.current.len() == REPORT_LEN && self.previous.len() == REPORT_LEN
    }

    /// Two reports in which no bit is up.
    pub open spec fn blank() -> Reports {
        Reports {
            current: Seq::new(REPORT_LEN as nat, |i: int| 0u8),
            previous: Seq::new(REPORT_LEN as nat, |i: int| 0u8),
        }
    }

    /// The button is down in the current report.
    pub open spec fn pushed(self, button: Button) -> bool {
        registry(button).held_in(self.current)
    }

    /// The button is down in the current report and was up in the previous
    /// one.
    pub open spec fn pressed(self, button: Button) -> bool {
        !registry(button).held_in(self.previous) && registry(button).held_in(self.current)
    }

    /// The pair with its two reports in each other's place.
    pub open spec fn flipped(self) -> Reports {
        Reports { current: self.previous, previous: self.current }
    }

    /// The pair after one read. The current report becomes the previous one.
    /// The bytes that arrived are written over the report that was the
    /// previous one, and the result is the current report; where the read
    /// failed, nothing is written over it.
    pub open spec fn after_read(self, report: Option<Seq<u8>>) -> Reports {
        Reports {
            current: match report {
                Some(data) => overlay(self.previous, data),
                None => self.previous,
            },
            previous: self.current,
        }
    }

    /// The pair after one read for each of `samples`, in their order.
    pub open spec fn after_reads(self, samples: Seq<Seq<u8>>) -> Reports
        decreases samples.len(),
    {
        if samples.len() == 0 {
            self
        } else {
            self.after_reads(samples.drop_last()).after_read(Some(samples.last()))
        }
    }

    /// The report that was the previous one, with the two bytes that hold
    /// button bits taken from the current one.
    pub open spec fn carried(self) -> Seq<u8> {
        self.previous.update(BUTTONS_OFFSET as int, self.current[BUTTONS_OFFSET as int]).update(
            DPAD_OFFSET as int,
            self.current[DPAD_OFFSET as int],
        )
    }

    /// The pair after the bits of `info` were raised by an emulated key: the
    /// current report becomes the previous one, and the new current report
    /// repeats its button bytes, with the bits of `info` up.
    pub open spec fn after_set(self, info: KeyInfo) -> Reports {
        Reports { current: info.raised_in(self.carried()), previous: self.current }
    }

    /// The pair after the bits of `info` were cleared by an emulated key: as
    /// `after_set`, with the bits of `info` down.
    pub open spec fn after_unset(self, info: KeyInfo) -> Reports {
        Reports { current: info.cleared_in(self.carried()), previous: self.current }
    }
}

/// Writes `data` over the beginning of `buf`, as far as it reaches.
fn write_over(buf: &mut [u8; REPORT_LEN], data: &[u8])
    ensures
        final(buf)@ == overlay(old(buf)@, data@),
{
    let count: usize = if data.len() < REPORT_LEN {
        data.len()
    } else {
        REPORT_LEN
    };
    for i in 0..count
        invariant
            count <= REPORT_LEN,
            count <= data@.len(),
            count == data@.len() || count == REPORT_LEN,
            buf@.len() == REPORT_LEN,
            forall|j: int| 0 <= j < i ==> buf@[j] == data@[j],
            forall|j: int| i <= j < REPORT_LEN ==> buf@[j] == old(buf)@[j],
    {
        buf[i] = data[i];
    }
    assert(buf@ =~= overlay(old(buf)@, data@));
}

/// Two report buffers and the marker that tells which of them is current.
pub struct ReportPair {
    buf1: [u8; REPORT_LEN],
    buf2: [u8; REPORT_LEN],
    buf_flipped: bool,
}

impl View for ReportPair {
    type V = Reports;

    closed spec fn view(&self) -> Reports {
        if self.buf_flipped {
            Reports { current: self.buf1@, previous: self.buf2@ }
        } else {
            Reports { current: self.buf2@, previous: self.buf1@ }
        }
    }
}

impl ReportPair {
    /// A pair of blank reports.
    pub fn new() -> (pair: ReportPair)
        ensures
            pair@ == Reports::blank(),
    {
        let pair = ReportPair {
            buf1: [0u8; REPORT_LEN],
            buf2: [0u8; REPORT_LEN],
            buf_flipped: false,
        };
        assert(pair@.current =~= Reports::blank().current);
        assert(pair@.previous =~= Reports::blank().previous);
        pair
    }

    /// Both reports of a pair have the length of a report.
    pub proof fn lemma_wf(&self)
        ensures
            self@.wf(),
    {
    }

    /// The buffer with the current report.
    pub fn now_buf(&self) -> (buf: &[u8; REPORT_LEN])
        ensures
            buf@ == self@.current,
    {
        if self.buf_flipped {
            &self.buf1
        } else {
            &self.buf2
        }
    }

    /// The buffer with the previous report.
    pub fn prev_buf(&self) -> (buf: &[u8; REPORT_LEN])
        ensures
            buf@ == self@.previous,
    {
        if self.buf_flipped {
            &self.buf2
        } else {
            &self.buf1
        }
    }

    /// Moves the marker: each buffer takes the other's role.
    pub fn flip(&mut self)
        ensures
            final(self)@ == old(self)@.flipped(),
    {
        self.buf_flipped = !self.buf_flipped;
    }

    /// Takes in the outcome of one read. The marker moves, and the bytes
    /// that arrived are written over the buffer that is now current; a
    /// failed read writes nothing.
    pub fn read(&mut self, report: Option<&[u8]>)
        ensures
            final(self)@ == old(self)@.after_read(delivered(report)),
    {
        self.flip();
        if let Some(data) = report {
            write_over(self.now_buf_mut(), data);
        }
    }

    /// Moves the marker and repeats the two button bytes of the report that
    /// was current in the buffer that is now current.
    pub fn carry_forward(&mut self)
        ensures
            final(self)@ == (Reports {
                current: old(self)@.carried(),
                previous: old(self)@.current,
            }),
    {
        self.flip();
        let buttons: u8 = self.prev_buf()[BUTTONS_OFFSET];
        let dpad: u8 = self.prev_buf()[DPAD_OFFSET];
        let now_buf = self.now_buf_mut();
        now_buf[BUTTONS_OFFSET] = buttons;
        now_buf[DPAD_OFFSET] = dpad;
    }

    /// The buffer with the current report, to be written to.
    pub fn now_buf_mut(&mut self) -> (buf: &mut [u8; REPORT_LEN])
        ensures
            buf@ == old(self)@.current,
            final(self)@ == (Reports { current: final(buf)@, previous: old(self)@.previous }),
    {
        if self.buf_flipped {
            &mut self.buf1
        } else {
            &mut self.buf2
        }
    }
}

/// After any number of reads of whole reports, at least one, the current
/// report is the last sample read and the previous report is the sample read
/// before it; after a single read the previous report is the one that was
/// current before the read.
pub proof fn lemma_reads_alternate(start: Reports, samples: Seq<Seq<u8>>)
    requires
        start.wf(),
        samples.len() >= 1,
        forall|i: int| 0 <= i < samples.len() ==> (#[trigger] samples[i]).len() == REPORT_LEN,
    ensures
        start.after_reads(samples).current == samples.last(),
        samples.len() >= 2 ==> start.after_reads(samples).previous == samples[samples.len() - 2],
        samples.len() == 1 ==> start.after_reads(samples).previous == start.current,
        start.after_reads(samples).wf(),
    decreases samples.len(),
{
    let earlier = samples.drop_last();
    let before = start.after_reads(earlier);
    assert(overlay(before.previous, samples.last()) =~= samples.last());
    if earlier.len() == 0 {
        assert(before == start);
    } else {
        lemma_reads_alternate(start, earlier);
        assert(earlier.last() == samples[samples.len() - 2]);
    }
}

/// Where the two reports are equal, a failed read changes nothing.
pub proof fn lemma_failed_read_in_steady_state(start: Reports)
    requires
        start.current == start.previous,
    ensures
        start.after_read(None) == start,
{
}

/// Whether a button reads as held depends on the current report alone.
pub proof fn lemma_pushed_ignores_previous(a: Reports, b: Reports, button: Button)
    requires
        a.current == b.current,
    ensures
        a.pushed(button) == b.pushed(button),
{
}

/// A button that stays down over two reads of whole reports reads as pressed
/// after the first read only if it was up before, and never after the second.
pub proof fn lemma_hold_fires_once(start: Reports, first: Seq<u8>, second: Seq<u8>, button: Button)
    requires
        start.wf(),
        first.len() == REPORT_LEN,
        second.len() == REPORT_LEN,
        registry(button).held_in(first),
        registry(button).held_in(second),
    ensures
        start.after_read(Some(first)).pressed(button) == !start.pushed(button),
        !start.after_read(Some(first)).after_read(Some(second)).pressed(button),
{
    assert(overlay(start.previous, first) =~= first);
    assert(overlay(start.current, second) =~= second);
}

/// An emulated key press raises the bit of its button and no other: the
/// button reads as held, every other button reads as it did before, and the
/// report that was current is now the previous one.
pub proof fn lemma_set_touches_one_button(start: Reports, target: Button, other: Button)
    requires
        start.wf(),
    ensures
        start.after_set(registry(target)).pushed(target),
        other != target ==> start.after_set(registry(target)).pushed(other) == start.pushed(other),
        start.after_set(registry(target)).previous == start.current,
        start.after_set(registry(target)).pressed(target) == !start.pushed(target),
{
    lemma_registry_distinct_bits(target, other);
    lemma_raise_touches_one_button(start.carried(), target, other);
}

/// An emulated key release clears the bit of its button and no other.
pub proof fn lemma_unset_touches_one_button(start: Reports, target: Button, other: Button)
    requires
        start.wf(),
    ensures
        !start.after_unset(registry(target)).pushed(target),
        other != target ==> start.after_unset(registry(target)).pushed(other) == start.pushed(
            other,
        ),
        start.after_unset(registry(target)).previous == start.current,
{
    lemma_registry_distinct_bits(target, other);
    lemma_clear_touches_one_button(start.carried(), target, other);
}

/// In the byte that holds the bit of the key's button, an emulated key press
/// changes that one bit and keeps the others as the report that was current
/// had them; the other button byte is repeated unchanged.
pub proof fn lemma_set_changes_one_bit(start: Reports, target: Button)
    requires
        start.wf(),
    ensures
        raised_one_bit(start.current, start.after_set(registry(target)).current, registry(target)),
{
    lemma_registry_distinct_bits(target, target);
    let m: u8 = registry(target).mask;
    let byte: u8 = start.current[registry(target).index as int];
    assert((byte | m) & m == m) by (bit_vector);
    assert((byte | m) & !m == byte & !m) by (bit_vector);
}

} // verus!
