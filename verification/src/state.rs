//! The changes that wait to be announced, and the grid together with them.

use crate::codec::{
    base64_bytes, base64_text, decode_snapshot, decoded_snapshot, encode_snapshot, LoadError,
};
use crate::fine_grained::Grid2;
use crate::grid::{
    bit_of, blank_image, lemma_toggled_cell, toggled, Grid, CANVAS_WIDTH, MAX_SIZE, TOTAL_BITS,
};
use crate::raster::{picture_of, raster_pixels, raster_width, to_raster, Raster};
use std::collections::HashSet;
use vstd::prelude::*;

verus! {

/// The cells that changed since the last announcement: those that are now on
/// and were off, and those that are now off and were on.
pub struct PointQueue {
    pub on: HashSet<usize>,
    pub off: HashSet<usize>,
}

/// What is pending after one more change of cell `index` to `value` is
/// noted. A change that is already pending stays pending once; a change back
/// cancels the pending one; any other change becomes pending.
pub open spec fn recorded(on: Set<usize>, off: Set<usize>, index: usize, value: bool) -> (
    Set<usize>,
    Set<usize>,
) {
    if value {
        if on.contains(index) {
            (on, off)
        } else if off.contains(index) {
            (on, off.remove(index))
        } else {
            (on.insert(index), off)
        }
    } else {
        if off.contains(index) {
            (on, off)
        } else if on.contains(index) {
            (on.remove(index), off)
        } else {
            (on, off.insert(index))
        }
    }
}

/// Noting a change never makes a cell pending as both on and off.
pub proof fn lemma_record_keeps_disjoint(
    on: Set<usize>,
    off: Set<usize>,
    index: usize,
    value: bool,
)
    requires
        on.disjoint(off),
    ensures
        recorded(on, off, index, value).0.disjoint(recorded(on, off, index, value).1),
{
}

/// A change and the change back cancel: where the cell was not already
/// pending with the first value, nothing more is pending afterwards than
/// before.
pub proof fn lemma_record_cancels(on: Set<usize>, off: Set<usize>, index: usize, value: bool)
    requires
        on.disjoint(off),
        !(if value {
            on
        } else {
            off
        }).contains(index),
    ensures
        ({
            let once = recorded(on, off, index, value);
            recorded(once.0, once.1, index, !value)
        }) == (on, off),
{
    let once = recorded(on, off, index, value);
    let twice = recorded(once.0, once.1, index, !value);
    assert(twice.0 =~= on);
    assert(twice.1 =~= off);
}

/// Noting the same change twice is noting it once, where the cell is not
/// pending with the opposite value: the cell is then pending exactly once.
pub proof fn lemma_record_idempotent(on: Set<usize>, off: Set<usize>, index: usize, value: bool)
    requires
        !(if value {
            off
        } else {
            on
        }).contains(index),
    ensures
        ({
            let once = recorded(on, off, index, value);
            recorded(once.0, once.1, index, value)
        }) == recorded(on, off, index, value),
        (if value {
            recorded(on, off, index, value).0
        } else {
            recorded(on, off, index, value).1
        }).contains(index),
{
}

impl PointQueue {
    /// No cell is pending both as on and as off.
    pub open spec fn wf(&self) -> bool {
        self.on@.disjoint(self.off@)
    }

    /// A queue with nothing pending.
    pub fn new() -> (queue: Self)
        ensures
            queue.on@ == Set::<usize>::empty(),
            queue.off@ == Set::<usize>::empty(),
            queue.wf(),
    {
        Self { on: HashSet::new(), off: HashSet::new() }
    }

    /// Forgets everything that is pending.
    pub fn clear(&mut self)
        ensures
            final(self).on@ == Set::<usize>::empty(),
            final(self).off@ == Set::<usize>::empty(),
    {
        self.on.clear();
        self.off.clear();
    }

    /// Whether nothing is pending.
    pub fn is_empty(&self) -> (empty: bool)
        ensures
            empty == (self.on@.is_empty() && self.off@.is_empty()),
    {
        self.on.is_empty() && self.off.is_empty()
    }

    /// Notes that cell `index` has just changed to `new_value`.
    pub fn record(&mut self, index: usize, new_value: bool)
        ensures
            (final(self).on@, final(self).off@) == recorded(
                old(self).on@,
                old(self).off@,
                index,
                new_value,
            ),
            old(self).wf() ==> final(self).wf(),
    {
        broadcast use vstd::std_specs::hash::group_hash_axioms;

        if new_value {
            if self.on.contains(&index) {
                return ;
            } else if self.off.contains(&index) {
                self.on.remove(&index);
                self.off.remove(&index);
            } else {
                self.on.insert(index);
            }
        } else {
            if self.off.contains(&index) {
                return ;
            } else if self.on.contains(&index) {
                self.on.remove(&index);
                self.off.remove(&index);
            } else {
                self.off.insert(index);
            }
        }
    }

    /// Takes everything that is pending out of the queue and leaves the queue
    /// empty.
    pub fn drain(&mut self) -> (pending: PointQueue)
        ensures
            pending.on@ == old(self).on@,
            pending.off@ == old(self).off@,
            final(self).on@ == Set::<usize>::empty(),
            final(self).off@ == Set::<usize>::empty(),
    {
        let mut pending = PointQueue::new();
        std::mem::swap(&mut self.on, &mut pending.on);
        std::mem::swap(&mut self.off, &mut pending.off);
        pending
    }
}

/// Whether what is pending is exactly the difference between the image as
/// it is `now` and the image as it was `before`: the cells pending as on are
/// those that were off and are on, the cells pending as off are those that
/// were on and are off.
pub open spec fn is_delta(before: Seq<u8>, now: Seq<u8>, on: Set<usize>, off: Set<usize>) -> bool {
    forall|i: usize|
        #![trigger on.contains(i)]
        #![trigger off.contains(i)]
        {
            &&& on.contains(i) <==> i < TOTAL_BITS && !bit_of(before, i as int) && bit_of(
                now,
                i as int,
            )
            &&& off.contains(i) <==> i < TOTAL_BITS && bit_of(before, i as int) && !bit_of(
                now,
                i as int,
            )
        }
}

/// Right after everything pending was taken out, the empty queue is the
/// difference between the image and itself.
pub proof fn lemma_drained_is_delta(now: Seq<u8>)
    ensures
        is_delta(now, now, Set::<usize>::empty(), Set::<usize>::empty()),
{
}

/// Inverting a cell and noting its new value keeps the queue in step with
/// the grid: if the queue held the difference to an earlier image before,
/// it holds the difference to that same image afterwards. However often one
/// cell is inverted, what is pending for it matches the value it ends with.
pub proof fn lemma_toggle_keeps_delta(
    before: Seq<u8>,
    now: Seq<u8>,
    on: Set<usize>,
    off: Set<usize>,
    index: usize,
)
    requires
        before.len() == MAX_SIZE,
        now.len() == MAX_SIZE,
        index < TOTAL_BITS,
        is_delta(before, now, on, off),
    ensures
        ({
            let after = toggled(now, index as int);
            let pending = recorded(on, off, index, bit_of(after, index as int));
            is_delta(before, after, pending.0, pending.1)
        }),
{
    let after = toggled(now, index as int);
    let pending = recorded(on, off, index, bit_of(after, index as int));
    assert forall|i: usize|
        #![trigger pending.0.contains(i)]
        #![trigger pending.1.contains(i)]
        {
            &&& pending.0.contains(i) <==> i < TOTAL_BITS && !bit_of(before, i as int) && bit_of(
                after,
                i as int,
            )
            &&& pending.1.contains(i) <==> i < TOTAL_BITS && bit_of(before, i as int) && !bit_of(
                after,
                i as int,
            )
        } by {
        assert(on.contains(i) <==> i < TOTAL_BITS && !bit_of(before, i as int) && bit_of(
            now,
            i as int,
        ));
        assert(off.contains(i) <==> i < TOTAL_BITS && bit_of(before, i as int) && !bit_of(
            now,
            i as int,
        ));
        if i < TOTAL_BITS {
            lemma_toggled_cell(now, index as int, i as int);
        }
    }
}

/// The grid, the changes waiting to be announced, and the places where
/// snapshots are kept.
pub struct AppState {
    pub dump_path: String,
    pub bitmap_path: String,
    pub grid: Grid2,
    pub queue: PointQueue,
}

impl AppState {
    /// A state with a blank grid and nothing pending.
    pub fn new(dump_path: &str, bitmap_path: &str) -> (state: Self)
        ensures
            state.dump_path@ == dump_path@,
            state.bitmap_path@ == bitmap_path@,
            state.grid.bytes() == blank_image(),
            state.queue.on@ == Set::<usize>::empty(),
            state.queue.off@ == Set::<usize>::empty(),
    {
        AppState {
            dump_path: dump_path.to_owned(),
            bitmap_path: bitmap_path.to_owned(),
            grid: Grid2::new(),
            queue: PointQueue::new(),
        }
    }

    /// Inverts cell `index`, notes the change as pending and returns the
    /// cell's new value. An index past the last cell changes nothing, notes
    /// nothing and returns `false`.
    pub fn toggle(&mut self, index: usize) -> (value: bool)
        ensures
            final(self).grid.bytes() == toggled(old(self).grid.bytes(), index as int),
            value == (index < TOTAL_BITS && bit_of(final(self).grid.bytes(), index as int)),
            (final(self).queue.on@, final(self).queue.off@) == if index < TOTAL_BITS {
                recorded(old(self).queue.on@, old(self).queue.off@, index, value)
            } else {
                (old(self).queue.on@, old(self).queue.off@)
            },
            old(self).queue.wf() ==> final(self).queue.wf(),
            final(self).dump_path == old(self).dump_path,
            final(self).bitmap_path == old(self).bitmap_path,
    {
        if index >= TOTAL_BITS {
            proof {
                self.grid.lemma_bytes_len();
            }
            return false;
        }
        let toggled = self.grid.toggle_item(index);
        self.push_index(index, toggled);
        toggled
    }

    fn push_index(&mut self, index: usize, toggled: bool)
        ensures
            (final(self).queue.on@, final(self).queue.off@) == recorded(
                old(self).queue.on@,
                old(self).queue.off@,
                index,
                toggled,
            ),
            old(self).queue.wf() ==> final(self).queue.wf(),
            final(self).grid == old(self).grid,
            final(self).dump_path == old(self).dump_path,
            final(self).bitmap_path == old(self).bitmap_path,
    {
        self.queue.record(index, toggled);
    }

    /// Replaces the grid by the snapshot that `data` is the transport text
    /// of. Text that is no base64, or that stands for another number of bytes
    /// than a snapshot has, is refused and leaves the grid as it was.
    pub fn load(&mut self, data: &[u8]) -> (outcome: Result<(), LoadError>)
        ensures
            match decoded_snapshot(base64_bytes(data@)) {
                Ok(bytes) => outcome is Ok && final(self).grid.bytes() == bytes,
                Err(error) => outcome == Err::<(), LoadError>(error) && final(self).grid.bytes()
                    == old(self).grid.bytes(),
            },
            final(self).queue == old(self).queue,
            final(self).dump_path == old(self).dump_path,
            final(self).bitmap_path == old(self).bitmap_path,
    {
        match decode_snapshot(data) {
            Ok(snapshot) => {
                self.grid.set_full(snapshot);
                Ok(())
            },
            Err(error) => Err(error),
        }
    }

    /// The transport text of a snapshot of the grid.
    pub fn save(&self) -> (text: String)
        ensures
            text@ == base64_text(self.grid.bytes()),
    {
        let snapshot = self.grid.get_full();
        encode_snapshot(&snapshot)
    }

    /// The picture of a snapshot of the grid.
    pub fn save_png(&self) -> (img: Raster)
        ensures
            raster_width(img) == CANVAS_WIDTH,
            raster_pixels(img) == picture_of(self.grid.bytes()),
    {
        let buffer = self.grid.get_full();
        to_raster(&buffer)
    }
}

} // verus!
