use vstd::prelude::*;

use crate::waveform::{resampled, WaveformData, lemma_resample_same_count};

verus! {

/// The pointer as the canvas reports it in one frame, reduced to what the
/// editor decides on.
pub struct PointerSample<T> {
    /// The sample point nearest to the pointer's horizontal position (rounded
    /// from the canvas position); it may lie past the last point.
    pub index: usize,
    /// Whether the pointer lies horizontally within the canvas.
    pub inside_canvas: bool,
    /// The amplitude that the pointer's vertical position stands for.
    pub amplitude: T,
}

/// What the canvas reports of the pointer in one frame.
pub struct PointerInput<T> {
    /// The pointer is over the canvas.
    pub contains_pointer: bool,
    /// A drag began on the canvas in this frame.
    pub drag_started: bool,
    /// The canvas is being dragged in this frame.
    pub dragged: bool,
    /// A drag on the canvas ended in this frame.
    pub drag_stopped: bool,
    /// Where the pointer is, if the canvas knows.
    pub pointer: Option<PointerSample<T>>,
}

/// What the surrounding user interface is asked to do after a frame.
#[derive(Clone, Copy, Debug, PartialEq, Eq)]
pub struct InteractionActions {
    /// Show the pointing-hand cursor.
    pub pointing_hand_cursor: bool,
    /// Draw the canvas again because a sample changed.
    pub request_repaint: bool,
}

/// `raw` limited to the last of `count` sample points.
pub open spec fn clamp_index(raw: int, count: int) -> int {
    if raw < count - 1 { raw } else { count - 1 }
}

/// A drag begins in this frame at a known pointer position.
pub open spec fn drag_begins<T>(input: PointerInput<T>) -> bool {
    input.drag_started && input.pointer is Some
}

/// Whether a drag is in progress once the start of this frame's drag is taken in.
pub open spec fn dragging_after_start<T>(was_dragging: bool, input: PointerInput<T>) -> bool {
    was_dragging || drag_begins(input)
}

/// The drag moves a sample in this frame: a drag is in progress, the canvas is
/// dragged and the pointer is horizontally within the canvas.
pub open spec fn drag_edits<T>(was_dragging: bool, input: PointerInput<T>) -> bool {
    &&& dragging_after_start(was_dragging, input)
    &&& input.dragged
    &&& input.pointer matches Some(p) && p.inside_canvas
}

/// The frame needs the index of the sample under the pointer.
pub open spec fn needs_sample_index<T>(was_dragging: bool, input: PointerInput<T>) -> bool {
    drag_begins(input) || drag_edits(was_dragging, input)
}

/// The drag in progress ends in this frame.
pub open spec fn drag_ends<T>(was_dragging: bool, input: PointerInput<T>) -> bool {
    dragging_after_start(was_dragging, input) && input.drag_stopped
}

/// The waveform editor: the current waveform, the waveform that sample-count
/// changes reshape from, playback settings, and the point being dragged.
pub struct WaveformEditor<T> {
    /// Current waveform data.
    pub waveform: WaveformData<T>,
    /// Waveform whose shape is carried over when the sample count changes.
    default_waveform: WaveformData<T>,
    /// Number of sample points.
    pub sample_count: usize,
    /// Playback frequency.
    pub playback_frequency: T,
    /// Master volume.
    pub volume: T,
    /// Index of the currently selected/edited sample point.
    selected_point: Option<usize>,
    /// Whether a sample point is being dragged.
    is_dragging: bool,
}

impl<T: Copy> WaveformEditor<T> {
    /// The current waveform.
    pub closed spec fn spec_waveform(&self) -> WaveformData<T> {
        self.waveform
    }

    /// The number of sample points.
    pub closed spec fn spec_sample_count(&self) -> usize {
        self.sample_count
    }

    /// The playback frequency.
    pub closed spec fn spec_playback_frequency(&self) -> T {
        self.playback_frequency
    }

    /// The master volume.
    pub closed spec fn spec_volume(&self) -> T {
        self.volume
    }

    /// The waveform that a change of sample count reshapes from.
    pub closed spec fn spec_default_waveform(&self) -> WaveformData<T> {
        self.default_waveform
    }

    /// The selected sample point.
    pub closed spec fn selection(&self) -> Option<usize> {
        self.selected_point
    }

    /// Whether a sample point is being dragged.
    pub closed spec fn dragging(&self) -> bool {
        self.is_dragging
    }

    /// The current waveform has `sample_count` points, the reshaping source is
    /// consistent, and a selected point is one of the waveform's points.
    pub closed spec fn well_formed(&self) -> bool {
        &&& self.waveform.well_formed()
        &&& self.waveform.sample_count == self.sample_count
        &&& self.default_waveform.well_formed()
        &&& (self.selected_point matches Some(i) ==> i < self.sample_count)
    }

    /// An editor showing `waveform`, which is also the shape that later
    /// sample-count changes start from; nothing is selected or dragged.
    pub fn new(waveform: WaveformData<T>, playback_frequency: T, volume: T) -> (e: Self)
        requires
            waveform.well_formed(),
        ensures
            e.well_formed(),
            e.spec_waveform() == waveform,
            e.spec_sample_count() == waveform.sample_count,
            e.spec_default_waveform().sample_count == waveform.sample_count,
            e.spec_default_waveform().samples@ == waveform.samples@,
            e.spec_playback_frequency() == playback_frequency,
            e.spec_volume() == volume,
            e.selection() is None,
            !e.dragging(),
    {
        let default_waveform = waveform.duplicate();
        let sample_count = waveform.sample_count;
        WaveformEditor {
            waveform,
            default_waveform,
            sample_count,
            playback_frequency,
            volume,
            selected_point: None,
            is_dragging: false,
        }
    }

    /// The selected sample point, if any.
    pub fn selected_point(&self) -> (r: Option<usize>)
        ensures
            r == self.selection(),
    {
        self.selected_point
    }

    /// The waveform that a change of sample count reshapes from.
    pub fn reshape_source(&self) -> (r: &WaveformData<T>)
        ensures
            *r == self.spec_default_waveform(),
    {
        &self.default_waveform
    }

    /// Whether a sample point is being dragged.
    pub fn is_dragging(&self) -> (r: bool)
        ensures
            r == self.dragging(),
    {
        self.is_dragging
    }

    /// Reset the waveform to `sine`, the sine wave of the current sample count,
    /// which also becomes the shape that sample-count changes start from; the
    /// selection and any drag end.
    pub fn reset_to_sine(&mut self, sine: WaveformData<T>)
        requires
            sine.well_formed(),
            sine.sample_count == old(self).spec_sample_count(),
        ensures
            final(self).well_formed(),
            final(self).spec_waveform() == sine,
            final(self).spec_default_waveform().sample_count == sine.sample_count,
            final(self).spec_default_waveform().samples@ == sine.samples@,
            final(self).spec_sample_count() == old(self).spec_sample_count(),
            final(self).spec_playback_frequency() == old(self).spec_playback_frequency(),
            final(self).spec_volume() == old(self).spec_volume(),
            final(self).selection() is None,
            !final(self).dragging(),
    {
        self.default_waveform = sine.duplicate();
        self.waveform = sine;
        self.selected_point = None;
        self.is_dragging = false;
    }

    /// Rebuild the waveform for a changed `sample_count`. With more than two
    /// points the previous shape is carried over by proportional resampling and
    /// becomes the new reshaping source; otherwise the waveform is all `zero`.
    /// The selection is cleared.
    pub fn update_sample_count(&mut self, zero: T)
        requires
            old(self).spec_default_waveform().well_formed(),
            old(self).spec_sample_count() > 2 ==> old(self).spec_default_waveform().sample_count >= 1,
        ensures
            final(self).well_formed(),
            final(self).spec_waveform().sample_count == old(self).spec_sample_count(),
            old(self).spec_sample_count() > 2 ==> {
                &&& final(self).spec_waveform().samples@ == resampled(
                    old(self).spec_default_waveform().samples@,
                    old(self).spec_sample_count() as nat,
                )
                &&& final(self).spec_default_waveform().sample_count == old(self).spec_sample_count()
                &&& final(self).spec_default_waveform().samples@ == final(self).spec_waveform().samples@
            },
            old(self).spec_sample_count() <= 2 ==> {
                &&& final(self).spec_waveform().samples@ == Seq::new(old(self).spec_sample_count() as nat, |_i: int| zero)
                &&& final(self).spec_default_waveform() == old(self).spec_default_waveform()
            },
            final(self).spec_sample_count() == old(self).spec_sample_count(),
            final(self).spec_playback_frequency() == old(self).spec_playback_frequency(),
            final(self).spec_volume() == old(self).spec_volume(),
            final(self).selection() is None,
            final(self).dragging() == old(self).dragging(),
    {
        self.waveform = WaveformData::new(self.sample_count, zero);
        if self.sample_count > 2 {
            self.waveform = self.default_waveform.resampled_to(self.sample_count);
            self.default_waveform = self.waveform.duplicate();
        }
        self.selected_point = None;
    }

    /// The index of the sample point under the pointer, limited to the last point.
    fn clamped_index(&self, raw: usize) -> (i: usize)
        requires
            self.spec_sample_count() >= 1,
        ensures
            i == clamp_index(raw as int, self.spec_sample_count() as int),
            i < self.spec_sample_count(),
    {
        let last = self.sample_count - 1;
        if raw < last { raw } else { last }
    }

    /// Handle one frame of pointer interaction on the canvas: a drag that
    /// starts selects the point under the pointer, a drag in progress sets the
    /// selected column's sample to the pointer's amplitude while the pointer is
    /// within the canvas, and the end of a drag clears the selection.
    pub fn handle_mouse_interaction(&mut self, input: &PointerInput<T>) -> (act: InteractionActions)
        requires
            old(self).well_formed(),
            needs_sample_index(old(self).dragging(), *input) ==> old(self).spec_sample_count() >= 1,
        ensures
            final(self).well_formed(),
            act.pointing_hand_cursor == input.contains_pointer,
            act.request_repaint == drag_edits(old(self).dragging(), *input),
            drag_edits(old(self).dragging(), *input) ==> final(self).spec_waveform().samples@
                == old(self).spec_waveform().samples@.update(
                    clamp_index(input.pointer->Some_0.index as int, old(self).spec_sample_count() as int),
                    input.pointer->Some_0.amplitude,
                ),
            !drag_edits(old(self).dragging(), *input) ==> final(self).spec_waveform().samples@
                == old(self).spec_waveform().samples@,
            final(self).dragging() == (dragging_after_start(old(self).dragging(), *input)
                && !input.drag_stopped),
            drag_ends(old(self).dragging(), *input) ==> final(self).selection() is None,
            !drag_ends(old(self).dragging(), *input) && drag_begins(*input) ==> final(self).selection()
                == Some(clamp_index(input.pointer->Some_0.index as int, old(self).spec_sample_count() as int) as usize),
            !drag_ends(old(self).dragging(), *input) && !drag_begins(*input) ==> final(self).selection()
                == old(self).selection(),
            final(self).spec_waveform().sample_count == old(self).spec_waveform().sample_count,
            final(self).spec_default_waveform() == old(self).spec_default_waveform(),
            final(self).spec_sample_count() == old(self).spec_sample_count(),
            final(self).spec_playback_frequency() == old(self).spec_playback_frequency(),
            final(self).spec_volume() == old(self).spec_volume(),
    {
        let mut act = InteractionActions { pointing_hand_cursor: false, request_repaint: false };
        if input.contains_pointer {
            act.pointing_hand_cursor = true;
        }
        if input.drag_started {
            if let Some(p) = &input.pointer {
                let idx = self.clamped_index(p.index);
                self.selected_point = Some(idx);
                self.is_dragging = true;
            }
        }
        if self.is_dragging && input.dragged {
            if let Some(p) = &input.pointer {
                if p.inside_canvas {
                    let idx = self.clamped_index(p.index);
                    self.waveform.samples.set(idx, p.amplitude);
                    act.request_repaint = true;
                }
            }
        }
        if self.is_dragging && input.drag_stopped {
            self.is_dragging = false;
            self.selected_point = None;
        }
        act
    }
}

/// Limiting an index to the last of `count` points keeps an index that is
/// already a point, and maps every index past the end to the last point.
pub proof fn lemma_clamp_index_is_min(raw: int, count: int)
    requires
        count >= 1,
        raw >= 0,
    ensures
        raw < count ==> clamp_index(raw, count) == raw,
        raw >= count ==> clamp_index(raw, count) == count - 1,
        0 <= clamp_index(raw, count) < count,
{
}

/// A frame edits a sample exactly when a drag is in progress (already, or
/// begun in this frame at a known position), the canvas is dragged, and the
/// pointer is known and lies horizontally within the canvas; whether the
/// pointer is over the canvas plays no part, and neither does its vertical
/// position.
pub proof fn lemma_edit_condition<T>(was_dragging: bool, input: PointerInput<T>)
    ensures
        drag_edits(was_dragging, input) == {
            &&& was_dragging || (input.drag_started && input.pointer is Some)
            &&& input.dragged
            &&& input.pointer is Some
            &&& input.pointer->Some_0.inside_canvas
        },
        drag_edits(was_dragging, input) == drag_edits(
            was_dragging,
            PointerInput { contains_pointer: !input.contains_pointer, ..input },
        ),
{
}

/// A drag begins in a frame exactly when egui reports its start and the
/// pointer position is known; it ends exactly when egui reports its end while
/// a drag is in progress (including one begun in the same frame).
pub proof fn lemma_drag_start_and_end_conditions<T>(was_dragging: bool, input: PointerInput<T>)
    ensures
        drag_begins(input) == (input.drag_started && input.pointer is Some),
        drag_ends(was_dragging, input) == ((was_dragging || (input.drag_started
            && input.pointer is Some)) && input.drag_stopped),
        needs_sample_index(was_dragging, input) == (input.pointer is Some && (input.drag_started
            || (was_dragging && input.dragged && input.pointer->Some_0.inside_canvas))),
{
}

/// In every editor state that the operations above produce, the waveform has
/// `sample_count` points and a selected point is one of them.
pub proof fn lemma_selection_within_waveform<T: Copy>(e: WaveformEditor<T>)
    requires
        e.well_formed(),
    ensures
        e.spec_waveform().samples@.len() == e.spec_sample_count(),
        e.spec_waveform().sample_count == e.spec_sample_count(),
        e.selection() matches Some(i) ==> i < e.spec_waveform().samples@.len(),
{
}

/// Changing the sample count to the count the reshaping source already has
/// (with more than two points) gives back exactly that source's shape: what
/// `update_sample_count` then stores equals the source's samples.
pub proof fn lemma_update_at_same_count_keeps_shape<T: Copy>(e: WaveformEditor<T>)
    requires
        e.spec_default_waveform().well_formed(),
        e.spec_sample_count() == e.spec_default_waveform().sample_count,
        e.spec_sample_count() > 2,
    ensures
        resampled(e.spec_default_waveform().samples@, e.spec_sample_count() as nat)
            == e.spec_default_waveform().samples@,
{
    lemma_resample_same_count(e.spec_default_waveform().samples@);
}

} // verus!
