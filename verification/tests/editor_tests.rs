use audio_tinkertoy::editor::{InteractionActions, PointerInput, PointerSample, WaveformEditor};
use audio_tinkertoy::waveform::WaveformData;

fn wave(samples: &[f32]) -> WaveformData<f32> {
    WaveformData { sample_count: samples.len(), samples: samples.to_vec() }
}

fn editor(samples: &[f32]) -> WaveformEditor<f32> {
    WaveformEditor::new(wave(samples), 440.0, 0.5)
}

fn frame(
    contains_pointer: bool,
    drag_started: bool,
    dragged: bool,
    drag_stopped: bool,
    pointer: Option<(usize, bool, f32)>,
) -> PointerInput<f32> {
    PointerInput {
        contains_pointer,
        drag_started,
        dragged,
        drag_stopped,
        pointer: pointer.map(|(index, inside_canvas, amplitude)| PointerSample {
            index,
            inside_canvas,
            amplitude,
        }),
    }
}

#[test]
fn new_editor_shows_given_waveform() {
    let e = editor(&[0.0, 1.0, 0.0, -1.0]);
    assert_eq!(e.sample_count, 4);
    assert_eq!(e.waveform.samples, vec![0.0, 1.0, 0.0, -1.0]);
    assert_eq!(e.playback_frequency, 440.0);
    assert_eq!(e.volume, 0.5);
    assert_eq!(e.selected_point(), None);
    assert!(!e.is_dragging());
}

#[test]
fn hovering_asks_for_pointing_cursor_only() {
    let mut e = editor(&[0.0, 1.0, 0.0, -1.0]);
    let a = e.handle_mouse_interaction(&frame(true, false, false, false, Some((1, true, 0.3))));
    assert_eq!(a, InteractionActions { pointing_hand_cursor: true, request_repaint: false });
    assert_eq!(e.waveform.samples, vec![0.0, 1.0, 0.0, -1.0]);
    assert_eq!(e.selected_point(), None);
}

#[test]
fn drag_start_selects_nearest_point_limited_to_last() {
    let mut e = editor(&[0.0, 1.0, 0.0, -1.0]);
    let a = e.handle_mouse_interaction(&frame(true, true, false, false, Some((9, true, 0.3))));
    assert!(!a.request_repaint);
    assert_eq!(e.selected_point(), Some(3));
    assert!(e.is_dragging());
    assert_eq!(e.waveform.samples, vec![0.0, 1.0, 0.0, -1.0]);
}

#[test]
fn drag_start_without_position_does_nothing() {
    let mut e = editor(&[0.0, 1.0, 0.0, -1.0]);
    e.handle_mouse_interaction(&frame(true, true, true, false, None));
    assert_eq!(e.selected_point(), None);
    assert!(!e.is_dragging());
}

#[test]
fn dragging_sets_sample_under_pointer() {
    let mut e = editor(&[0.0, 1.0, 0.0, -1.0]);
    e.handle_mouse_interaction(&frame(true, true, false, false, Some((1, true, 0.0))));
    let a = e.handle_mouse_interaction(&frame(true, false, true, false, Some((2, true, 0.75))));
    assert!(a.request_repaint);
    assert_eq!(e.waveform.samples, vec![0.0, 1.0, 0.75, -1.0]);
    assert_eq!(e.selected_point(), Some(1));
}

#[test]
fn drag_start_and_move_in_one_frame_edit_at_once() {
    let mut e = editor(&[0.0, 1.0, 0.0, -1.0]);
    let a = e.handle_mouse_interaction(&frame(true, true, true, false, Some((0, true, -0.5))));
    assert!(a.request_repaint);
    assert_eq!(e.waveform.samples, vec![-0.5, 1.0, 0.0, -1.0]);
}

#[test]
fn dragging_outside_canvas_changes_nothing() {
    let mut e = editor(&[0.0, 1.0, 0.0, -1.0]);
    e.handle_mouse_interaction(&frame(true, true, false, false, Some((1, true, 0.0))));
    let a = e.handle_mouse_interaction(&frame(false, false, true, false, Some((3, false, 0.9))));
    assert!(!a.request_repaint);
    assert_eq!(e.waveform.samples, vec![0.0, 1.0, 0.0, -1.0]);
}

#[test]
fn drag_without_start_changes_nothing() {
    let mut e = editor(&[0.0, 1.0, 0.0, -1.0]);
    let a = e.handle_mouse_interaction(&frame(true, false, true, false, Some((2, true, 0.9))));
    assert!(!a.request_repaint);
    assert_eq!(e.waveform.samples, vec![0.0, 1.0, 0.0, -1.0]);
}

#[test]
fn drag_stop_clears_selection() {
    let mut e = editor(&[0.0, 1.0, 0.0, -1.0]);
    e.handle_mouse_interaction(&frame(true, true, false, false, Some((1, true, 0.0))));
    e.handle_mouse_interaction(&frame(true, false, false, true, Some((1, true, 0.0))));
    assert_eq!(e.selected_point(), None);
    assert!(!e.is_dragging());
}

#[test]
fn drag_stop_without_drag_keeps_state() {
    let mut e = editor(&[0.0, 1.0, 0.0, -1.0]);
    e.handle_mouse_interaction(&frame(false, false, false, true, None));
    assert_eq!(e.selected_point(), None);
    assert!(!e.is_dragging());
}

#[test]
fn more_points_carry_the_shape_over() {
    let mut e = editor(&[1.0, 2.0, 3.0, 4.0]);
    e.sample_count = 8;
    e.update_sample_count(0.0);
    assert_eq!(e.waveform.sample_count, 8);
    assert_eq!(e.waveform.samples, vec![1.0, 1.0, 2.0, 2.0, 3.0, 3.0, 4.0, 4.0]);
    e.sample_count = 4;
    e.update_sample_count(0.0);
    assert_eq!(e.waveform.samples, vec![1.0, 2.0, 3.0, 4.0]);
}

#[test]
fn two_points_give_zeros_and_keep_the_shape_source() {
    let mut e = editor(&[1.0, 2.0, 3.0, 4.0]);
    e.sample_count = 2;
    e.update_sample_count(0.0);
    assert_eq!(e.waveform.sample_count, 2);
    assert_eq!(e.waveform.samples, vec![0.0, 0.0]);
    e.sample_count = 4;
    e.update_sample_count(0.0);
    assert_eq!(e.waveform.samples, vec![1.0, 2.0, 3.0, 4.0]);
}

#[test]
fn sample_count_change_discards_edits_and_selection() {
    let mut e = editor(&[1.0, 2.0, 3.0, 4.0]);
    e.handle_mouse_interaction(&frame(true, true, true, false, Some((1, true, -1.0))));
    assert_eq!(e.waveform.samples, vec![1.0, -1.0, 3.0, 4.0]);
    e.update_sample_count(0.0);
    assert_eq!(e.waveform.samples, vec![1.0, 2.0, 3.0, 4.0]);
    assert_eq!(e.selected_point(), None);
    assert!(e.is_dragging());
}

#[test]
fn reset_replaces_waveform_and_shape_source() {
    let mut e = editor(&[1.0, 2.0, 3.0, 4.0]);
    e.handle_mouse_interaction(&frame(true, true, false, false, Some((2, true, 0.0))));
    e.reset_to_sine(wave(&[0.0, 1.0, 0.0, -1.0]));
    assert_eq!(e.waveform.samples, vec![0.0, 1.0, 0.0, -1.0]);
    assert_eq!(e.selected_point(), None);
    assert!(!e.is_dragging());
    e.sample_count = 8;
    e.update_sample_count(0.0);
    assert_eq!(e.waveform.samples, vec![0.0, 0.0, 1.0, 1.0, 0.0, 0.0, -1.0, -1.0]);
}
