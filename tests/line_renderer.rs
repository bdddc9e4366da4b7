use line_batch::line_renderer::{DrawCall, LineRenderer, Upload};

fn push_n(r: &mut LineRenderer<f32>, n: usize) {
    for i in 0..n {
        let x = i as f32;
        r.pushLine([x, 0.0, 0.0], [1.0, 1.0, 1.0], [x, 1.0, 0.0], [0.0, 0.0, 1.0]);
    }
}

#[test]
fn new_renderer_is_empty() {
    let r = LineRenderer::<f32>::new(1024);
    assert_eq!(r.pending_len(), 0);
    assert_eq!(r.floats_pushed(), 0);
    assert_eq!(r.last_floats_pushed(), 1024);
    assert_eq!(r.device_floats(), 1024);
    assert!(r.enabled);
    assert!(r.last_batch().is_empty());
}

#[test]
fn one_segment_with_capacity_1024_uses_partial_upload() {
    let mut r = LineRenderer::<f32>::new(1024);
    r.pushLine([0.0, 0.0, 0.0], [1.0, 1.0, 1.0], [1.0, 0.0, 0.0], [1.0, 0.0, 0.0]);
    let call = r.drawFlush();
    assert_eq!(
        call,
        Some(DrawCall {
            upload: Upload::Partial,
            value_count: 12,
            buffer_floats: 1024,
            vertex_count: 2
        })
    );
    assert_eq!(
        r.last_batch(),
        &[0.0, 0.0, 0.0, 1.0, 1.0, 1.0, 1.0, 0.0, 0.0, 1.0, 0.0, 0.0][..]
    );
    assert_eq!(r.pending_len(), 0);
    assert_eq!(r.floats_pushed(), 0);
    assert_eq!(r.last_floats_pushed(), 12);
    assert_eq!(r.device_floats(), 1024);
}

#[test]
fn first_flush_beyond_capacity_uses_full_upload() {
    let mut r = LineRenderer::<f32>::new(6);
    push_n(&mut r, 1);
    let call = r.drawFlush().unwrap();
    assert_eq!(call.upload, Upload::Full);
    assert_eq!(call.vertex_count, 2);
    assert_eq!(call.buffer_floats, 12);
    assert_eq!(r.device_floats(), 12);
}

#[test]
fn flush_equal_to_capacity_uses_partial_upload() {
    let mut r = LineRenderer::<f32>::new(24);
    push_n(&mut r, 2);
    assert_eq!(r.drawFlush().unwrap().upload, Upload::Partial);
}

#[test]
fn n_segments_give_one_draw_of_2n_vertices() {
    for n in [1usize, 2, 5, 100] {
        let mut r = LineRenderer::<f32>::new(16);
        push_n(&mut r, n);
        assert_eq!(r.pending_len(), 12 * n);
        assert_eq!(r.floats_pushed(), 12 * n);
        let call = r.drawFlush().unwrap();
        assert_eq!(call.vertex_count, 2 * n);
        assert_eq!(call.value_count, 12 * n);
        assert_eq!(r.last_batch().len(), 12 * n);
        assert_eq!(r.drawFlush(), None);
    }
}

#[test]
fn flush_with_nothing_pushed_is_a_no_op() {
    let mut r = LineRenderer::<f32>::new(8);
    assert_eq!(r.drawFlush(), None);
    assert_eq!(r.last_floats_pushed(), 8);
    assert_eq!(r.device_floats(), 8);
}

#[test]
fn growth_reallocates_once_then_reuses() {
    let mut r = LineRenderer::<f32>::new(12);
    push_n(&mut r, 2);
    assert_eq!(r.drawFlush().unwrap().upload, Upload::Full);
    assert_eq!(r.device_floats(), 24);
    push_n(&mut r, 2);
    assert_eq!(r.drawFlush().unwrap().upload, Upload::Partial);
    push_n(&mut r, 1);
    assert_eq!(r.drawFlush().unwrap().upload, Upload::Partial);
    assert_eq!(r.device_floats(), 24);
    assert_eq!(r.last_floats_pushed(), 12);
    push_n(&mut r, 2);
    assert_eq!(r.drawFlush().unwrap().upload, Upload::Full);
    assert_eq!(r.device_floats(), 24);
    push_n(&mut r, 3);
    assert_eq!(r.drawFlush().unwrap().upload, Upload::Full);
    assert_eq!(r.device_floats(), 36);
}

#[test]
fn partial_upload_fits_device_buffer() {
    let mut r = LineRenderer::<f32>::new(48);
    for n in [4usize, 1, 3, 6, 2, 6, 5] {
        push_n(&mut r, n);
        let device = r.device_floats();
        let call = r.drawFlush().unwrap();
        assert!(call.value_count <= call.buffer_floats);
        assert_eq!(call.buffer_floats, r.device_floats());
        assert!(r.device_floats() >= device);
        assert!(r.device_floats() >= call.value_count);
        if call.upload == Upload::Partial {
            assert_eq!(call.buffer_floats, device);
        }
    }
}

#[test]
fn disabled_pushes_change_nothing() {
    let mut r = LineRenderer::<f32>::new(64);
    r.enabled = false;
    push_n(&mut r, 10);
    assert_eq!(r.pending_len(), 0);
    assert_eq!(r.floats_pushed(), 0);
    assert_eq!(r.drawFlush(), None);
    assert_eq!(r.last_floats_pushed(), 64);
}

#[test]
fn disabling_keeps_queued_segments() {
    let mut r = LineRenderer::<f32>::new(64);
    push_n(&mut r, 2);
    r.enabled = false;
    push_n(&mut r, 3);
    assert_eq!(r.pending_len(), 24);
    assert_eq!(r.floats_pushed(), 24);
    let call = r.drawFlush().unwrap();
    assert_eq!(call.vertex_count, 4);
    r.enabled = true;
    push_n(&mut r, 1);
    assert_eq!(r.drawFlush().unwrap().vertex_count, 2);
}

#[test]
fn batch_keeps_push_order() {
    let mut r = LineRenderer::<f32>::new(0);
    r.pushLine([1.0, 2.0, 3.0], [0.1, 0.2, 0.3], [4.0, 5.0, 6.0], [0.4, 0.5, 0.6]);
    r.pushLine([7.0, 8.0, 9.0], [0.7, 0.8, 0.9], [10.0, 11.0, 12.0], [1.0, 0.0, 0.5]);
    let call = r.drawFlush().unwrap();
    assert_eq!(call.upload, Upload::Full);
    assert_eq!(
        r.last_batch(),
        &[
            1.0, 2.0, 3.0, 0.1, 0.2, 0.3, 4.0, 5.0, 6.0, 0.4, 0.5, 0.6, 7.0, 8.0, 9.0, 0.7, 0.8,
            0.9, 10.0, 11.0, 12.0, 1.0, 0.0, 0.5
        ][..]
    );
}

#[test]
fn batch_survives_a_skipped_flush() {
    let mut r = LineRenderer::<f32>::new(12);
    push_n(&mut r, 1);
    r.drawFlush().unwrap();
    assert_eq!(r.drawFlush(), None);
    assert_eq!(r.last_batch().len(), 12);
}

#[test]
fn full_upload_never_shrinks_device_buffer() {
    let mut r = LineRenderer::<f32>::new(48);
    push_n(&mut r, 1);
    assert_eq!(r.drawFlush().unwrap().upload, Upload::Partial);
    assert_eq!(r.last_floats_pushed(), 12);
    push_n(&mut r, 2);
    assert_eq!(
        r.drawFlush(),
        Some(DrawCall {
            upload: Upload::Full,
            value_count: 24,
            buffer_floats: 48,
            vertex_count: 4
        })
    );
    assert_eq!(r.device_floats(), 48);
    push_n(&mut r, 5);
    let call = r.drawFlush().unwrap();
    assert_eq!(call.upload, Upload::Full);
    assert_eq!(call.buffer_floats, 60);
    assert_eq!(r.device_floats(), 60);
}
