use vstd::prelude::*;

verus! {

/// Values per vertex: a position (3 components) followed by a color (3 components).
pub const FLOATS_PER_VERTEX: usize = 6;

/// Values per line segment: two vertices.
pub const FLOATS_PER_SEGMENT: usize = 12;

/// Components of each vertex attribute.
pub const ATTRIBUTE_COMPONENTS: usize = 3;

/// Offset, in values, of the position attribute within a vertex.
pub const POSITION_OFFSET: usize = 0;

/// Offset, in values, of the color attribute within a vertex.
pub const COLOR_OFFSET: usize = 3;

/// How a flush brings the accumulated values to the device buffer.
#[derive(Clone, Copy, Debug, PartialEq, Eq, Structural)]
pub enum Upload {
    /// Redefine the device buffer at `buffer_floats` values, then write the data into it,
    /// starting at offset 0.
    Full,
    /// Write the data into the existing device buffer of `buffer_floats` values, starting at
    /// offset 0.
    Partial,
}

/// What one flush asks of the device: one upload, then one draw of an unconnected line list
/// starting at vertex 0.
#[derive(Clone, Copy, Debug, PartialEq, Eq, Structural)]
pub struct DrawCall {
    pub upload: Upload,
    /// Values to upload, all of the flushed batch.
    pub value_count: usize,
    /// Size, in values, of the device buffer that the data is written into.
    pub buffer_floats: usize,
    /// Vertices to draw.
    pub vertex_count: usize,
}

/// The values of one segment in upload order: position, color, position, color.
pub open spec fn segment_values<T>(pos1: [T; 3], color1: [T; 3], pos2: [T; 3], color2: [T; 3]) -> Seq<T> {
    pos1@ + color1@ + pos2@ + color2@
}

/// Abstract state of a line renderer.
pub struct LineRendererState<T> {
    /// Values accumulated since the last flush.
    pub pending: Seq<T>,
    /// Values handed out by the last flush that drew.
    pub batch: Seq<T>,
    /// Values queued since the last flush.
    pub floats_pushed: nat,
    /// Values uploaded by the last flush that drew (initially the capacity hint).
    pub last_floats_pushed: nat,
    /// Size, in values, of the device buffer: the largest of the capacity hint and every batch flushed.
    pub device_floats: nat,
    /// Whether pushes are queued.
    pub enabled: bool,
}

/// Accumulates line segments and decides, once per flush, how they reach the device.
pub struct LineRenderer<T> {
    vec: Vec<T>,
    batch: Vec<T>,
    floatsPushed: usize,
    lastFloatsPushed: usize,
    deviceFloats: usize,
    /// While false, `pushLine` does nothing.
    pub enabled: bool,
}

impl<T> LineRendererState<T> {
    /// The queue counter matches the accumulated values, which hold whole segments, and the
    /// device buffer, whose size fits a `usize`, holds at least what the last flush uploaded.
    pub open spec fn wf(self) -> bool {
        &&& self.floats_pushed == self.pending.len()
        &&& self.pending.len() % (FLOATS_PER_SEGMENT as nat) == 0
        &&& self.last_floats_pushed <= self.device_floats
        &&& self.device_floats <= usize::MAX
    }

    /// The state after one `pushLine`.
    pub open spec fn after_push(self, pos1: [T; 3], color1: [T; 3], pos2: [T; 3], color2: [T; 3]) -> Self {
        if self.enabled {
            LineRendererState {
                pending: self.pending + segment_values(pos1, color1, pos2, color2),
                floats_pushed: self.floats_pushed + (FLOATS_PER_SEGMENT as nat),
                ..self
            }
        } else {
            self
        }
    }

    /// The state after one `pushLine` for each of `lines`, in order; each line is
    /// `(pos1, color1, pos2, color2)`.
    pub open spec fn after_pushes(self, lines: Seq<([T; 3], [T; 3], [T; 3], [T; 3])>) -> Self
        decreases lines.len(),
    {
        if lines.len() == 0 {
            self
        } else {
            let (pos1, color1, pos2, color2) = lines.last();
            self.after_pushes(lines.drop_last()).after_push(pos1, color1, pos2, color2)
        }
    }

    /// A flush does nothing while less than one segment is queued.
    pub open spec fn flush_skipped(self) -> bool {
        self.pending.len() < FLOATS_PER_SEGMENT || self.floats_pushed < FLOATS_PER_SEGMENT
    }

    /// Data that grew past the last upload needs a new allocation; anything else reuses it.
    pub open spec fn upload(self) -> Upload {
        if self.floats_pushed > self.last_floats_pushed {
            Upload::Full
        } else {
            Upload::Partial
        }
    }

    /// Size of the device buffer after a flush that draws: a full upload grows it to fit the
    /// batch, and nothing shrinks it.
    pub open spec fn flushed_device_floats(self) -> nat {
        if self.upload() == Upload::Full && self.pending.len() > self.device_floats {
            self.pending.len()
        } else {
            self.device_floats
        }
    }

    /// What a flush asks of the device in this state.
    pub open spec fn draw_call(self) -> Option<DrawCall> {
        if self.flush_skipped() {
            None
        } else {
            Some(
                DrawCall {
                    upload: self.upload(),
                    value_count: self.pending.len() as usize,
                    buffer_floats: self.flushed_device_floats() as usize,
                    vertex_count: (self.pending.len() / (FLOATS_PER_VERTEX as nat)) as usize,
                },
            )
        }
    }

    /// The state after a flush.
    pub open spec fn after_flush(self) -> Self {
        if self.flush_skipped() {
            self
        } else {
            LineRendererState {
                pending: Seq::empty(),
                batch: self.pending,
                floats_pushed: 0,
                last_floats_pushed: self.floats_pushed,
                device_floats: self.flushed_device_floats(),
                enabled: self.enabled,
            }
        }
    }
}

impl<T> View for LineRenderer<T> {
    type V = LineRendererState<T>;

    closed spec fn view(&self) -> LineRendererState<T> {
        LineRendererState {
            pending: self.vec@,
            batch: self.batch@,
            floats_pushed: self.floatsPushed as nat,
            last_floats_pushed: self.lastFloatsPushed as nat,
            device_floats: self.deviceFloats as nat,
            enabled: self.enabled,
        }
    }
}

/// Appends one vertex: its position, then its color.
fn push_vertex<T: Copy>(v: &mut Vec<T>, pos: [T; 3], color: [T; 3])
    ensures
        final(v)@ == old(v)@ + pos@ + color@,
{
    v.push(pos[0]);
    v.push(pos[1]);
    v.push(pos[2]);
    v.push(color[0]);
    v.push(color[1]);
    v.push(color[2]);
    assert(v@ =~= old(v)@ + pos@ + color@);
}

impl<T: Copy> LineRenderer<T> {
    pub open spec fn wf(&self) -> bool {
        self@.wf()
    }

    /// A renderer with room reserved for `capacity` values on the host and on the device.
    pub fn new(capacity: usize) -> (r: Self)
        ensures
            r.wf(),
            r@.pending == Seq::<T>::empty(),
            r@.batch == Seq::<T>::empty(),
            r@.floats_pushed == 0,
            r@.last_floats_pushed == capacity,
            r@.device_floats == capacity,
            r@.enabled,
    {
        LineRenderer {
            vec: Vec::with_capacity(capacity),
            batch: Vec::with_capacity(capacity),
            floatsPushed: 0,
            lastFloatsPushed: capacity,
            deviceFloats: capacity,
            enabled: true,
        }
    }

    /// Number of values accumulated since the last flush.
    pub fn pending_len(&self) -> (r: usize)
        ensures
            r == self@.pending.len(),
    {
        self.vec.len()
    }

    /// Values queued since the last flush.
    pub fn floats_pushed(&self) -> (r: usize)
        ensures
            r == self@.floats_pushed,
    {
        self.floatsPushed
    }

    /// Values uploaded by the last flush that drew, or the capacity hint before any.
    pub fn last_floats_pushed(&self) -> (r: usize)
        ensures
            r == self@.last_floats_pushed,
    {
        self.lastFloatsPushed
    }

    /// Size, in values, of the device buffer: the largest of the capacity hint and every batch flushed.
    pub fn device_floats(&self) -> (r: usize)
        ensures
            r == self@.device_floats,
    {
        self.deviceFloats
    }

    /// The values of the last flush that drew, in upload order.
    pub fn last_batch(&self) -> (r: &[T])
        ensures
            r@ == self@.batch,
    {
        self.batch.as_slice()
    }

    /// Queues one segment from `pos1` to `pos2`, each end with its color; does nothing while
    /// the renderer is disabled.
    pub fn pushLine(&mut self, pos1: [T; 3], color1: [T; 3], pos2: [T; 3], color2: [T; 3])
        requires
            old(self).wf(),
            old(self)@.enabled ==> old(self)@.floats_pushed + FLOATS_PER_SEGMENT <= usize::MAX,
        ensures
            final(self).wf(),
            final(self)@ == old(self)@.after_push(pos1, color1, pos2, color2),
            !old(self)@.enabled ==> final(self)@ == old(self)@,
    {
        if !self.enabled {
            return;
        }
        push_vertex(&mut self.vec, pos1, color1);
        push_vertex(&mut self.vec, pos2, color2);
        self.floatsPushed = self.floatsPushed + FLOATS_PER_SEGMENT;
        assert(self.vec@ =~= old(self).vec@ + segment_values(pos1, color1, pos2, color2));
    }

    /// Ends the current batch. When at least one segment is queued, returns the upload and
    /// draw that the device must perform, moves the queued values to `last_batch` and
    /// starts a new, empty batch; otherwise changes nothing and returns `None`.
    pub fn drawFlush(&mut self) -> (r: Option<DrawCall>)
        requires
            old(self).wf(),
        ensures
            final(self).wf(),
            r == old(self)@.draw_call(),
            final(self)@ == old(self)@.after_flush(),
    {
        if self.vec.len() < FLOATS_PER_SEGMENT || self.floatsPushed < FLOATS_PER_SEGMENT {
            return None;
        }
        let upload = if self.floatsPushed > self.lastFloatsPushed {
            Upload::Full
        } else {
            Upload::Partial
        };
        let value_count = self.vec.len();
        if upload == Upload::Full && value_count > self.deviceFloats {
            self.deviceFloats = value_count;
        }
        std::mem::swap(&mut self.vec, &mut self.batch);
        self.vec.clear();
        self.lastFloatsPushed = self.floatsPushed;
        self.floatsPushed = 0;
        Some(
            DrawCall {
                upload,
                value_count,
                buffer_floats: self.deviceFloats,
                vertex_count: value_count / FLOATS_PER_VERTEX,
            },
        )
    }
}

/// While enabled, pushes append their values in order and count them; the flags and the
/// device-side sizes stay as they were.
proof fn lemma_enabled_pushes<T>(s: LineRendererState<T>, lines: Seq<([T; 3], [T; 3], [T; 3], [T; 3])>)
    requires
        s.enabled,
    ensures
        s.after_pushes(lines).pending.len() == s.pending.len() + FLOATS_PER_SEGMENT * lines.len(),
        s.after_pushes(lines).floats_pushed == s.floats_pushed + FLOATS_PER_SEGMENT * lines.len(),
        s.after_pushes(lines).last_floats_pushed == s.last_floats_pushed,
        s.after_pushes(lines).device_floats == s.device_floats,
        s.after_pushes(lines).enabled,
    decreases lines.len(),
{
    if lines.len() > 0 {
        lemma_enabled_pushes(s, lines.drop_last());
    }
}

/// Pushing `n >= 1` segments onto an empty batch and flushing asks for exactly one draw of
/// `2 * n` vertices; a second flush with nothing pushed in between draws nothing.
pub proof fn lemma_flush_draws_every_segment<T>(
    s: LineRendererState<T>,
    lines: Seq<([T; 3], [T; 3], [T; 3], [T; 3])>,
)
    requires
        s.wf(),
        s.enabled,
        s.pending.len() == 0,
        lines.len() >= 1,
        FLOATS_PER_SEGMENT * lines.len() <= usize::MAX,
    ensures
        s.after_pushes(lines).draw_call() matches Some(c) && c.vertex_count == 2 * lines.len(),
        s.after_pushes(lines).after_flush().draw_call() is None,
{
    lemma_enabled_pushes(s, lines);
    let n = lines.len();
    assert((12 * n) / 6 == 2 * n) by (nonlinear_arith);
}

/// A flush that reallocates the device buffer does so once: when the next batch holds at most
/// as many segments, its flush writes into the buffer it left.
pub proof fn lemma_full_upload_once<T>(
    s: LineRendererState<T>,
    lines: Seq<([T; 3], [T; 3], [T; 3], [T; 3])>,
)
    requires
        s.wf(),
        s.draw_call() matches Some(c) && c.upload == Upload::Full,
        FLOATS_PER_SEGMENT * lines.len() <= s.floats_pushed,
    ensures
        s.after_flush().after_pushes(lines).draw_call() matches Some(c) ==> c.upload
            == Upload::Partial,
{
    let t = s.after_flush();
    if t.enabled {
        lemma_enabled_pushes(t, lines);
    } else {
        lemma_disabled_pushes(t, lines);
    }
}

/// Pushes leave a disabled renderer as it is, so a flush that would have drawn nothing still
/// draws nothing.
pub proof fn lemma_disabled_pushes<T>(s: LineRendererState<T>, lines: Seq<([T; 3], [T; 3], [T; 3], [T; 3])>)
    requires
        !s.enabled,
    ensures
        s.after_pushes(lines) == s,
        s.draw_call() is None ==> s.after_pushes(lines).draw_call() is None,
    decreases lines.len(),
{
    if lines.len() > 0 {
        lemma_disabled_pushes(s, lines.drop_last());
    }
}

/// Every upload fits the device buffer it writes into, and a partial upload writes into the
/// buffer as it was.
pub proof fn lemma_upload_fits<T>(s: LineRendererState<T>)
    requires
        s.wf(),
        s.draw_call() is Some,
    ensures
        s.draw_call().unwrap().value_count <= s.draw_call().unwrap().buffer_floats,
        s.draw_call().unwrap().upload == Upload::Partial ==> s.draw_call().unwrap().buffer_floats
            == s.device_floats,
{
}

/// The device buffer only grows: no flush leaves it smaller than it was.
pub proof fn lemma_device_never_shrinks<T>(s: LineRendererState<T>)
    ensures
        s.after_flush().device_floats >= s.device_floats,
{
}

} // verus!
