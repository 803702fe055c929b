//! The renderer's state: the surface configuration, the placed instances and
//! the size of the device buffer that mirrors their transforms.

use vstd::prelude::*;
use crate::encoding::{half_bytes, is_words_image, word_bytes};
use crate::graphics::instance::{
    count_for_draw, draw_count, instance_views, is_upload_of, transforms_words,
    words_of_transforms, words_of_vertices, InstanceData, ObjectInstance, ObjectInstanceView,
    Shape, ShapeData, INSTANCE_STRIDE,
};
use crate::render::{
    clear_color, DrawCall, FramePlan, PhysicalSize, PresentMode, Renderer, SurfaceConfiguration,
};

verus! {

/// What has to happen to the device's instance buffer after the instance list
/// changed.
pub enum BufferSync {
    /// The buffer is too small: a new one takes its place, created with
    /// exactly these bytes.
    Replace {
        /// The content of the new buffer.
        contents: Vec<u8>,
    },
    /// The buffer is large enough: these bytes are written into it.
    Write {
        /// Where in the buffer the bytes go.
        offset: u64,
        /// The bytes to write.
        contents: Vec<u8>,
    },
}

impl BufferSync {
    /// The bytes that reach the device.
    pub open spec fn bytes(&self) -> Seq<u8> {
        match self {
            BufferSync::Replace { contents } => contents@,
            BufferSync::Write { contents, .. } => contents@,
        }
    }

    /// The bytes that reach the device.
    pub fn contents(&self) -> (bytes: &Vec<u8>)
        ensures
            bytes@ == self.bytes(),
    {
        match self {
            BufferSync::Replace { contents } => contents,
            BufferSync::Write { contents, .. } => contents,
        }
    }

    /// Whether a new buffer takes the place of the old one.
    pub fn is_replace(&self) -> (replace: bool)
        ensures
            replace == (self is Replace),
    {
        match self {
            BufferSync::Replace { .. } => true,
            BufferSync::Write { .. } => false,
        }
    }
}

/// The renderer's state.
pub struct WgpuRenderer {
    /// The extent of the window's drawable area.
    pub size: PhysicalSize,
    config: SurfaceConfiguration,
    instances: Vec<ObjectInstance>,
    instance_buffer: u64,
}

/// The renderer's state, with the instance list as a sequence.
pub struct WgpuRendererView {
    /// The extent of the window's drawable area.
    pub size: PhysicalSize,
    /// The presentation parameters of the surface.
    pub config: SurfaceConfiguration,
    /// The placed instances, oldest first.
    pub instances: Seq<ObjectInstanceView>,
    /// The size in bytes of the device's instance buffer.
    pub capacity: u64,
}

impl View for WgpuRenderer {
    type V = WgpuRendererView;

    closed spec fn view(&self) -> WgpuRendererView {
        WgpuRendererView {
            size: self.size,
            config: self.config,
            instances: instance_views(self.instances@),
            capacity: self.instance_buffer,
        }
    }
}

/// The bytes that the transforms of `count` instances take.
pub open spec fn required_bytes(count: nat) -> int {
    count * INSTANCE_STRIDE
}

/// The size of the instance buffer after a sync for `count` instances, when
/// it had `capacity` bytes before: it grows to what is required, and only if
/// it was smaller.
pub open spec fn capacity_after(capacity: int, count: nat) -> int {
    if capacity < required_bytes(count) {
        required_bytes(count)
    } else {
        capacity
    }
}

/// The size of the instance buffer after `adds` further instances were added
/// one by one, starting from `count` instances and `capacity` bytes.
pub open spec fn capacity_after_adds(capacity: int, count: nat, adds: nat) -> int
    decreases adds,
{
    if adds == 0 {
        capacity
    } else {
        capacity_after_adds(capacity_after(capacity, count + 1), count + 1, (adds - 1) as nat)
    }
}

/// What a sync sends to the device is exactly as long as the transforms of all
/// instances, and fits the buffer as it is afterwards.
pub proof fn lemma_sync_is_exact(capacity: u64, after: WgpuRendererView, sync: BufferSync)
    requires
        WgpuRenderer::syncs(capacity, after, sync),
    ensures
        sync.bytes().len() == required_bytes(after.instances.len()),
        sync.bytes().len() <= after.capacity,
{
}

/// A sync never shrinks the instance buffer, leaves it large enough for all
/// transforms, and changes its size only where it was too small.
pub proof fn lemma_capacity_grows_only_when_short(capacity: int, count: nat)
    ensures
        capacity_after(capacity, count) >= capacity,
        capacity_after(capacity, count) >= required_bytes(count),
        capacity_after(capacity, count) != capacity ==> required_bytes(count) > capacity,
{
}

/// However many instances are added, the instance buffer is at least as large
/// as it was at the start.
pub proof fn lemma_capacity_keeps_its_start(capacity: int, count: nat, adds: nat)
    ensures
        capacity_after_adds(capacity, count, adds) >= capacity,
    decreases adds,
{
    if adds > 0 {
        lemma_capacity_keeps_its_start(
            capacity_after(capacity, count + 1),
            count + 1,
            (adds - 1) as nat,
        );
    }
}

/// Over any run of added instances the size of the instance buffer never
/// goes down: after more additions it is at least what it was after fewer.
pub proof fn lemma_capacity_is_monotonic(capacity: int, count: nat, fewer: nat, more: nat)
    requires
        fewer <= more,
    ensures
        capacity_after_adds(capacity, count, fewer) <= capacity_after_adds(capacity, count, more),
    decreases fewer,
{
    if fewer == 0 {
        lemma_capacity_keeps_its_start(capacity, count, more);
    } else {
        lemma_capacity_is_monotonic(
            capacity_after(capacity, count + 1),
            count + 1,
            (fewer - 1) as nat,
            (more - 1) as nat,
        );
    }
}

/// Which of the surface's texture formats is used: the first that is sRGB,
/// or the first of all where none is. `srgb` tells of each offered format, in
/// the surface's order, whether it is sRGB.
pub open spec fn is_chosen_format(srgb: Seq<bool>, index: int) -> bool {
    &&& 0 <= index < srgb.len()
    &&& forall|j: int| 0 <= j < index ==> !srgb[j]
    &&& (srgb[index] || (index == 0 && forall|j: int| 0 <= j < srgb.len() ==> !srgb[j]))
}

/// Picks the surface's texture format: the first that is sRGB, or the first
/// of all where none is.
pub fn choose_surface_format(srgb: &Vec<bool>) -> (index: usize)
    requires
        srgb.len() > 0,
    ensures
        is_chosen_format(srgb@, index as int),
{
    let mut at: usize = 0;
    while at < srgb.len()
        invariant
            at <= srgb.len(),
            forall|j: int| 0 <= j < at ==> !srgb@[j],
        decreases srgb.len() - at,
    {
        if srgb[at] {
            return at;
        }
        at = at + 1;
    }
    0
}

impl WgpuRenderer {
    /// The surface is configured for the window's extent, which has area.
    pub open spec fn surface_matches(view: WgpuRendererView) -> bool {
        &&& view.config.width == view.size.width
        &&& view.config.height == view.size.height
        &&& !view.size.is_empty()
    }

    /// The instance buffer holds the transforms of all instances.
    pub open spec fn buffer_covers(view: WgpuRendererView) -> bool {
        view.capacity >= required_bytes(view.instances.len())
    }

    /// The state is consistent: the surface matches the window and the
    /// instance buffer holds all transforms.
    pub open spec fn wf(&self) -> bool {
        Self::surface_matches(self@) && Self::buffer_covers(self@)
    }

    /// `sync` is what brings a buffer of `capacity` bytes up to date with
    /// the instances of `after`, and `after` records the buffer's new size:
    /// every transform is sent, in order; a buffer that is too small is
    /// replaced by one of exactly the required size, and any other buffer is
    /// written from its start and keeps its size.
    pub open spec fn syncs(capacity: u64, after: WgpuRendererView, sync: BufferSync) -> bool {
        &&& is_words_image(sync.bytes(), transforms_words(after.instances))
        &&& after.capacity == capacity_after(capacity as int, after.instances.len())
        &&& sync is Replace <==> capacity < required_bytes(after.instances.len())
        &&& sync matches BufferSync::Write { offset, .. } ==> offset == 0
    }

    /// `after` is `before` with the instance `added` placed last and the
    /// instance buffer brought up to date by `sync`.
    pub open spec fn follows_add(
        before: WgpuRendererView,
        after: WgpuRendererView,
        sync: BufferSync,
        added: ObjectInstanceView,
    ) -> bool {
        &&& after.instances == before.instances.push(added)
        &&& after.size == before.size
        &&& after.config == before.config
        &&& Self::syncs(before.capacity, after, sync)
    }

    /// The frame that the state calls for: the clear colour, and, if there is
    /// any instance, one draw of the first instance's shape, repeated for
    /// every instance.
    pub open spec fn planned_frame(view: WgpuRendererView) -> FramePlan {
        FramePlan {
            clear_color: clear_color(),
            draw: if view.instances.len() == 0 {
                None
            } else {
                Some(
                    DrawCall {
                        geometry: 0,
                        index_count: view.instances[0].shape.indices_count,
                        instance_count: draw_count(view.instances.len()),
                    },
                )
            },
        }
    }

    /// A renderer for a window of extent `size` whose surface offers the
    /// texture formats that `srgb` describes. It has no instance yet and an
    /// empty instance buffer; the surface presents in `Fifo` mode with one
    /// frame in flight.
    pub fn init(size: PhysicalSize, srgb: &Vec<bool>) -> (renderer: Self)
        requires
            !size.is_empty(),
            srgb.len() > 0,
        ensures
            renderer@.size == size,
            renderer@.config.width == size.width,
            renderer@.config.height == size.height,
            is_chosen_format(srgb@, renderer@.config.format as int),
            renderer@.config.present_mode == PresentMode::Fifo,
            renderer@.config.desired_maximum_frame_latency == 1,
            renderer@.instances.len() == 0,
            renderer@.capacity == 0,
            renderer.wf(),
    {
        let format = choose_surface_format(srgb);
        let config = SurfaceConfiguration {
            format,
            width: size.width,
            height: size.height,
            present_mode: PresentMode::Fifo,
            desired_maximum_frame_latency: 1,
        };
        WgpuRenderer { size, config, instances: Vec::new(), instance_buffer: 0 }
    }

    /// The presentation parameters of the surface.
    pub fn config(&self) -> (config: SurfaceConfiguration)
        ensures
            config == self@.config,
    {
        self.config
    }

    /// The placed instances, oldest first.
    pub fn instances(&self) -> (instances: &Vec<ObjectInstance>)
        ensures
            instance_views(instances@) == self@.instances,
    {
        &self.instances
    }

    /// The size in bytes of the device's instance buffer.
    pub fn buffer_capacity(&self) -> (capacity: u64)
        ensures
            capacity == self@.capacity,
    {
        self.instance_buffer
    }

    /// Places one more instance of `shape` and brings the instance buffer up
    /// to date. The new instance comes last; every transform is sent to the
    /// device again.
    pub fn add_instance(&mut self, shape: ShapeData, position: [u32; 2], scale: [u32; 2]) -> (sync:
        BufferSync)
        ensures
            Self::follows_add(
                old(self)@,
                final(self)@,
                sync,
                ObjectInstanceView { shape: shape@, data: InstanceData { position, scale } },
            ),
            Self::buffer_covers(final(self)@),
            old(self).wf() ==> final(self).wf(),
    {
        let instance_data = InstanceData::new(position, scale);
        let ghost before = self.instances@;
        self.instances.push(ObjectInstance::new(shape, instance_data));
        proof {
            assert(instance_views(self.instances@) =~= instance_views(before).push(
                ObjectInstanceView { shape: shape@, data: InstanceData { position, scale } },
            ));
        }
        self.update_instance_buffer()
    }

    /// Places a batch of instances at once and brings the instance buffer up
    /// to date a single time. The instances of the batch come last, in the
    /// order of the batch.
    pub fn add_instances(&mut self, batch: Vec<ObjectInstance>) -> (sync: BufferSync)
        ensures
            final(self)@.instances == old(self)@.instances + instance_views(batch@),
            final(self)@.size == old(self)@.size,
            final(self)@.config == old(self)@.config,
            Self::syncs(old(self)@.capacity, final(self)@, sync),
            Self::buffer_covers(final(self)@),
            old(self).wf() ==> final(self).wf(),
    {
        let ghost before = self.instances@;
        let ghost added = batch@;
        let mut rest = batch;
        self.instances.append(&mut rest);
        proof {
            assert(instance_views(self.instances@) =~= instance_views(before) + instance_views(
                added,
            ));
        }
        self.update_instance_buffer()
    }

    /// Brings the instance buffer up to date with the instance list. Where
    /// the buffer is smaller than the transforms, a new buffer of exactly
    /// their size replaces it; else they are written into it from the start.
    /// The buffer never shrinks.
    pub fn update_instance_buffer(&mut self) -> (sync: BufferSync)
        ensures
            final(self)@.instances == old(self)@.instances,
            final(self)@.size == old(self)@.size,
            final(self)@.config == old(self)@.config,
            Self::syncs(old(self)@.capacity, final(self)@, sync),
            Self::buffer_covers(final(self)@),
            old(self).wf() ==> final(self).wf(),
    {
        let words = words_of_transforms(&self.instances);
        let contents = word_bytes(&words);
        let buffer_size: u64 = contents.len() as u64;
        if self.instance_buffer < buffer_size {
            self.instance_buffer = buffer_size;
            BufferSync::Replace { contents }
        } else {
            BufferSync::Write { offset: 0, contents }
        }
    }

    /// Registers a shape: lays its vertices and its indices out as the bytes
    /// of two device buffers, each exactly as long as its data, and counts
    /// the indices.
    pub fn create_shape(&self, shape: Shape) -> (data: ShapeData)
        ensures
            is_upload_of(data@, shape@),
    {
        let words = words_of_vertices(&shape.vertices);
        let vertex_buffer = word_bytes(&words);
        let index_buffer = half_bytes(&shape.indices);
        ShapeData { vertex_buffer, index_buffer, indices_count: count_for_draw(shape.indices.len()) }
    }
}

impl Renderer for WgpuRenderer {
    open spec fn extent(&self) -> PhysicalSize {
        self@.size
    }

    open spec fn frame(&self) -> FramePlan {
        Self::planned_frame(self@)
    }

    /// Plans the next frame: one pass that clears to the clear colour and
    /// draws the first instance's shape once for every instance. Instances
    /// of other shapes are drawn with that first shape's geometry too.
    fn render(&self) -> (plan: FramePlan) {
        let draw = if self.instances.len() == 0 {
            None
        } else {
            Some(
                DrawCall {
                    geometry: 0,
                    index_count: self.instances[0].shape.indices_count,
                    instance_count: count_for_draw(self.instances.len()),
                },
            )
        };
        FramePlan {
            clear_color: [0x3f88_1818_18b3_51bdu64, 0x3fe9_4000_0000_0000u64,
                0x3fef_8000_0000_0000u64, 0x3ff0_0000_0000_0000u64],
            draw,
        }
    }

    /// Takes a new extent for the window and the surface. An extent without
    /// area changes nothing.
    fn resize(&mut self, size: PhysicalSize) -> (applied: bool)
        ensures
            final(self)@ == (if applied {
                WgpuRendererView {
                    size,
                    config: SurfaceConfiguration {
                        width: size.width,
                        height: size.height,
                        ..old(self)@.config
                    },
                    ..old(self)@
                }
            } else {
                old(self)@
            }),
            old(self).wf() ==> final(self).wf(),
    {
        if size.width == 0 || size.height == 0 {
            return false;
        }
        self.size = size;
        self.config.width = size.width;
        self.config.height = size.height;
        true
    }
}

} // verus!
