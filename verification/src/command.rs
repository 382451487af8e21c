//! Command buffers: the recorded stream, the lifecycle it moves through, and the
//! token that hands an ended buffer to a queue.

use vstd::prelude::*;
use crate::error::{Error, FenceStatus, Misuse, NATIVE_DEVICE_LOST, NATIVE_SUCCESS};

verus! {

/// The driver's handle of a command buffer, as the 64-bit value that the driver
/// gave out. The handle is only stored, copied and compared.
pub type NativeHandle = u64;

/// Identifies a resource that the device created.
pub type ResourceId = u64;

/// Width of the indices in an index buffer.
#[derive(Clone, Copy, Debug, PartialEq, Eq, Structural)]
pub enum IndexType {
    U16,
    U32,
}

/// A rectangle of a render target, in pixels.
#[derive(Clone, Copy, Debug, PartialEq, Eq, Structural)]
pub struct Rect {
    pub x: u16,
    pub y: u16,
    pub w: u16,
    pub h: u16,
}

/// Reference values of the stencil test and the blend stage. The four blend
/// components are the bit patterns of single-precision numbers.
#[derive(Clone, Copy, Debug, PartialEq, Eq)]
pub struct RefValues {
    pub stencil_front: u8,
    pub stencil_back: u8,
    pub blend: [u32; 4],
}

/// Dimensions of a texture.
#[derive(Clone, Copy, Debug, PartialEq, Eq, Structural)]
pub enum TextureKind {
    D1(u16),
    D2(u16, u16),
    D3(u16, u16, u16),
    Cube(u16),
}

/// One face of a cube texture.
#[derive(Clone, Copy, Debug, PartialEq, Eq, Structural)]
pub enum CubeFace {
    PosX,
    NegX,
    PosY,
    NegY,
    PosZ,
    NegZ,
}

/// The region of a texture that a copy or an update touches.
#[derive(Clone, Copy, Debug, PartialEq, Eq, Structural)]
pub struct ImageInfo {
    pub xoffset: u16,
    pub yoffset: u16,
    pub zoffset: u16,
    pub width: u16,
    pub height: u16,
    pub depth: u16,
    pub format: u32,
    pub mipmap: u8,
}

/// A value for a single shader constant. Floating-point values are given by their
/// bit patterns.
#[derive(Clone, Copy, Debug, PartialEq, Eq)]
pub enum UniformValue {
    I32(i32),
    U32(u32),
    F32(u32),
    I32Vector4([i32; 4]),
    F32Vector4([u32; 4]),
}

/// The value a colour target is cleared to. Floating-point components are given by
/// their bit patterns.
#[derive(Clone, Copy, Debug, PartialEq, Eq)]
pub enum ClearColor {
    Float([u32; 4]),
    Int([i32; 4]),
    Uint([u32; 4]),
}

/// One recorded operation. Nothing executes until the buffer is submitted.
#[derive(Clone, Debug, PartialEq, Eq)]
#[allow(inconsistent_fields)]
pub enum Command {
    BindPipelineState { pipeline: ResourceId },
    BindVertexBuffers { buffers: Vec<(ResourceId, usize)> },
    BindConstantBuffers { buffers: Vec<ResourceId> },
    BindGlobalConstant { location: usize, value: UniformValue },
    BindResourceViews { views: Vec<ResourceId> },
    BindUnorderedViews { views: Vec<ResourceId> },
    BindSamplers { samplers: Vec<ResourceId> },
    BindPixelTargets { colors: Vec<ResourceId>, depth: Option<ResourceId>, stencil: Option<ResourceId> },
    BindIndex { buffer: ResourceId, index_type: IndexType },
    SetScissor { rect: Rect },
    SetRefValues { values: RefValues },
    CopyBuffer { src: ResourceId, dst: ResourceId, src_offset_bytes: usize, dst_offset_bytes: usize, size_bytes: usize },
    CopyBufferToTexture { src: ResourceId, src_offset_bytes: usize, dst: ResourceId, kind: TextureKind, face: Option<CubeFace>, img: ImageInfo },
    CopyTextureToBuffer { src: ResourceId, kind: TextureKind, face: Option<CubeFace>, img: ImageInfo, dst: ResourceId, dst_offset_bytes: usize },
    UpdateBuffer { buffer: ResourceId, data: Vec<u8>, offset: usize },
    UpdateTexture { texture: ResourceId, kind: TextureKind, face: Option<CubeFace>, data: Vec<u8>, image: ImageInfo },
    GenerateMipmap { view: ResourceId },
    ClearColor { target: ResourceId, value: ClearColor },
    ClearDepthStencil { target: ResourceId, depth: Option<u32>, stencil: Option<u8> },
    Draw { start: u32, count: u32, instances: Option<(u32, u32)> },
    DrawIndexed { start: u32, count: u32, base: u32, instances: Option<(u32, u32)> },
}

impl Command {
    /// Whether the operation may stand inside a render-pass subpass: state changes,
    /// clears and draws may; transfers between resources may not.
    pub open spec fn in_subpass(self) -> bool {
        !(self is CopyBuffer || self is CopyBufferToTexture || self is CopyTextureToBuffer
            || self is UpdateBuffer || self is UpdateTexture || self is GenerateMipmap)
    }

    /// Whether the operation names the resource with this id, as something it
    /// binds, reads, writes or clears.
    pub open spec fn uses(self, id: ResourceId) -> bool {
        match self {
            Command::BindPipelineState { pipeline } => pipeline == id,
            Command::BindVertexBuffers { buffers } => exists|i: int|
                0 <= i < buffers@.len() && (#[trigger] buffers@[i]).0 == id,
            Command::BindConstantBuffers { buffers } => buffers@.contains(id),
            Command::BindGlobalConstant { .. } => false,
            Command::BindResourceViews { views } => views@.contains(id),
            Command::BindUnorderedViews { views } => views@.contains(id),
            Command::BindSamplers { samplers } => samplers@.contains(id),
            Command::BindPixelTargets { colors, depth, stencil } => colors@.contains(id) || depth
                == Some(id) || stencil == Some(id),
            Command::BindIndex { buffer, .. } => buffer == id,
            Command::SetScissor { .. } => false,
            Command::SetRefValues { .. } => false,
            Command::CopyBuffer { src, dst, .. } => src == id || dst == id,
            Command::CopyBufferToTexture { src, dst, .. } => src == id || dst == id,
            Command::CopyTextureToBuffer { src, dst, .. } => src == id || dst == id,
            Command::UpdateBuffer { buffer, .. } => buffer == id,
            Command::UpdateTexture { texture, .. } => texture == id,
            Command::GenerateMipmap { view } => view == id,
            Command::ClearColor { target, .. } => target == id,
            Command::ClearDepthStencil { target, .. } => target == id,
            Command::Draw { .. } => false,
            Command::DrawIndexed { .. } => false,
        }
    }

    /// Decides whether the operation names the resource with this id.
    pub fn references(&self, id: ResourceId) -> (yes: bool)
        ensures
            yes == self.uses(id),
    {
        match self {
            Command::BindPipelineState { pipeline } => *pipeline == id,
            Command::BindVertexBuffers { buffers } => binds(buffers, id),
            Command::BindConstantBuffers { buffers } => holds(buffers, id),
            Command::BindGlobalConstant { .. } => false,
            Command::BindResourceViews { views } => holds(views, id),
            Command::BindUnorderedViews { views } => holds(views, id),
            Command::BindSamplers { samplers } => holds(samplers, id),
            Command::BindPixelTargets { colors, depth, stencil } => {
                holds(colors, id) || is_id(depth, id) || is_id(stencil, id)
            },
            Command::BindIndex { buffer, .. } => *buffer == id,
            Command::SetScissor { .. } => false,
            Command::SetRefValues { .. } => false,
            Command::CopyBuffer { src, dst, .. } => *src == id || *dst == id,
            Command::CopyBufferToTexture { src, dst, .. } => *src == id || *dst == id,
            Command::CopyTextureToBuffer { src, dst, .. } => *src == id || *dst == id,
            Command::UpdateBuffer { buffer, .. } => *buffer == id,
            Command::UpdateTexture { texture, .. } => *texture == id,
            Command::GenerateMipmap { view } => *view == id,
            Command::ClearColor { target, .. } => *target == id,
            Command::ClearDepthStencil { target, .. } => *target == id,
            Command::Draw { .. } => false,
            Command::DrawIndexed { .. } => false,
        }
    }

    /// Decides whether the operation may stand inside a render-pass subpass.
    pub fn allowed_in_subpass(&self) -> (allowed: bool)
        ensures
            allowed == self.in_subpass(),
    {
        match self {
            Command::CopyBuffer { .. } => false,
            Command::CopyBufferToTexture { .. } => false,
            Command::CopyTextureToBuffer { .. } => false,
            Command::UpdateBuffer { .. } => false,
            Command::UpdateTexture { .. } => false,
            Command::GenerateMipmap { .. } => false,
            _ => true,
        }
    }
}

/// Decides whether a list of ids holds `id`.
fn holds(ids: &Vec<ResourceId>, id: ResourceId) -> (yes: bool)
    ensures
        yes == ids@.contains(id),
{
    let mut i: usize = 0;
    while i < ids.len()
        invariant
            i <= ids@.len(),
            forall|k: int| 0 <= k < i ==> ids@[k] != id,
        decreases ids@.len() - i,
    {
        if ids[i] == id {
            assert(ids@[i as int] == id);
            return true;
        }
        i = i + 1;
    }
    false
}

/// Decides whether a list of bound vertex buffers holds the buffer `id`.
fn binds(buffers: &Vec<(ResourceId, usize)>, id: ResourceId) -> (yes: bool)
    ensures
        yes == exists|i: int| 0 <= i < buffers@.len() && (#[trigger] buffers@[i]).0 == id,
{
    let mut i: usize = 0;
    while i < buffers.len()
        invariant
            i <= buffers@.len(),
            forall|k: int| 0 <= k < i ==> (#[trigger] buffers@[k]).0 != id,
        decreases buffers@.len() - i,
    {
        if buffers[i].0 == id {
            assert(buffers@[i as int].0 == id);
            return true;
        }
        i = i + 1;
    }
    false
}

/// Decides whether an optional id is `id`.
fn is_id(slot: &Option<ResourceId>, id: ResourceId) -> (yes: bool)
    ensures
        yes == (*slot == Some(id)),
{
    match slot {
        Some(held) => *held == id,
        None => false,
    }
}

/// Where a command buffer stands in its lifecycle. Allocation and a successful
/// reset both leave the buffer recording.
#[derive(Clone, Copy, Debug, PartialEq, Eq, Structural)]
pub enum State {
    /// Operations are appended to the stream.
    Recording,
    /// The stream is final and a token for it has been handed out.
    Ended,
    /// A queue has taken the buffer; the device may be executing it.
    Submitted,
    /// The device was observed to have finished the last submission.
    Completed,
}

/// The token that hands an ended command buffer to a queue.
#[derive(Clone, Copy, Debug, PartialEq, Eq, Structural)]
pub struct SubmitInfo {
    /// The native handle of the ended buffer.
    pub command_buffer: NativeHandle,
    /// The queue family the buffer was allocated for.
    pub family: u32,
}

/// Why a command buffer could not be ended.
#[derive(Clone, Copy, Debug, PartialEq, Eq, Structural)]
pub enum EndError {
    /// The buffer was not recording.
    Misuse(Misuse),
    /// The native layer refused to finalize the stream.
    Native(Error),
}

/// What a command buffer is, to a contract.
pub struct CommandBufferView {
    pub raw: NativeHandle,
    pub family: u32,
    pub state: State,
    pub stream: Seq<Command>,
}

impl CommandBufferView {
    /// A buffer as allocation leaves it: recording, with nothing recorded.
    pub open spec fn fresh(raw: NativeHandle, family: u32) -> CommandBufferView {
        CommandBufferView { raw, family, state: State::Recording, stream: Seq::empty() }
    }

    /// The buffer with one more operation at the end of its stream.
    pub open spec fn record(self, cmd: Command) -> CommandBufferView {
        CommandBufferView { stream: self.stream.push(cmd), ..self }
    }

    /// The buffer with a sequence of operations appended in order.
    pub open spec fn replay(self, cmds: Seq<Command>) -> CommandBufferView {
        CommandBufferView { stream: self.stream + cmds, ..self }
    }

    /// The buffer in another state, all else kept.
    pub open spec fn moved_to(self, state: State) -> CommandBufferView {
        CommandBufferView { state, ..self }
    }

    /// The buffer after a reset: recording again, the old stream discarded.
    pub open spec fn reset(self) -> CommandBufferView {
        Self::fresh(self.raw, self.family)
    }

    /// Whether the buffer keeps the resource with this id from being destroyed:
    /// its stream names the resource, and the device has not been observed to have
    /// finished with the stream.
    pub open spec fn pins(self, id: ResourceId) -> bool {
        self.state != State::Completed && exists|i: int|
            0 <= i < self.stream.len() && (#[trigger] self.stream[i]).uses(id)
    }

    /// What recording `cmd` does: the operation is appended while the buffer is
    /// recording; in any other state the call is refused and nothing changes.
    pub open spec fn recorded(self, cmd: Command, after: CommandBufferView, r: Result<(), Misuse>) -> bool {
        if self.state == State::Recording {
            r is Ok && after == self.record(cmd)
        } else {
            r == Err::<(), Misuse>(Misuse::NotRecording) && after == self
        }
    }

    /// What ending does, given the result code of the native finalize call.
    pub open spec fn ended(self, native: i32, after: CommandBufferView, r: Result<SubmitInfo, EndError>) -> bool {
        if self.state != State::Recording {
            r == Err::<SubmitInfo, EndError>(EndError::Misuse(Misuse::NotRecording)) && after == self
        } else if native == NATIVE_SUCCESS {
            r == Ok::<SubmitInfo, EndError>(SubmitInfo { command_buffer: self.raw, family: self.family })
                && after == self.moved_to(State::Ended)
        } else if native == NATIVE_DEVICE_LOST {
            r == Err::<SubmitInfo, EndError>(EndError::Native(Error::DeviceLost)) && after == self
        } else {
            r == Err::<SubmitInfo, EndError>(EndError::Native(Error::SubmissionRejected)) && after == self
        }
    }
}

/// A recording target for GPU operations.
pub struct CommandBuffer {
    /// The native handle that backs the buffer.
    pub raw: NativeHandle,
    pub(crate) family: u32,
    pub(crate) state: State,
    pub(crate) stream: Vec<Command>,
}

impl View for CommandBuffer {
    type V = CommandBufferView;

    closed spec fn view(&self) -> CommandBufferView {
        CommandBufferView { raw: self.raw, family: self.family, state: self.state, stream: self.stream@ }
    }
}

impl CommandBuffer {
    /// Takes a freshly allocated native buffer into use for one queue family. The
    /// buffer is recording and its stream is empty.
    pub fn new(raw: NativeHandle, family: u32) -> (buffer: CommandBuffer)
        ensures
            buffer@ == CommandBufferView::fresh(raw, family),
    {
        CommandBuffer { raw, family, state: State::Recording, stream: Vec::new() }
    }

    /// The native handle that backs the buffer.
    pub fn handle(&self) -> (raw: NativeHandle)
        ensures
            raw == self@.raw,
    {
        self.raw
    }

    /// Puts an ended buffer in flight, as a queue does when it takes the buffer.
    pub(crate) fn mark_submitted(&mut self)
        requires
            old(self)@.state == State::Ended,
        ensures
            final(self)@ == old(self)@.moved_to(State::Submitted),
    {
        self.state = State::Submitted;
    }

    /// The state the buffer is in.
    pub fn state(&self) -> (state: State)
        ensures
            state == self@.state,
    {
        self.state
    }

    /// The queue family the buffer was allocated for.
    pub fn family(&self) -> (family: u32)
        ensures
            family == self@.family,
    {
        self.family
    }

    /// The operations recorded so far, oldest first.
    pub fn commands(&self) -> (stream: &Vec<Command>)
        ensures
            stream@ == self@.stream,
    {
        &self.stream
    }

    /// Decides whether the buffer keeps the resource with this id from being
    /// destroyed.
    pub fn pins(&self, id: ResourceId) -> (yes: bool)
        ensures
            yes == self@.pins(id),
    {
        match self.state {
            State::Completed => false,
            _ => {
                let mut i: usize = 0;
                while i < self.stream.len()
                    invariant
                        i <= self.stream@.len(),
                        self.state != State::Completed,
                        forall|k: int| 0 <= k < i ==> !(#[trigger] self.stream@[k]).uses(id),
                    decreases self.stream@.len() - i,
                {
                    if self.stream[i].references(id) {
                        assert(self@.stream[i as int].uses(id));
                        return true;
                    }
                    i = i + 1;
                }
                false
            },
        }
    }

    /// Appends one operation to the stream. Refused, with the buffer untouched,
    /// unless the buffer is recording.
    pub fn record(&mut self, cmd: Command) -> (r: Result<(), Misuse>)
        ensures
            old(self)@.recorded(cmd, final(self)@, r),
    {
        match self.state {
            State::Recording => {
                self.stream.push(cmd);
                Ok(())
            },
            _ => Err(Misuse::NotRecording),
        }
    }

    /// Finalizes the stream. `native` is the result code of the driver's finalize
    /// call for this buffer. On success the buffer is ended and the token for a
    /// queue is returned. A buffer that is not recording is left as it is, and so
    /// is one whose finalize call the driver refused.
    pub fn end(&mut self, native: i32) -> (r: Result<SubmitInfo, EndError>)
        ensures
            old(self)@.ended(native, final(self)@, r),
    {
        match self.state {
            State::Recording => {
                if native == NATIVE_SUCCESS {
                    self.state = State::Ended;
                    Ok(SubmitInfo { command_buffer: self.raw, family: self.family })
                } else if native == NATIVE_DEVICE_LOST {
                    Err(EndError::Native(Error::DeviceLost))
                } else {
                    Err(EndError::Native(Error::SubmissionRejected))
                }
            },
            _ => Err(EndError::Misuse(Misuse::NotRecording)),
        }
    }

    /// Takes in what a wait on the fence of the last submission reported. A
    /// signaled fence completes a submitted buffer; a timeout leaves it in flight.
    /// Returns the state the buffer is in afterwards. Refused unless the buffer is
    /// submitted.
    pub fn observe_fence(&mut self, status: FenceStatus) -> (r: Result<State, Misuse>)
        ensures
            old(self)@.state != State::Submitted ==> r == Err::<State, Misuse>(Misuse::NotSubmitted)
                && final(self)@ == old(self)@,
            old(self)@.state == State::Submitted && status == FenceStatus::Signaled ==> r == Ok::<
                State,
                Misuse,
            >(State::Completed) && final(self)@ == old(self)@.moved_to(State::Completed),
            old(self)@.state == State::Submitted && status == FenceStatus::TimedOut ==> r == Ok::<
                State,
                Misuse,
            >(State::Submitted) && final(self)@ == old(self)@,
    {
        match self.state {
            State::Submitted => {
                match status {
                    FenceStatus::Signaled => {
                        self.state = State::Completed;
                        Ok(State::Completed)
                    },
                    FenceStatus::TimedOut => Ok(State::Submitted),
                }
            },
            _ => Err(Misuse::NotSubmitted),
        }
    }

    /// Returns the buffer to the recording state and discards its stream. Refused,
    /// with the buffer untouched, while the last submission is in flight.
    pub fn reset(&mut self) -> (r: Result<(), Misuse>)
        ensures
            old(self)@.state == State::Submitted ==> r == Err::<(), Misuse>(Misuse::InFlight)
                && final(self)@ == old(self)@,
            old(self)@.state != State::Submitted ==> r is Ok && final(self)@ == old(self)@.reset(),
    {
        match self.state {
            State::Submitted => Err(Misuse::InFlight),
            _ => {
                self.state = State::Recording;
                self.stream.clear();
                Ok(())
            },
        }
    }
}

impl CommandBuffer {
    /// Selects the pipeline state for the draws that follow.
    pub fn bind_pipeline_state(&mut self, pipeline: ResourceId) -> (r: Result<(), Misuse>)
        ensures
            old(self)@.recorded((Command::BindPipelineState { pipeline }), final(self)@, r),
    {
        self.record(Command::BindPipelineState { pipeline })
    }

    /// Binds vertex buffers, each with the byte offset its data starts at.
    pub fn bind_vertex_buffers(&mut self, buffers: Vec<(ResourceId, usize)>) -> (r: Result<(), Misuse>)
        ensures
            old(self)@.recorded((Command::BindVertexBuffers { buffers }), final(self)@, r),
    {
        self.record(Command::BindVertexBuffers { buffers })
    }

    /// Binds constant buffers to consecutive slots.
    pub fn bind_constant_buffers(&mut self, buffers: Vec<ResourceId>) -> (r: Result<(), Misuse>)
        ensures
            old(self)@.recorded((Command::BindConstantBuffers { buffers }), final(self)@, r),
    {
        self.record(Command::BindConstantBuffers { buffers })
    }

    /// Sets one shader constant by its location.
    pub fn bind_global_constant(&mut self, location: usize, value: UniformValue) -> (r: Result<(), Misuse>)
        ensures
            old(self)@.recorded((Command::BindGlobalConstant { location, value }), final(self)@, r),
    {
        self.record(Command::BindGlobalConstant { location, value })
    }

    /// Binds shader resource views to consecutive slots.
    pub fn bind_resource_views(&mut self, views: Vec<ResourceId>) -> (r: Result<(), Misuse>)
        ensures
            old(self)@.recorded((Command::BindResourceViews { views }), final(self)@, r),
    {
        self.record(Command::BindResourceViews { views })
    }

    /// Binds unordered access views to consecutive slots.
    pub fn bind_unordered_views(&mut self, views: Vec<ResourceId>) -> (r: Result<(), Misuse>)
        ensures
            old(self)@.recorded((Command::BindUnorderedViews { views }), final(self)@, r),
    {
        self.record(Command::BindUnorderedViews { views })
    }

    /// Binds samplers to consecutive slots.
    pub fn bind_samplers(&mut self, samplers: Vec<ResourceId>) -> (r: Result<(), Misuse>)
        ensures
            old(self)@.recorded((Command::BindSamplers { samplers }), final(self)@, r),
    {
        self.record(Command::BindSamplers { samplers })
    }

    /// Binds the colour, depth and stencil targets that draws write to.
    pub fn bind_pixel_targets(&mut self, colors: Vec<ResourceId>, depth: Option<ResourceId>, stencil: Option<ResourceId>) -> (r: Result<(), Misuse>)
        ensures
            old(self)@.recorded((Command::BindPixelTargets { colors, depth, stencil }), final(self)@, r),
    {
        self.record(Command::BindPixelTargets { colors, depth, stencil })
    }

    /// Binds the index buffer for indexed draws.
    pub fn bind_index(&mut self, buffer: ResourceId, index_type: IndexType) -> (r: Result<(), Misuse>)
        ensures
            old(self)@.recorded((Command::BindIndex { buffer, index_type }), final(self)@, r),
    {
        self.record(Command::BindIndex { buffer, index_type })
    }

    /// Restricts drawing to a rectangle.
    pub fn set_scissor(&mut self, rect: Rect) -> (r: Result<(), Misuse>)
        ensures
            old(self)@.recorded((Command::SetScissor { rect }), final(self)@, r),
    {
        self.record(Command::SetScissor { rect })
    }

    /// Sets the stencil and blend reference values.
    pub fn set_ref_values(&mut self, values: RefValues) -> (r: Result<(), Misuse>)
        ensures
            old(self)@.recorded((Command::SetRefValues { values }), final(self)@, r),
    {
        self.record(Command::SetRefValues { values })
    }

    /// Copies a range of bytes from one buffer to another.
    pub fn copy_buffer(&mut self, src: ResourceId, dst: ResourceId, src_offset_bytes: usize, dst_offset_bytes: usize, size_bytes: usize) -> (r: Result<(), Misuse>)
        ensures
            old(self)@.recorded((Command::CopyBuffer { src, dst, src_offset_bytes, dst_offset_bytes, size_bytes }), final(self)@, r),
    {
        self.record(Command::CopyBuffer { src, dst, src_offset_bytes, dst_offset_bytes, size_bytes })
    }

    /// Copies buffer contents into a region of a texture.
    pub fn copy_buffer_to_texture(&mut self, src: ResourceId, src_offset_bytes: usize, dst: ResourceId, kind: TextureKind, face: Option<CubeFace>, img: ImageInfo) -> (r: Result<(), Misuse>)
        ensures
            old(self)@.recorded((Command::CopyBufferToTexture { src, src_offset_bytes, dst, kind, face, img }), final(self)@, r),
    {
        self.record(Command::CopyBufferToTexture { src, src_offset_bytes, dst, kind, face, img })
    }

    /// Copies a region of a texture into a buffer.
    pub fn copy_texture_to_buffer(&mut self, src: ResourceId, kind: TextureKind, face: Option<CubeFace>, img: ImageInfo, dst: ResourceId, dst_offset_bytes: usize) -> (r: Result<(), Misuse>)
        ensures
            old(self)@.recorded((Command::CopyTextureToBuffer { src, kind, face, img, dst, dst_offset_bytes }), final(self)@, r),
    {
        self.record(Command::CopyTextureToBuffer { src, kind, face, img, dst, dst_offset_bytes })
    }

    /// Overwrites part of a buffer with the given bytes.
    pub fn update_buffer(&mut self, buffer: ResourceId, data: Vec<u8>, offset: usize) -> (r: Result<(), Misuse>)
        ensures
            old(self)@.recorded((Command::UpdateBuffer { buffer, data, offset }), final(self)@, r),
    {
        self.record(Command::UpdateBuffer { buffer, data, offset })
    }

    /// Overwrites a region of a texture with the given bytes.
    pub fn update_texture(&mut self, texture: ResourceId, kind: TextureKind, face: Option<CubeFace>, data: Vec<u8>, image: ImageInfo) -> (r: Result<(), Misuse>)
        ensures
            old(self)@.recorded((Command::UpdateTexture { texture, kind, face, data, image }), final(self)@, r),
    {
        self.record(Command::UpdateTexture { texture, kind, face, data, image })
    }

    /// Fills the lower mipmap levels of the viewed texture from its top level.
    pub fn generate_mipmap(&mut self, view: ResourceId) -> (r: Result<(), Misuse>)
        ensures
            old(self)@.recorded((Command::GenerateMipmap { view }), final(self)@, r),
    {
        self.record(Command::GenerateMipmap { view })
    }

    /// Clears a colour target to one value.
    pub fn clear_color(&mut self, target: ResourceId, value: ClearColor) -> (r: Result<(), Misuse>)
        ensures
            old(self)@.recorded((Command::ClearColor { target, value }), final(self)@, r),
    {
        self.record(Command::ClearColor { target, value })
    }

    /// Clears the depth part, the stencil part, or both, of a target. The depth is the bit pattern of a single-precision number.
    pub fn clear_depth_stencil(&mut self, target: ResourceId, depth: Option<u32>, stencil: Option<u8>) -> (r: Result<(), Misuse>)
        ensures
            old(self)@.recorded((Command::ClearDepthStencil { target, depth, stencil }), final(self)@, r),
    {
        self.record(Command::ClearDepthStencil { target, depth, stencil })
    }

    /// Draws `count` vertices from `start` on, optionally as a number of instances from a base instance.
    pub fn call_draw(&mut self, start: u32, count: u32, instances: Option<(u32, u32)>) -> (r: Result<(), Misuse>)
        ensures
            old(self)@.recorded((Command::Draw { start, count, instances }), final(self)@, r),
    {
        self.record(Command::Draw { start, count, instances })
    }

    /// Draws `count` indices from `start` on, each offset by `base`, optionally instanced.
    pub fn call_draw_indexed(&mut self, start: u32, count: u32, base: u32, instances: Option<(u32, u32)>) -> (r: Result<(), Misuse>)
        ensures
            old(self)@.recorded((Command::DrawIndexed { start, count, base, instances }), final(self)@, r),
    {
        self.record(Command::DrawIndexed { start, count, base, instances })
    }

}

/// A command buffer that records inside one subpass of a render pass. It ends as
/// any command buffer does, and takes only the operations that may stand inside a
/// subpass.
pub struct SubpassCommandBuffer(pub CommandBuffer);

impl SubpassCommandBuffer {
    /// Appends one operation to the wrapped buffer's stream. An operation that may
    /// not stand inside a subpass is refused before the buffer's state is looked at;
    /// otherwise the call behaves as recording into the wrapped buffer does.
    pub fn record(&mut self, cmd: Command) -> (r: Result<(), Misuse>)
        ensures
            !cmd.in_subpass() ==> r == Err::<(), Misuse>(Misuse::OutsideSubpass) && final(self).0@ == old(
                self,
            ).0@,
            cmd.in_subpass() ==> old(self).0@.recorded(cmd, final(self).0@, r),
    {
        if cmd.allowed_in_subpass() {
            self.0.record(cmd)
        } else {
            Err(Misuse::OutsideSubpass)
        }
    }

    /// Finalizes the wrapped buffer's stream, exactly as ending that buffer does.
    pub fn end(&mut self, native: i32) -> (r: Result<SubmitInfo, EndError>)
        ensures
            old(self).0@.ended(native, final(self).0@, r),
    {
        self.0.end(native)
    }
}

/// Recording a sequence of operations one by one, as a specification: the buffer
/// after each call in turn, starting from `v`.
pub open spec fn record_all(v: CommandBufferView, cmds: Seq<Command>) -> CommandBufferView
    decreases cmds.len(),
{
    if cmds.len() == 0 {
        v
    } else {
        record_all(v, cmds.drop_last()).record(cmds.last())
    }
}

/// Recording operations one by one into a recording buffer appends exactly those
/// operations, in order, and changes nothing else.
pub proof fn lemma_record_all_appends(v: CommandBufferView, cmds: Seq<Command>)
    ensures
        record_all(v, cmds) == v.replay(cmds),
    decreases cmds.len(),
{
    if cmds.len() == 0 {
        assert(v.stream + cmds =~= v.stream);
    } else {
        lemma_record_all_appends(v, cmds.drop_last());
        assert((v.stream + cmds.drop_last()).push(cmds.last()) =~= v.stream + cmds);
    }
}

/// A buffer that was reset cannot be told from a freshly allocated one: whatever it
/// held before, recording a sequence of operations after the reset leaves a stream
/// that is exactly that sequence, as it does for a new buffer.
pub proof fn lemma_reset_then_record_repeats(v: CommandBufferView, cmds: Seq<Command>)
    ensures
        record_all(v.reset(), cmds) == record_all(CommandBufferView::fresh(v.raw, v.family), cmds),
        record_all(v.reset(), cmds).stream == cmds,
        record_all(v.reset(), cmds).state == State::Recording,
{
    lemma_record_all_appends(v.reset(), cmds);
    assert(Seq::<Command>::empty() + cmds =~= cmds);
}

/// Once a buffer has left the recording state, neither recording nor ending a
/// second time changes it: both are refused and the stream that a queue will see
/// is the one that was ended.
pub proof fn lemma_ended_is_sealed(
    v: CommandBufferView,
    cmd: Command,
    native: i32,
    after: CommandBufferView,
    recorded: Result<(), Misuse>,
    ended: Result<SubmitInfo, EndError>,
)
    requires
        v.state != State::Recording,
    ensures
        v.recorded(cmd, after, recorded) ==> recorded is Err && after == v,
        v.ended(native, after, ended) ==> ended is Err && after == v,
{
}


} // verus!
