//! The device: the authority that creates resources, owns them until they are
//! destroyed, and hands out and resets command buffers.

use vstd::prelude::*;
use crate::command::{CommandBuffer, CommandBufferView, NativeHandle, ResourceId, State};
use crate::error::{Error, Misuse, NATIVE_DEVICE_LOST, NATIVE_SUCCESS};

verus! {

/// What kind of object a resource is.
#[derive(Clone, Copy, Debug, PartialEq, Eq, Structural)]
pub enum ResourceKind {
    Buffer,
    Texture,
    View,
    Sampler,
    Pipeline,
}

/// What is asked of the device when a resource is created. Format and usage are
/// the backend's own codes.
#[derive(Clone, Copy, Debug, PartialEq, Eq, Structural)]
pub struct Descriptor {
    pub kind: ResourceKind,
    pub size: usize,
    pub format: u32,
    pub usage: u32,
}

/// One combination of kind, format and usage that a backend can create.
#[derive(Clone, Copy, Debug, PartialEq, Eq, Structural)]
pub struct Support {
    pub kind: ResourceKind,
    pub format: u32,
    pub usage: u32,
}

/// What a device is, to a contract.
pub struct DeviceView {
    /// The combinations the backend can create.
    pub supported: Seq<Support>,
    /// One entry per resource ever created, in order of creation: whether the
    /// device still owns it. A resource's id is its position.
    pub live: Seq<bool>,
    /// Whether the native device was reported lost. A lost device owns nothing
    /// and creates nothing.
    pub lost: bool,
}

impl DeviceView {
    /// Whether the device can create what the descriptor asks for: something of a
    /// size above zero, in a combination the backend supports.
    pub open spec fn supports(self, desc: Descriptor) -> bool {
        desc.size > 0 && self.supported.contains(
            Support { kind: desc.kind, format: desc.format, usage: desc.usage },
        )
    }

    /// Whether the device owns a resource with this id.
    pub open spec fn owns(self, id: ResourceId) -> bool {
        !self.lost && id < self.live.len() && self.live[id as int]
    }

    /// The device after it was reported lost.
    pub open spec fn given_up(self) -> DeviceView {
        DeviceView { lost: true, ..self }
    }

    /// What creating a resource does, given the result code of the native
    /// creation call.
    pub open spec fn created(
        self,
        desc: Descriptor,
        native: i32,
        after: DeviceView,
        r: Result<ResourceId, Error>,
    ) -> bool {
        if self.lost {
            r == Err::<ResourceId, Error>(Error::DeviceLost) && after == self
        } else if !self.supports(desc) {
            r == Err::<ResourceId, Error>(Error::UnsupportedDescriptor) && after == self
        } else if native == NATIVE_SUCCESS {
            r == Ok::<ResourceId, Error>(self.live.len() as u64) && after == (DeviceView {
                live: self.live.push(true),
                ..self
            })
        } else if native == NATIVE_DEVICE_LOST {
            r == Err::<ResourceId, Error>(Error::DeviceLost) && after == self.given_up()
        } else {
            r == Err::<ResourceId, Error>(Error::AllocationFailure) && after == self
        }
    }

    /// What allocating a command buffer does, given what the driver's allocation
    /// gave: a handle, or the result code of its refusal.
    pub open spec fn allocated(
        self,
        family: u32,
        native: Result<NativeHandle, i32>,
        after: DeviceView,
        r: Result<CommandBuffer, Error>,
    ) -> bool {
        if self.lost {
            r is Err && r->Err_0 == Error::DeviceLost && after == self
        } else {
            match native {
                Ok(raw) => r is Ok && r->Ok_0@ == CommandBufferView::fresh(raw, family) && after == self,
                Err(code) => if code == NATIVE_DEVICE_LOST {
                    r is Err && r->Err_0 == Error::DeviceLost && after == self.given_up()
                } else {
                    r is Err && r->Err_0 == Error::AllocationFailure && after == self
                },
            }
        }
    }

    /// What destroying a resource does. `pinned` says whether a command buffer
    /// still keeps the resource. A resource the device owns and nothing keeps is
    /// given up, once; any other call is refused and nothing changes.
    pub open spec fn destroyed(
        self,
        id: ResourceId,
        pinned: bool,
        after: DeviceView,
        r: Result<(), Misuse>,
    ) -> bool {
        if !self.owns(id) {
            r == Err::<(), Misuse>(Misuse::NotOwned) && after == self
        } else if pinned {
            r == Err::<(), Misuse>(Misuse::InUse) && after == self
        } else {
            r is Ok && after == (DeviceView { live: self.live.update(id as int, false), ..self })
        }
    }
}

/// Whether one of the buffers keeps the resource with this id.
pub open spec fn pinned_by(buffers: Seq<&CommandBuffer>, id: ResourceId) -> bool {
    exists|i: int| 0 <= i < buffers.len() && (#[trigger] buffers[i])@.pins(id)
}

/// Decides whether one of the buffers keeps the resource with this id.
pub fn any_pins(buffers: &[&CommandBuffer], id: ResourceId) -> (yes: bool)
    ensures
        yes == pinned_by(buffers@, id),
{
    let mut i: usize = 0;
    while i < buffers.len()
        invariant
            i <= buffers@.len(),
            forall|k: int| 0 <= k < i ==> !(#[trigger] buffers@[k])@.pins(id),
        decreases buffers@.len() - i,
    {
        if buffers[i].pins(id) {
            assert(buffers@[i as int]@.pins(id));
            return true;
        }
        i = i + 1;
    }
    false
}

/// The resource factory and lifetime authority of an opened GPU.
pub struct Device {
    pub(crate) supported: Vec<Support>,
    pub(crate) live: Vec<bool>,
    pub(crate) lost: bool,
}

impl View for Device {
    type V = DeviceView;

    closed spec fn view(&self) -> DeviceView {
        DeviceView { supported: self.supported@, live: self.live@, lost: self.lost }
    }
}

impl Device {
    /// A device that owns nothing yet and can create the given combinations.
    pub fn new(supported: Vec<Support>) -> (device: Device)
        ensures
            device@ == (DeviceView { supported: supported@, live: Seq::empty(), lost: false }),
    {
        Device { supported, live: Vec::new(), lost: false }
    }

    /// Whether the native device was reported lost.
    pub fn is_lost(&self) -> (lost: bool)
        ensures
            lost == self@.lost,
    {
        self.lost
    }

    /// Takes note of a failure that any call on this device's queues, buffers or
    /// fences reported: a lost device is lost for everything derived from it.
    pub fn note(&mut self, failure: Error)
        ensures
            final(self)@ == if failure == Error::DeviceLost {
                old(self)@.given_up()
            } else {
                old(self)@
            },
    {
        match failure {
            Error::DeviceLost => {
                self.lost = true;
            },
            _ => {},
        }
    }

    /// Decides whether the device can create what the descriptor asks for. A
    /// backend asks this before it makes the native creation call.
    pub fn supports(&self, desc: &Descriptor) -> (yes: bool)
        ensures
            yes == self@.supports(*desc),
    {
        if desc.size == 0 {
            return false;
        }
        let wanted = Support { kind: desc.kind, format: desc.format, usage: desc.usage };
        let mut i: usize = 0;
        while i < self.supported.len()
            invariant
                i <= self.supported@.len(),
                desc.size > 0,
                wanted == (Support { kind: desc.kind, format: desc.format, usage: desc.usage }),
                forall|k: int| 0 <= k < i ==> self.supported@[k] != wanted,
            decreases self.supported@.len() - i,
        {
            if self.supported[i] == wanted {
                assert(self@.supported[i as int] == wanted);
                assert(self@.supported.contains(wanted));
                return true;
            }
            i = i + 1;
        }
        false
    }

    /// Whether the device owns a resource with this id.
    pub fn owns(&self, id: ResourceId) -> (yes: bool)
        ensures
            yes == self@.owns(id),
    {
        if !self.lost && id < self.live.len() as u64 {
            self.live[id as usize]
        } else {
            false
        }
    }

    /// Creates a resource. `native` is the result code of the driver's creation
    /// call. A lost device creates nothing. A descriptor the device cannot serve is
    /// refused as unsupported, whatever the driver said. Otherwise success gives
    /// the id of a resource that the device now owns, a lost device is reported
    /// and remembered as such, and every other code is an allocation failure,
    /// which changes nothing.
    pub fn create(&mut self, desc: Descriptor, native: i32) -> (r: Result<ResourceId, Error>)
        ensures
            old(self)@.created(desc, native, final(self)@, r),
    {
        if self.lost {
            Err(Error::DeviceLost)
        } else if !self.supports(&desc) {
            Err(Error::UnsupportedDescriptor)
        } else if native == NATIVE_SUCCESS {
            let id = self.live.len() as u64;
            self.live.push(true);
            Ok(id)
        } else if native == NATIVE_DEVICE_LOST {
            self.lost = true;
            Err(Error::DeviceLost)
        } else {
            Err(Error::AllocationFailure)
        }
    }

    /// Gives up a resource. `buffers` are the command buffers that may name it.
    /// Accepted once for each resource the device owns, and only while none of the
    /// buffers keeps the resource: a buffer keeps what its stream names until the
    /// device has been observed to have finished with it.
    pub fn destroy(&mut self, id: ResourceId, buffers: &[&CommandBuffer]) -> (r: Result<(), Misuse>)
        ensures
            old(self)@.destroyed(id, pinned_by(buffers@, id), final(self)@, r),
    {
        if !self.owns(id) {
            Err(Misuse::NotOwned)
        } else if any_pins(buffers, id) {
            Err(Misuse::InUse)
        } else {
            let owned: usize = self.live.len();
            assert(id < owned);
            self.live.set(id as usize, false);
            Ok(())
        }
    }

    /// Takes a command buffer into use for one queue family. `native` is what the
    /// driver's allocation gave: a handle, or the result code of its refusal. The
    /// buffer is recording and empty. A lost device allocates nothing, and a
    /// refusal that reports the device lost is remembered.
    pub fn allocate_command_buffer(&mut self, family: u32, native: Result<NativeHandle, i32>) -> (r:
        Result<CommandBuffer, Error>)
        ensures
            old(self)@.allocated(family, native, final(self)@, r),
    {
        if self.lost {
            return Err(Error::DeviceLost);
        }
        match native {
            Ok(raw) => Ok(CommandBuffer::new(raw, family)),
            Err(code) => {
                if code == NATIVE_DEVICE_LOST {
                    self.lost = true;
                    Err(Error::DeviceLost)
                } else {
                    Err(Error::AllocationFailure)
                }
            },
        }
    }

    /// Returns a command buffer to the recording state and discards its stream.
    /// Refused, with the buffer untouched, while its last submission is in flight.
    pub fn reset_command_buffer(&self, buffer: &mut CommandBuffer) -> (r: Result<(), Misuse>)
        ensures
            old(buffer)@.state == State::Submitted ==> r == Err::<(), Misuse>(Misuse::InFlight)
                && final(buffer)@ == old(buffer)@,
            old(buffer)@.state != State::Submitted ==> r is Ok && final(buffer)@ == old(buffer)@.reset(),
    {
        buffer.reset()
    }
}

/// Ids are handed out once: a resource that is created gets an id that the device
/// owned nothing under before, and every resource owned before is still owned.
pub proof fn lemma_created_is_new(
    device: DeviceView,
    desc: Descriptor,
    native: i32,
    after: DeviceView,
    id: ResourceId,
    other: ResourceId,
)
    requires
        device.created(desc, native, after, Ok(id)),
        device.live.len() <= u64::MAX,
    ensures
        !device.owns(id),
        after.owns(id),
        device.owns(other) ==> other != id && after.owns(other),
{
}

/// A destroyed resource cannot be destroyed again, and destroying it leaves every
/// other resource as it was.
pub proof fn lemma_destroyed_once(
    device: DeviceView,
    id: ResourceId,
    pinned: bool,
    after: DeviceView,
    pinned_again: bool,
    again: DeviceView,
    r: Result<(), Misuse>,
    other: ResourceId,
)
    requires
        device.destroyed(id, pinned, after, Ok(())),
        after.destroyed(id, pinned_again, again, r),
    ensures
        r == Err::<(), Misuse>(Misuse::NotOwned),
        again == after,
        other != id ==> after.owns(other) == device.owns(other),
{
}

/// A resource that a recorded, ended or in-flight buffer names outlives that
/// buffer's work: it cannot be destroyed while such a buffer is among those the
/// device is shown.
pub proof fn lemma_pinned_survives(
    device: DeviceView,
    id: ResourceId,
    buffers: Seq<&CommandBuffer>,
    after: DeviceView,
    r: Result<(), Misuse>,
)
    requires
        device.owns(id),
        pinned_by(buffers, id),
        device.destroyed(id, pinned_by(buffers, id), after, r),
    ensures
        r == Err::<(), Misuse>(Misuse::InUse),
        after.owns(id),
{
}

/// Once a device is lost it stays lost: it owns nothing, creates nothing and
/// allocates nothing, whatever the driver would say.
pub proof fn lemma_lost_is_final(
    device: DeviceView,
    id: ResourceId,
    desc: Descriptor,
    code: i32,
    family: u32,
    native: Result<NativeHandle, i32>,
    after: DeviceView,
    created: Result<ResourceId, Error>,
    allocated: Result<CommandBuffer, Error>,
)
    requires
        device.lost,
    ensures
        !device.owns(id),
        device.created(desc, code, after, created) ==> created == Err::<ResourceId, Error>(
            Error::DeviceLost,
        ) && after.lost,
        device.allocated(family, native, after, allocated) ==> allocated is Err && after.lost,
{
}

} // verus!
