//! The upscale operation as a state machine.
//!
//! The machine decides; the application acts. [`Upscaler::action`] names
//! the one thing to do next, with every parameter it needs. The
//! application does it and reports an [`Event`]. [`Upscaler::advance`]
//! takes the event and moves on: forward along the plan while everything
//! succeeds, into release as soon as anything fails or the plan is
//! complete. Release hands out one `Destroy` per live resource, in release
//! order, and then the final verdict.

use vstd::prelude::*;
use crate::device::{family_table, pick_physical_device, selected_device, DeviceChoice, QueueFamily};
use crate::error::UpscaleError;
use crate::geometry::{
    buffer_len, byte_len, dispatch_grid, factor_in_range, groups_for, is_valid_factor,
    output_extent, output_fits,
};
use crate::memory::{find_memory_type, selected_memory_type, MemoryType, HOST_VISIBLE_COHERENT};
use crate::resources::{
    flag_weight, release_order_respects_dependencies, release_rank, BufferSlot, LiveSet,
    Resource, RESOURCE_COUNT,
};
use crate::steps::{
    acquired_before, acquires, creator, following, plan_creates_in_dependency_order,
    plan_is_a_chain, plan_keeps_dependencies, plan_tracks_resources, position, Step, STEP_COUNT,
};

verus! {

/// Whether the machine still moves forward or already releases.
#[derive(Clone, Copy, Debug, PartialEq, Eq)]
pub enum Phase {
    /// The given step of the plan is pending.
    Forward(Step),
    /// The plan is over, by completion or by failure; what is live is
    /// being released.
    Unwinding,
}

/// What the application reports after performing an action.
#[derive(Debug)]
pub enum Event {
    /// The action succeeded and has nothing to report.
    Completed,
    /// The action failed.
    Failed,
    /// The enumerated devices, each with its queue families.
    Devices(Vec<Vec<QueueFamily>>),
    /// The extent of the decoded image and the length of its pixel data.
    Decoded { width: u32, height: u32, len: usize },
    /// The memory requirements of a buffer and the memory types of the
    /// device.
    MemoryReport { size: u64, type_bits: u32, types: Vec<MemoryType> },
}

/// What the application is to do next.
#[derive(Clone, Copy, Debug, PartialEq, Eq)]
pub enum Action {
    /// Make the driver loader configuration discoverable.
    PrepareDriver,
    /// Load the entry points of the graphics API.
    LoadEntry,
    /// Create the API instance with portability enumeration enabled.
    CreateInstance,
    /// Enumerate the physical devices and report their queue families.
    EnumerateDevices,
    /// Create the logical device on the chosen physical device, with one
    /// queue of the chosen family.
    CreateDevice { choice: DeviceChoice },
    /// Fetch queue 0 of the given family.
    AcquireQueue { queue_family_index: u32 },
    /// Load the kernel binary into a shader module.
    CreateShaderModule,
    /// Declare the two storage-buffer bindings of the compute stage.
    CreateDescriptorSetLayout,
    /// Combine the bindings with the push-parameter range.
    CreatePipelineLayout,
    /// Compile the compute pipeline.
    CreatePipeline,
    /// Decode the source image and report its extent.
    DecodeImage,
    /// Create a storage buffer of `size` bytes.
    CreateBuffer { slot: BufferSlot, size: u64 },
    /// Report the memory requirements of the slot's buffer and the
    /// memory types of the device.
    QueryMemory { slot: BufferSlot },
    /// Allocate exactly the reported size from the chosen memory type.
    AllocateMemory { slot: BufferSlot, size: u64, memory_type_index: u32 },
    /// Bind the slot's memory to its buffer at offset 0.
    BindMemory { slot: BufferSlot },
    /// Map `len` bytes, copy the slot's bytes in, unmap. The output slot
    /// is filled with zeros.
    FillBuffer { slot: BufferSlot, len: usize },
    /// Create the descriptor pool for one set of two storage buffers.
    CreateDescriptorPool,
    /// Allocate the descriptor set.
    AllocateDescriptorSet,
    /// Write both buffer bindings into the set, in one update.
    WriteDescriptors,
    /// Create the command pool of the given queue family.
    CreateCommandPool { queue_family_index: u32 },
    /// Allocate one primary command buffer.
    AllocateCommandBuffer,
    /// Begin recording, marked for one-time submission.
    BeginCommands,
    /// Record the dispatch: push `width`, `height` and `factor`, then
    /// dispatch `groups_x` by `groups_y` by 1 workgroups.
    RecordDispatch { width: u32, height: u32, factor: u32, groups_x: u32, groups_y: u32 },
    /// End recording.
    EndCommands,
    /// Submit the command buffer, without semaphores or fence.
    Submit,
    /// Block until the queue is idle.
    WaitIdle,
    /// Map the output memory, copy `len` bytes out, unmap.
    ReadBack { len: usize },
    /// Encode the result as an image of the given extent.
    EncodeImage { width: u32, height: u32 },
    /// Release the resource.
    Destroy(Resource),
    /// Nothing is left to do. `None` reports success, `Some` the failure
    /// that ended the operation.
    Finish(Option<UpscaleError>),
}

/// Everything the machine knows, as plain values.
#[derive(Clone, Copy, Debug)]
pub struct State {
    /// The pending step, or release.
    pub phase: Phase,
    /// The resources that exist.
    pub live: LiveSet,
    /// The failure that ended the plan, if one did.
    pub failure: Option<UpscaleError>,
    /// The upscale factor of the request.
    pub factor: u32,
    /// The chosen device; meaningful once `SelectDevice` has succeeded.
    pub device: DeviceChoice,
    /// Source extent; meaningful once `DecodeImage` has succeeded.
    pub width: u32,
    pub height: u32,
    /// Size and type of the pending allocation; meaningful once the
    /// slot's `QueryMemory` has succeeded.
    pub memory_size: u64,
    pub memory_type: u32,
}

/// Byte length of the buffer of a slot: the source for the input slot, the
/// upscaled image for the output slot.
pub open spec fn slot_len(state: State, slot: BufferSlot) -> int {
    match slot {
        BufferSlot::Input => byte_len(state.width as int, state.height as int),
        BufferSlot::Output => byte_len(state.width * state.factor, state.height * state.factor),
    }
}

/// The action that performs `step`, with its parameters taken from
/// `state`.
pub open spec fn command(state: State, step: Step) -> Action {
    match step {
        Step::PrepareDriver => Action::PrepareDriver,
        Step::LoadEntry => Action::LoadEntry,
        Step::CreateInstance => Action::CreateInstance,
        Step::SelectDevice => Action::EnumerateDevices,
        Step::CreateDevice => Action::CreateDevice { choice: state.device },
        Step::AcquireQueue => Action::AcquireQueue {
            queue_family_index: state.device.queue_family_index,
        },
        Step::CreateShaderModule => Action::CreateShaderModule,
        Step::CreateDescriptorSetLayout => Action::CreateDescriptorSetLayout,
        Step::CreatePipelineLayout => Action::CreatePipelineLayout,
        Step::CreatePipeline => Action::CreatePipeline,
        Step::DecodeImage => Action::DecodeImage,
        Step::CreateBuffer(slot) => Action::CreateBuffer {
            slot,
            size: slot_len(state, slot) as u64,
        },
        Step::QueryMemory(slot) => Action::QueryMemory { slot },
        Step::AllocateMemory(slot) => Action::AllocateMemory {
            slot,
            size: state.memory_size,
            memory_type_index: state.memory_type,
        },
        Step::BindMemory(slot) => Action::BindMemory { slot },
        Step::FillBuffer(slot) => Action::FillBuffer { slot, len: slot_len(state, slot) as usize },
        Step::CreateDescriptorPool => Action::CreateDescriptorPool,
        Step::AllocateDescriptorSet => Action::AllocateDescriptorSet,
        Step::WriteDescriptors => Action::WriteDescriptors,
        Step::CreateCommandPool => Action::CreateCommandPool {
            queue_family_index: state.device.queue_family_index,
        },
        Step::AllocateCommandBuffer => Action::AllocateCommandBuffer,
        Step::BeginCommands => Action::BeginCommands,
        Step::RecordDispatch => Action::RecordDispatch {
            width: state.width,
            height: state.height,
            factor: state.factor,
            groups_x: groups_for(state.width * state.factor) as u32,
            groups_y: groups_for(state.height * state.factor) as u32,
        },
        Step::EndCommands => Action::EndCommands,
        Step::Submit => Action::Submit,
        Step::WaitIdle => Action::WaitIdle,
        Step::ReadBack => Action::ReadBack { len: slot_len(state, BufferSlot::Output) as usize },
        Step::EncodeImage => Action::EncodeImage {
            width: (state.width * state.factor) as u32,
            height: (state.height * state.factor) as u32,
        },
    }
}

/// What `event` means for the pending `step`: the state with what was
/// learned, or the failure.
///
/// Device enumeration is answered by a device list, decoding by an extent,
/// a memory query by a memory report, every other step by `Completed`.
/// Any other answer counts as the step having failed.
pub open spec fn judge(state: State, step: Step, event: Event) -> Result<State, UpscaleError> {
    match step {
        Step::SelectDevice => match event {
            Event::Devices(devices) => match selected_device(family_table(devices@)) {
                Some(choice) => Ok(State { device: choice, ..state }),
                None => Err(UpscaleError::NoComputeDevice),
            },
            _ => Err(UpscaleError::StepFailed(step)),
        },
        Step::DecodeImage => match event {
            Event::Decoded { width, height, len } => if len != byte_len(
                width as int,
                height as int,
            ) {
                Err(UpscaleError::BadPixelData)
            } else if !output_fits(width, height, state.factor) {
                Err(UpscaleError::ImageTooLarge)
            } else {
                Ok(State { width, height, ..state })
            },
            _ => Err(UpscaleError::StepFailed(step)),
        },
        Step::QueryMemory(_) => match event {
            Event::MemoryReport { size, type_bits, types } => match selected_memory_type(
                type_bits,
                types@,
                HOST_VISIBLE_COHERENT,
            ) {
                Some(index) => Ok(State { memory_size: size, memory_type: index, ..state }),
                None => Err(UpscaleError::NoCompatibleMemory),
            },
            _ => Err(UpscaleError::StepFailed(step)),
        },
        _ => match event {
            Event::Completed => Ok(state),
            _ => Err(UpscaleError::StepFailed(step)),
        },
    }
}

impl State {
    /// The state before anything has been done.
    pub open spec fn initial(factor: u32) -> State {
        State {
            phase: Phase::Forward(Step::PrepareDriver),
            live: LiveSet::nothing(),
            failure: None,
            factor,
            device: DeviceChoice { device_index: 0, queue_family_index: 0 },
            width: 0,
            height: 0,
            memory_size: 0,
            memory_type: 0,
        }
    }

    /// Validity: the factor is in range; while the plan runs, exactly the
    /// resources of the earlier steps exist, nothing has failed, and past
    /// decoding the upscaled image is representable; during release,
    /// nothing live has lost what it depends on.
    pub open spec fn wf(self) -> bool {
        &&& factor_in_range(self.factor)
        &&& match self.phase {
            Phase::Forward(step) => {
                &&& self.live == acquired_before(step)
                &&& self.failure is None
                &&& position(step) > position(Step::DecodeImage) ==> output_fits(
                    self.width,
                    self.height,
                    self.factor,
                )
            },
            Phase::Unwinding => self.live.closed_under_dependencies(),
        }
    }

    /// Whether nothing is left to do.
    pub open spec fn finished(self) -> bool {
        self.phase == Phase::Unwinding && self.live == LiveSet::nothing()
    }

    /// The pending action.
    pub open spec fn action(self) -> Action {
        match self.phase {
            Phase::Forward(step) => command(self, step),
            Phase::Unwinding => match self.live.head() {
                Some(resource) => Action::Destroy(resource),
                None => Action::Finish(self.failure),
            },
        }
    }

    /// The state after `event` has answered the pending action.
    ///
    /// A forward step that succeeds adds what it creates and makes the
    /// following step pending; the last one starts the release. A forward
    /// step that fails records the failure and starts the release. During
    /// release every event confirms the pending `Destroy`. A finished
    /// machine does not move.
    pub open spec fn next(self, event: Event) -> State {
        match self.phase {
            Phase::Forward(step) => match judge(self, step, event) {
                Ok(learned) => State {
                    live: match acquires(step) {
                        Some(resource) => learned.live.with(resource),
                        None => learned.live,
                    },
                    phase: match following(step) {
                        Some(then) => Phase::Forward(then),
                        None => Phase::Unwinding,
                    },
                    ..learned
                },
                Err(error) => State { phase: Phase::Unwinding, failure: Some(error), ..self },
            },
            Phase::Unwinding => match self.live.head() {
                Some(resource) => State { live: self.live.without(resource), ..self },
                None => self,
            },
        }
    }

    /// An upper bound on the number of events the machine still takes
    /// before it is finished.
    pub open spec fn remaining(self) -> nat {
        match self.phase {
            Phase::Forward(step) => (STEP_COUNT - position(step) + RESOURCE_COUNT + 1) as nat,
            Phase::Unwinding => match self.live.head() {
                Some(resource) => (RESOURCE_COUNT - release_rank(resource)) as nat,
                None => 0,
            },
        }
    }

    /// The resource that `event` brings into existence: the one the
    /// pending step creates, if the event reports its success.
    pub open spec fn created_by(self, event: Event) -> Option<Resource> {
        match self.phase {
            Phase::Forward(step) => if judge(self, step, event) is Ok {
                acquires(step)
            } else {
                None
            },
            Phase::Unwinding => None,
        }
    }

    /// The resource that the pending action releases, if it is a
    /// `Destroy`.
    pub open spec fn destroyed_now(self) -> Option<Resource> {
        match self.phase {
            Phase::Forward(_) => None,
            Phase::Unwinding => self.live.head(),
        }
    }

    /// The state after the events have been taken one by one.
    pub open spec fn run(self, events: Seq<Event>) -> State
        decreases events.len(),
    {
        if events.len() == 0 {
            self
        } else {
            self.next(events[0]).run(events.skip(1))
        }
    }

    /// How often `resource` is created while the events are taken.
    pub open spec fn creations(self, events: Seq<Event>, resource: Resource) -> nat
        decreases events.len(),
    {
        if events.len() == 0 {
            0
        } else {
            let here: nat = if self.created_by(events[0]) == Some(resource) {
                1
            } else {
                0
            };
            here + self.next(events[0]).creations(events.skip(1), resource)
        }
    }

    /// How often `resource` is destroyed while the events are taken.
    pub open spec fn destructions(self, events: Seq<Event>, resource: Resource) -> nat
        decreases events.len(),
    {
        if events.len() == 0 {
            0
        } else {
            let here: nat = if self.destroyed_now() == Some(resource) {
                1
            } else {
                0
            };
            here + self.next(events[0]).destructions(events.skip(1), resource)
        }
    }
}

/// Upscaling by a factor of at least 1 does not shrink the buffer.
pub proof fn source_is_no_larger_than_output(width: u32, height: u32, factor: u32)
    requires
        factor >= 1,
    ensures
        byte_len(width as int, height as int) <= byte_len(width * factor, height * factor),
        width <= width * factor,
        height <= height * factor,
{
    assert(width <= width * factor) by (nonlinear_arith)
        requires
            factor >= 1,
    ;
    assert(height <= height * factor) by (nonlinear_arith)
        requires
            factor >= 1,
    ;
    assert(width * height <= (width * factor) * (height * factor)) by (nonlinear_arith)
        requires
            width <= width * factor,
            height <= height * factor,
    ;
}

/// Every event leaves a valid state valid, keeps the factor, and changes
/// the source extent only when it answers the decoding step.
pub proof fn next_keeps_validity(state: State, event: Event)
    requires
        state.wf(),
    ensures
        state.next(event).wf(),
        state.next(event).factor == state.factor,
        state.phase != Phase::Forward(Step::DecodeImage) ==> state.next(event).width
            == state.width && state.next(event).height == state.height,
{
    match state.phase {
        Phase::Forward(step) => {
            plan_tracks_resources(step);
            plan_keeps_dependencies(step);
            plan_is_a_chain(step);
        },
        Phase::Unwinding => {
            if state.live.head() is Some {
                state.live.release_keeps_closure();
            }
        },
    }
}

/// A run of any events leaves a valid state valid.
pub proof fn run_keeps_validity(state: State, events: Seq<Event>)
    requires
        state.wf(),
    ensures
        state.run(events).wf(),
    decreases events.len(),
{
    if events.len() > 0 {
        next_keeps_validity(state, events[0]);
        run_keeps_validity(state.next(events[0]), events.skip(1));
    }
}

/// At every moment, whatever exists has everything it depends on: no
/// object outlives its device, and the device never outlives the
/// instance.
pub proof fn live_set_is_closed(state: State)
    requires
        state.wf(),
    ensures
        state.live.closed_under_dependencies(),
{
    match state.phase {
        Phase::Forward(step) => {
            plan_keeps_dependencies(step);
        },
        Phase::Unwinding => {},
    }
}

/// Whether decoding lies behind: a later step is pending, or release has
/// begun.
pub open spec fn past_decoding(state: State) -> bool {
    match state.phase {
        Phase::Forward(step) => position(step) > position(Step::DecodeImage),
        Phase::Unwinding => true,
    }
}

/// Once the image is decoded, its extent and the factor stay what they
/// are for the rest of the operation: the extent that is encoded at the
/// end is the factor times the extent that decoding reported.
pub proof fn run_keeps_extent(state: State, events: Seq<Event>)
    requires
        state.wf(),
        past_decoding(state),
    ensures
        past_decoding(state.run(events)),
        state.run(events).width == state.width,
        state.run(events).height == state.height,
        state.run(events).factor == state.factor,
    decreases events.len(),
{
    if events.len() > 0 {
        next_keeps_validity(state, events[0]);
        match state.phase {
            Phase::Forward(step) => {
                plan_is_a_chain(step);
            },
            Phase::Unwinding => {},
        }
        run_keeps_extent(state.next(events[0]), events.skip(1));
    }
}

/// Every event brings an unfinished machine strictly closer to the end,
/// and a finished machine does not move. From its initial state the
/// machine takes at most `STEP_COUNT + RESOURCE_COUNT + 1` events.
pub proof fn next_makes_progress(state: State, event: Event)
    requires
        state.wf(),
    ensures
        !state.finished() ==> state.next(event).remaining() < state.remaining(),
        state.finished() ==> state.next(event) == state,
        state.finished() <==> state.remaining() == 0,
        State::initial(state.factor).remaining() == STEP_COUNT + RESOURCE_COUNT + 1,
{
    state.live.head_is_lowest();
    state.next(event).live.head_is_lowest();
    match state.phase {
        Phase::Forward(step) => {
            plan_is_a_chain(step);
            match state.next(event).live.head() {
                Some(resource) => {
                    release_order_respects_dependencies(resource, resource);
                },
                None => {},
            }
        },
        Phase::Unwinding => {
            match (state.live.head(), state.next(event).live.head()) {
                (Some(first), Some(second)) => {
                    state.live.put_changes_one_flag(first, false, second);
                    release_order_respects_dependencies(first, second);
                },
                (Some(first), None) => {
                    release_order_respects_dependencies(first, first);
                },
                _ => {},
            }
        },
    }
}

/// Once release has begun it is never left: nothing is created any more,
/// the recorded verdict stays, and resources leave in strictly rising
/// release rank, so that pools go before buffers, each buffer before its
/// memory, and every object before what it depends on.
pub proof fn release_is_ordered_and_final(state: State, event: Event)
    requires
        state.phase == Phase::Unwinding,
    ensures
        state.next(event).phase == Phase::Unwinding,
        state.next(event).failure == state.failure,
        state.created_by(event) is None,
        forall|resource: Resource| #[trigger]
            state.next(event).live.contains(resource) ==> state.live.contains(resource),
        match (state.destroyed_now(), state.next(event).destroyed_now()) {
            (Some(first), Some(second)) => release_rank(first) < release_rank(second),
            (None, Some(_)) => false,
            _ => true,
        },
        state.destroyed_now() matches Some(resource) ==> state.action() == Action::Destroy(
            resource,
        ) && state.live.releases_next(resource),
{
    state.live.head_is_lowest();
    state.next(event).live.head_is_lowest();
    match (state.live.head(), state.next(event).live.head()) {
        (Some(first), Some(second)) => {
            state.live.put_changes_one_flag(first, false, second);
            release_order_respects_dependencies(first, second);
        },
        _ => {},
    }
    match state.live.head() {
        Some(first) => {
            assert forall|resource: Resource| #[trigger]
                state.next(event).live.contains(resource) implies state.live.contains(
                resource,
            ) by {
                state.live.put_changes_one_flag(first, false, resource);
            }
        },
        None => {},
    }
}

/// Taking one more event at the end of a run is one more step.
pub proof fn run_then_next(state: State, events: Seq<Event>, event: Event)
    ensures
        state.run(events.push(event)) == state.run(events).next(event),
    decreases events.len(),
{
    let longer = events.push(event);
    if events.len() == 0 {
        assert(longer[0] == event);
        assert(state.next(event).run(longer.skip(1)) == state.next(event));
    } else {
        assert(longer[0] == events[0]);
        assert(longer.skip(1) =~= events.skip(1).push(event));
        run_then_next(state.next(events[0]), events.skip(1), event);
    }
}

/// Release order over a whole run: whenever two resources are destroyed
/// in the course of an operation, the one destroyed earlier has the lower
/// release rank. So the command pool and the descriptor pool leave before
/// any buffer, each buffer before its memory, the pipeline before its
/// layout and the kernel module, all of them before the logical device,
/// and the instance last.
pub proof fn releases_rise_in_rank(state: State, events: Seq<Event>, early: int, late: int)
    requires
        0 <= early < late <= events.len(),
    ensures
        state.run(events.take(early)).phase == Phase::Unwinding ==> state.run(
            events.take(late),
        ).phase == Phase::Unwinding,
        match (
            state.run(events.take(early)).destroyed_now(),
            state.run(events.take(late)).destroyed_now(),
        ) {
            (Some(first), Some(second)) => release_rank(first) < release_rank(second),
            _ => true,
        },
    decreases late - early,
{
    let event = events[late - 1];
    let before = state.run(events.take(late - 1));
    assert(events.take(late) =~= events.take(late - 1).push(event));
    run_then_next(state, events.take(late - 1), event);
    if early < late - 1 {
        releases_rise_in_rank(state, events, early, late - 1);
    }
    if before.phase == Phase::Unwinding {
        release_is_ordered_and_final(before, event);
    }
}

/// One event changes the existence of a resource exactly by what it
/// creates and destroys: a resource is created only while it does not
/// exist, and destroyed only while it does.
pub proof fn one_event_balances(state: State, event: Event, resource: Resource)
    requires
        state.wf(),
    ensures
        state.created_by(event) == Some(resource) ==> !state.live.contains(resource)
            && state.next(event).live.contains(resource),
        state.destroyed_now() == Some(resource) ==> state.live.contains(resource)
            && !state.next(event).live.contains(resource),
        state.created_by(event) != Some(resource) && state.destroyed_now() != Some(resource)
            ==> state.next(event).live.contains(resource) == state.live.contains(resource),
        !(state.created_by(event) == Some(resource) && state.destroyed_now() == Some(resource)),
{
    match state.phase {
        Phase::Forward(step) => {
            plan_tracks_resources(step);
            match acquires(step) {
                Some(made) => {
                    state.live.put_changes_one_flag(made, true, resource);
                },
                None => {},
            }
        },
        Phase::Unwinding => {
            state.live.head_is_lowest();
            match state.live.head() {
                Some(gone) => {
                    state.live.put_changes_one_flag(gone, false, resource);
                },
                None => {},
            }
        },
    }
}

/// Resource balance over any run: for every resource, what existed at the
/// start plus what was created equals what was destroyed plus what exists
/// at the end.
pub proof fn run_balances(state: State, events: Seq<Event>, resource: Resource)
    requires
        state.wf(),
    ensures
        flag_weight(state.live.contains(resource)) + state.creations(
            events,
            resource,
        ) == state.destructions(events, resource) + flag_weight(
            state.run(events).live.contains(resource),
        ),
    decreases events.len(),
{
    if events.len() > 0 {
        next_keeps_validity(state, events[0]);
        one_event_balances(state, events[0], resource);
        run_balances(state.next(events[0]), events.skip(1), resource);
    }
}

/// How often `resource` can still be created from `state` on: once while
/// its creating step lies ahead, never afterwards.
pub open spec fn creations_ahead(state: State, resource: Resource) -> nat {
    match state.phase {
        Phase::Forward(step) => if position(step) <= position(creator(resource)) {
            1
        } else {
            0
        },
        Phase::Unwinding => 0,
    }
}

/// No resource is created twice: over any run, each resource is created
/// at most once, and not at all once its creating step lies behind.
pub proof fn creates_at_most_once(state: State, events: Seq<Event>, resource: Resource)
    requires
        state.wf(),
    ensures
        state.creations(events, resource) <= creations_ahead(state, resource),
    decreases events.len(),
{
    if events.len() > 0 {
        next_keeps_validity(state, events[0]);
        match state.phase {
            Phase::Forward(step) => {
                plan_is_a_chain(step);
                plan_creates_in_dependency_order(resource, resource);
            },
            Phase::Unwinding => {},
        }
        creates_at_most_once(state.next(events[0]), events.skip(1), resource);
    }
}

/// Resource symmetry: when an operation has run to its end, whether it
/// succeeded or failed at any step, every resource has been destroyed
/// exactly as often as it was created. Nothing leaks.
pub proof fn creates_equal_destroys(factor: u32, events: Seq<Event>, resource: Resource)
    requires
        factor_in_range(factor),
        State::initial(factor).run(events).finished(),
    ensures
        State::initial(factor).creations(events, resource) == State::initial(
            factor,
        ).destructions(events, resource),
{
    plan_tracks_resources(Step::PrepareDriver);
    run_balances(State::initial(factor), events, resource);
}

/// Every operation ends: whatever the events report, after as many events
/// as `remaining` allows the machine is finished, and it stays finished.
pub proof fn run_finishes(state: State, events: Seq<Event>)
    requires
        state.wf(),
        events.len() >= state.remaining(),
    ensures
        state.run(events).finished(),
    decreases events.len(),
{
    if events.len() == 0 {
        next_makes_progress(state, Event::Completed);
    } else {
        next_keeps_validity(state, events[0]);
        next_makes_progress(state, events[0]);
        run_finishes(state.next(events[0]), events.skip(1));
    }
}

/// The image handed to the encoder has exactly `factor` times the source
/// extent in each direction, and the dispatch covers it with workgroups
/// of 16 by 16.
pub proof fn output_extent_is_exact(state: State)
    requires
        state.wf(),
    ensures
        state.phase == Phase::Forward(Step::EncodeImage) ==> (state.action() matches Action::EncodeImage {
            width,
            height,
        } && width == state.width * state.factor && height == state.height * state.factor),
        state.phase == Phase::Forward(Step::RecordDispatch) ==> (
        state.action() matches Action::RecordDispatch { width, height, factor, groups_x, groups_y }
            && width == state.width && height == state.height && factor == state.factor
            && groups_x == groups_for(state.width * state.factor) && groups_y == groups_for(
            state.height * state.factor,
        )),
{
}

/// From decoding to encoding: when decoding has reported an extent that
/// the machine accepts, then however the operation goes on, if it comes to
/// encode the result, the result has exactly the factor times that extent
/// in each direction.
pub proof fn encoded_extent_follows_decoding(
    state: State,
    width: u32,
    height: u32,
    len: usize,
    events: Seq<Event>,
)
    requires
        state.wf(),
        state.phase == Phase::Forward(Step::DecodeImage),
        judge(state, Step::DecodeImage, Event::Decoded { width, height, len }) is Ok,
        state.next(Event::Decoded { width, height, len }).run(events).phase == Phase::Forward(
            Step::EncodeImage,
        ),
    ensures
        width * state.factor <= u32::MAX,
        height * state.factor <= u32::MAX,
        state.next(Event::Decoded { width, height, len }).run(events).action()
            == (Action::EncodeImage {
            width: (width * state.factor) as u32,
            height: (height * state.factor) as u32,
        }),
{
    let decoded = state.next(Event::Decoded { width, height, len });
    next_keeps_validity(state, Event::Decoded { width, height, len });
    run_keeps_extent(decoded, events);
    run_keeps_validity(decoded, events);
}

/// The machine of one upscale operation.
#[derive(Debug)]
pub struct Upscaler {
    state: State,
}

impl View for Upscaler {
    type V = State;

    closed spec fn view(&self) -> State {
        self.state
    }
}

/// Checks a request before anything else happens: the input must exist,
/// and the factor must be in range. The path is judged first.
pub fn validate_request(input_exists: bool, factor: u32) -> (result: Result<(), UpscaleError>)
    ensures
        !input_exists ==> result == Err::<(), UpscaleError>(UpscaleError::InputMissing),
        input_exists && !factor_in_range(factor) ==> result == Err::<(), UpscaleError>(
            UpscaleError::InvalidFactor(factor),
        ),
        input_exists && factor_in_range(factor) ==> result == Ok::<(), UpscaleError>(()),
{
    if !input_exists {
        Err(UpscaleError::InputMissing)
    } else if !is_valid_factor(factor) {
        Err(UpscaleError::InvalidFactor(factor))
    } else {
        Ok(())
    }
}

/// The extent of the upscaled image of a state past decoding.
fn output_dims(state: &State) -> (dims: (u32, u32))
    requires
        output_fits(state.width, state.height, state.factor),
    ensures
        dims.0 == state.width * state.factor,
        dims.1 == state.height * state.factor,
        byte_len(dims.0 as int, dims.1 as int) <= usize::MAX,
{
    (state.width * state.factor, state.height * state.factor)
}

/// The byte length of a slot's buffer of a state past decoding.
fn slot_bytes(state: &State, slot: BufferSlot) -> (len: usize)
    requires
        factor_in_range(state.factor),
        output_fits(state.width, state.height, state.factor),
    ensures
        len == slot_len(*state, slot),
{
    proof {
        source_is_no_larger_than_output(state.width, state.height, state.factor);
    }
    match slot {
        BufferSlot::Input => buffer_len(state.width, state.height) as usize,
        BufferSlot::Output => {
            let dims: (u32, u32) = output_dims(state);
            buffer_len(dims.0, dims.1) as usize
        },
    }
}

/// The action that performs a pending step.
fn command_for(state: &State, step: Step) -> (action: Action)
    requires
        state.wf(),
        state.phase == Phase::Forward(step),
    ensures
        action == command(*state, step),
{
    match step {
        Step::PrepareDriver => Action::PrepareDriver,
        Step::LoadEntry => Action::LoadEntry,
        Step::CreateInstance => Action::CreateInstance,
        Step::SelectDevice => Action::EnumerateDevices,
        Step::CreateDevice => Action::CreateDevice { choice: state.device },
        Step::AcquireQueue => Action::AcquireQueue {
            queue_family_index: state.device.queue_family_index,
        },
        Step::CreateShaderModule => Action::CreateShaderModule,
        Step::CreateDescriptorSetLayout => Action::CreateDescriptorSetLayout,
        Step::CreatePipelineLayout => Action::CreatePipelineLayout,
        Step::CreatePipeline => Action::CreatePipeline,
        Step::DecodeImage => Action::DecodeImage,
        Step::CreateBuffer(slot) => Action::CreateBuffer {
            slot,
            size: slot_bytes(state, slot) as u64,
        },
        Step::QueryMemory(slot) => Action::QueryMemory { slot },
        Step::AllocateMemory(slot) => Action::AllocateMemory {
            slot,
            size: state.memory_size,
            memory_type_index: state.memory_type,
        },
        Step::BindMemory(slot) => Action::BindMemory { slot },
        Step::FillBuffer(slot) => Action::FillBuffer { slot, len: slot_bytes(state, slot) },
        Step::CreateDescriptorPool => Action::CreateDescriptorPool,
        Step::AllocateDescriptorSet => Action::AllocateDescriptorSet,
        Step::WriteDescriptors => Action::WriteDescriptors,
        Step::CreateCommandPool => Action::CreateCommandPool {
            queue_family_index: state.device.queue_family_index,
        },
        Step::AllocateCommandBuffer => Action::AllocateCommandBuffer,
        Step::BeginCommands => Action::BeginCommands,
        Step::RecordDispatch => {
            let dims: (u32, u32) = output_dims(state);
            let grid: (u32, u32) = dispatch_grid(dims.0, dims.1);
            Action::RecordDispatch {
                width: state.width,
                height: state.height,
                factor: state.factor,
                groups_x: grid.0,
                groups_y: grid.1,
            }
        },
        Step::EndCommands => Action::EndCommands,
        Step::Submit => Action::Submit,
        Step::WaitIdle => Action::WaitIdle,
        Step::ReadBack => Action::ReadBack { len: slot_bytes(state, BufferSlot::Output) },
        Step::EncodeImage => {
            let dims: (u32, u32) = output_dims(state);
            Action::EncodeImage { width: dims.0, height: dims.1 }
        },
    }
}

/// Reads the answer to a pending step.
fn judge_event(state: State, step: Step, event: &Event) -> (verdict: Result<State, UpscaleError>)
    requires
        factor_in_range(state.factor),
    ensures
        verdict == judge(state, step, *event),
{
    match step {
        Step::SelectDevice => match event {
            Event::Devices(devices) => match pick_physical_device(devices) {
                Some(choice) => Ok(State { device: choice, ..state }),
                None => Err(UpscaleError::NoComputeDevice),
            },
            _ => Err(UpscaleError::StepFailed(step)),
        },
        Step::DecodeImage => match event {
            Event::Decoded { width, height, len } => {
                if *len as u128 != buffer_len(*width, *height) {
                    Err(UpscaleError::BadPixelData)
                } else {
                    match output_extent(*width, *height, state.factor) {
                        Ok(_) => Ok(State { width: *width, height: *height, ..state }),
                        Err(error) => Err(error),
                    }
                }
            },
            _ => Err(UpscaleError::StepFailed(step)),
        },
        Step::QueryMemory(_) => match event {
            Event::MemoryReport { size, type_bits, types } => match find_memory_type(
                *type_bits,
                types,
                HOST_VISIBLE_COHERENT,
            ) {
                Some(index) => Ok(State { memory_size: *size, memory_type: index, ..state }),
                None => Err(UpscaleError::NoCompatibleMemory),
            },
            _ => Err(UpscaleError::StepFailed(step)),
        },
        _ => match event {
            Event::Completed => Ok(state),
            _ => Err(UpscaleError::StepFailed(step)),
        },
    }
}

/// The successor of a valid state.
fn next_state(state: State, event: &Event) -> (next: State)
    requires
        state.wf(),
    ensures
        next == state.next(*event),
        next.wf(),
{
    proof {
        next_keeps_validity(state, *event);
    }
    match state.phase {
        Phase::Forward(step) => match judge_event(state, step, event) {
            Ok(learned) => State {
                live: match step.creates() {
                    Some(resource) => learned.live.updated(resource, true),
                    None => learned.live,
                },
                phase: match step.next() {
                    Some(then) => Phase::Forward(then),
                    None => Phase::Unwinding,
                },
                ..learned
            },
            Err(error) => State { phase: Phase::Unwinding, failure: Some(error), ..state },
        },
        Phase::Unwinding => match state.live.next_release() {
            Some(resource) => State { live: state.live.updated(resource, false), ..state },
            None => state,
        },
    }
}

impl Upscaler {
    #[verifier::type_invariant]
    spec fn valid(self) -> bool {
        self.state.wf()
    }

    /// Starts an operation. A missing input or a factor outside `[1, 8]`
    /// is refused here, before any action is handed out; otherwise the
    /// machine stands at the first step with nothing created.
    pub fn begin(input_exists: bool, factor: u32) -> (result: Result<Upscaler, UpscaleError>)
        ensures
            !input_exists ==> result == Err::<Upscaler, UpscaleError>(UpscaleError::InputMissing),
            input_exists && !factor_in_range(factor) ==> result == Err::<Upscaler, UpscaleError>(
                UpscaleError::InvalidFactor(factor),
            ),
            input_exists && factor_in_range(factor) ==> (result matches Ok(machine) && machine@
                == State::initial(factor) && machine@.wf()),
    {
        match validate_request(input_exists, factor) {
            Err(error) => Err(error),
            Ok(_) => {
                proof {
                    plan_tracks_resources(Step::PrepareDriver);
                }
                Ok(
                    Upscaler {
                        state: State {
                            phase: Phase::Forward(Step::first()),
                            live: LiveSet::empty(),
                            failure: None,
                            factor,
                            device: DeviceChoice { device_index: 0, queue_family_index: 0 },
                            width: 0,
                            height: 0,
                            memory_size: 0,
                            memory_type: 0,
                        },
                    },
                )
            },
        }
    }

    /// What to do next.
    pub fn action(&self) -> (action: Action)
        ensures
            action == self@.action(),
            self@.wf(),
    {
        proof {
            use_type_invariant(self);
        }
        match self.state.phase {
            Phase::Forward(step) => command_for(&self.state, step),
            Phase::Unwinding => match self.state.live.next_release() {
                Some(resource) => Action::Destroy(resource),
                None => Action::Finish(self.state.failure),
            },
        }
    }

    /// Takes the application's answer to the pending action.
    pub fn advance(&mut self, event: &Event)
        ensures
            final(self)@ == old(self)@.next(*event),
            old(self)@.wf(),
            final(self)@.wf(),
    {
        proof {
            use_type_invariant(&*self);
        }
        let next: State = next_state(self.state, event);
        self.state = next;
    }

    /// Whether the operation is over: the pending action is `Finish`.
    pub fn is_finished(&self) -> (finished: bool)
        ensures
            finished == self@.finished(),
    {
        proof {
            self.state.live.head_is_lowest();
        }
        match self.state.phase {
            Phase::Forward(_) => false,
            Phase::Unwinding => self.state.live.next_release().is_none(),
        }
    }

    /// The failure that ended the plan, if one did.
    pub fn failure(&self) -> (failure: Option<UpscaleError>)
        ensures
            failure == self@.failure,
    {
        self.state.failure
    }

    /// The resources that exist.
    pub fn live(&self) -> (live: LiveSet)
        ensures
            live == self@.live,
    {
        self.state.live
    }

    /// The whole state, as plain values.
    pub fn state(&self) -> (state: State)
        ensures
            state == self@,
            state.wf(),
    {
        proof {
            use_type_invariant(self);
        }
        self.state
    }
}

} // verus!
