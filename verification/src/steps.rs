//! The forward plan of one upscale operation: every step the application
//! performs, in order, and the resource each step brings into existence.

use vstd::prelude::*;
use crate::resources::{BufferSlot, LiveSet, Resource};

verus! {

/// One operation that the application performs on behalf of the pipeline.
#[derive(Clone, Copy, Debug, PartialEq, Eq, Structural)]
pub enum Step {
    /// Make the platform's driver loader configuration discoverable.
    PrepareDriver,
    /// Load the entry points of the graphics API.
    LoadEntry,
    /// Create the API instance with portability enumeration enabled.
    CreateInstance,
    /// Enumerate the physical devices and their queue families.
    SelectDevice,
    /// Create the logical device with one queue of the chosen family.
    CreateDevice,
    /// Fetch the queue of the logical device.
    AcquireQueue,
    /// Load the kernel binary into a shader module.
    CreateShaderModule,
    /// Declare the two storage-buffer bindings.
    CreateDescriptorSetLayout,
    /// Combine the bindings with the push-parameter range.
    CreatePipelineLayout,
    /// Compile the compute pipeline.
    CreatePipeline,
    /// Decode the source image into a pixel buffer.
    DecodeImage,
    /// Create the buffer object of a slot.
    CreateBuffer(BufferSlot),
    /// Query the memory requirements of a slot's buffer and the memory
    /// types of the device.
    QueryMemory(BufferSlot),
    /// Allocate the memory of a slot.
    AllocateMemory(BufferSlot),
    /// Bind a slot's memory to its buffer at offset 0.
    BindMemory(BufferSlot),
    /// Map a slot's memory, copy the slot's bytes in, unmap.
    FillBuffer(BufferSlot),
    /// Create the single-use descriptor pool.
    CreateDescriptorPool,
    /// Allocate the one descriptor set.
    AllocateDescriptorSet,
    /// Write both buffer bindings into the set.
    WriteDescriptors,
    /// Create the command pool of the chosen queue family.
    CreateCommandPool,
    /// Allocate the one primary command buffer.
    AllocateCommandBuffer,
    /// Begin recording, marked for one-time submission.
    BeginCommands,
    /// Record pipeline and descriptor binding, the push parameters and the
    /// dispatch.
    RecordDispatch,
    /// End recording.
    EndCommands,
    /// Submit the command buffer, without semaphores.
    Submit,
    /// Block until the queue is idle.
    WaitIdle,
    /// Map the output memory, copy the result out, unmap.
    ReadBack,
    /// Encode the result and write it to the destination.
    EncodeImage,
}

/// The part of the system a step belongs to.
#[derive(Clone, Copy, Debug, PartialEq, Eq, Structural)]
pub enum Component {
    /// Driver discovery and the device context.
    Context,
    /// Buffers and their memory.
    Buffers,
    /// Descriptors, commands, submission and readback.
    Dispatch,
    /// Decoding the source and encoding the result.
    Codec,
}

/// Number of steps in the plan.
pub const STEP_COUNT: u32 = 33;

/// Position of a step in the plan, counted from 0.
pub open spec fn position(step: Step) -> nat {
    match step {
        Step::PrepareDriver => 0,
        Step::LoadEntry => 1,
        Step::CreateInstance => 2,
        Step::SelectDevice => 3,
        Step::CreateDevice => 4,
        Step::AcquireQueue => 5,
        Step::CreateShaderModule => 6,
        Step::CreateDescriptorSetLayout => 7,
        Step::CreatePipelineLayout => 8,
        Step::CreatePipeline => 9,
        Step::DecodeImage => 10,
        Step::CreateBuffer(BufferSlot::Input) => 11,
        Step::QueryMemory(BufferSlot::Input) => 12,
        Step::AllocateMemory(BufferSlot::Input) => 13,
        Step::BindMemory(BufferSlot::Input) => 14,
        Step::FillBuffer(BufferSlot::Input) => 15,
        Step::CreateBuffer(BufferSlot::Output) => 16,
        Step::QueryMemory(BufferSlot::Output) => 17,
        Step::AllocateMemory(BufferSlot::Output) => 18,
        Step::BindMemory(BufferSlot::Output) => 19,
        Step::FillBuffer(BufferSlot::Output) => 20,
        Step::CreateDescriptorPool => 21,
        Step::AllocateDescriptorSet => 22,
        Step::WriteDescriptors => 23,
        Step::CreateCommandPool => 24,
        Step::AllocateCommandBuffer => 25,
        Step::BeginCommands => 26,
        Step::RecordDispatch => 27,
        Step::EndCommands => 28,
        Step::Submit => 29,
        Step::WaitIdle => 30,
        Step::ReadBack => 31,
        Step::EncodeImage => 32,
    }
}

/// The step that follows `step` in the plan, `None` after the last one.
pub open spec fn following(step: Step) -> Option<Step> {
    match step {
        Step::PrepareDriver => Some(Step::LoadEntry),
        Step::LoadEntry => Some(Step::CreateInstance),
        Step::CreateInstance => Some(Step::SelectDevice),
        Step::SelectDevice => Some(Step::CreateDevice),
        Step::CreateDevice => Some(Step::AcquireQueue),
        Step::AcquireQueue => Some(Step::CreateShaderModule),
        Step::CreateShaderModule => Some(Step::CreateDescriptorSetLayout),
        Step::CreateDescriptorSetLayout => Some(Step::CreatePipelineLayout),
        Step::CreatePipelineLayout => Some(Step::CreatePipeline),
        Step::CreatePipeline => Some(Step::DecodeImage),
        Step::DecodeImage => Some(Step::CreateBuffer(BufferSlot::Input)),
        Step::CreateBuffer(slot) => Some(Step::QueryMemory(slot)),
        Step::QueryMemory(slot) => Some(Step::AllocateMemory(slot)),
        Step::AllocateMemory(slot) => Some(Step::BindMemory(slot)),
        Step::BindMemory(slot) => Some(Step::FillBuffer(slot)),
        Step::FillBuffer(BufferSlot::Input) => Some(Step::CreateBuffer(BufferSlot::Output)),
        Step::FillBuffer(BufferSlot::Output) => Some(Step::CreateDescriptorPool),
        Step::CreateDescriptorPool => Some(Step::AllocateDescriptorSet),
        Step::AllocateDescriptorSet => Some(Step::WriteDescriptors),
        Step::WriteDescriptors => Some(Step::CreateCommandPool),
        Step::CreateCommandPool => Some(Step::AllocateCommandBuffer),
        Step::AllocateCommandBuffer => Some(Step::BeginCommands),
        Step::BeginCommands => Some(Step::RecordDispatch),
        Step::RecordDispatch => Some(Step::EndCommands),
        Step::EndCommands => Some(Step::Submit),
        Step::Submit => Some(Step::WaitIdle),
        Step::WaitIdle => Some(Step::ReadBack),
        Step::ReadBack => Some(Step::EncodeImage),
        Step::EncodeImage => None,
    }
}

/// The resource that exists once `step` has succeeded, if the step creates
/// one.
pub open spec fn acquires(step: Step) -> Option<Resource> {
    match step {
        Step::CreateInstance => Some(Resource::Instance),
        Step::CreateDevice => Some(Resource::Device),
        Step::CreateShaderModule => Some(Resource::ShaderModule),
        Step::CreateDescriptorSetLayout => Some(Resource::DescriptorSetLayout),
        Step::CreatePipelineLayout => Some(Resource::PipelineLayout),
        Step::CreatePipeline => Some(Resource::Pipeline),
        Step::CreateBuffer(slot) => Some(Resource::Buffer(slot)),
        Step::AllocateMemory(slot) => Some(Resource::Memory(slot)),
        Step::CreateDescriptorPool => Some(Resource::DescriptorPool),
        Step::CreateCommandPool => Some(Resource::CommandPool),
        _ => None,
    }
}

/// The step that creates `resource`.
pub open spec fn creator(resource: Resource) -> Step {
    match resource {
        Resource::Instance => Step::CreateInstance,
        Resource::Device => Step::CreateDevice,
        Resource::ShaderModule => Step::CreateShaderModule,
        Resource::DescriptorSetLayout => Step::CreateDescriptorSetLayout,
        Resource::PipelineLayout => Step::CreatePipelineLayout,
        Resource::Pipeline => Step::CreatePipeline,
        Resource::Buffer(slot) => Step::CreateBuffer(slot),
        Resource::Memory(slot) => Step::AllocateMemory(slot),
        Resource::DescriptorPool => Step::CreateDescriptorPool,
        Resource::CommandPool => Step::CreateCommandPool,
    }
}

/// The component a step belongs to.
pub open spec fn component_of(step: Step) -> Component {
    if position(step) < position(Step::DecodeImage) {
        Component::Context
    } else if step == Step::DecodeImage || step == Step::EncodeImage {
        Component::Codec
    } else if position(step) < position(Step::CreateDescriptorPool) {
        Component::Buffers
    } else {
        Component::Dispatch
    }
}

/// The resources that exist when `step` is about to be performed: those
/// whose creating step comes earlier in the plan.
pub open spec fn acquired_before(step: Step) -> LiveSet {
    LiveSet {
        instance: position(creator(Resource::Instance)) < position(step),
        device: position(creator(Resource::Device)) < position(step),
        shader_module: position(creator(Resource::ShaderModule)) < position(step),
        descriptor_set_layout: position(creator(Resource::DescriptorSetLayout)) < position(step),
        pipeline_layout: position(creator(Resource::PipelineLayout)) < position(step),
        pipeline: position(creator(Resource::Pipeline)) < position(step),
        input_buffer: position(creator(Resource::Buffer(BufferSlot::Input))) < position(step),
        input_memory: position(creator(Resource::Memory(BufferSlot::Input))) < position(step),
        output_buffer: position(creator(Resource::Buffer(BufferSlot::Output))) < position(step),
        output_memory: position(creator(Resource::Memory(BufferSlot::Output))) < position(step),
        descriptor_pool: position(creator(Resource::DescriptorPool)) < position(step),
        command_pool: position(creator(Resource::CommandPool)) < position(step),
    }
}

/// The plan is a single chain: each step's successor stands one position
/// later, and only the last step has none.
pub proof fn plan_is_a_chain(step: Step)
    ensures
        position(step) < STEP_COUNT,
        match following(step) {
            Some(next) => position(next) == position(step) + 1,
            None => position(step) + 1 == STEP_COUNT,
        },
{
}

/// Every resource is created by exactly one step, after everything it
/// depends on, and a buffer is created before the memory that backs it.
pub proof fn plan_creates_in_dependency_order(user: Resource, base: Resource)
    ensures
        acquires(creator(user)) == Some(user),
        crate::resources::depends_on(user, base) ==> position(creator(base)) < position(
            creator(user),
        ),
        crate::resources::backed_by(user, base) ==> position(creator(user)) < position(
            creator(base),
        ),
{
}

/// Host and device never touch a buffer at the same time: both buffers
/// are filled and bound to the descriptor set before the commands are
/// submitted, and the result is read back only after the queue has been
/// waited for.
pub proof fn plan_orders_buffer_access(slot: BufferSlot)
    ensures
        position(Step::CreateBuffer(slot)) < position(Step::AllocateMemory(slot)),
        position(Step::AllocateMemory(slot)) < position(Step::BindMemory(slot)),
        position(Step::BindMemory(slot)) < position(Step::FillBuffer(slot)),
        position(Step::FillBuffer(slot)) < position(Step::WriteDescriptors),
        position(Step::WriteDescriptors) < position(Step::RecordDispatch),
        position(Step::RecordDispatch) < position(Step::Submit),
        position(Step::Submit) < position(Step::WaitIdle),
        position(Step::WaitIdle) < position(Step::ReadBack),
        position(Step::ReadBack) < position(Step::EncodeImage),
{
}

/// What exists before a step does not yet hold what the step creates, and
/// grows by exactly that when the step succeeds. Before the first step
/// nothing exists.
pub proof fn plan_tracks_resources(step: Step)
    ensures
        acquired_before(Step::PrepareDriver) == LiveSet::nothing(),
        match acquires(step) {
            Some(resource) => {
                &&& !acquired_before(step).contains(resource)
                &&& match following(step) {
                    Some(next) => acquired_before(next) == acquired_before(step).with(resource),
                    None => true,
                }
            },
            None => match following(step) {
                Some(next) => acquired_before(next) == acquired_before(step),
                None => true,
            },
        },
{
}

/// What exists before a step is closed under dependencies, and stays so
/// when the step adds what it creates: everything is created after what
/// it depends on.
pub proof fn plan_keeps_dependencies(step: Step)
    ensures
        acquired_before(step).closed_under_dependencies(),
        acquires(step) matches Some(resource) ==> acquired_before(step).with(
            resource,
        ).closed_under_dependencies(),
{
    assert forall|user: Resource, base: Resource|
        acquired_before(step).contains(user) && #[trigger] crate::resources::depends_on(
            user,
            base,
        ) implies acquired_before(step).contains(base) by {
        plan_creates_in_dependency_order(user, base);
    }
    match acquires(step) {
        Some(resource) => {
            let grown = acquired_before(step).with(resource);
            assert forall|user: Resource, base: Resource|
                grown.contains(user) && #[trigger] crate::resources::depends_on(
                    user,
                    base,
                ) implies grown.contains(base) by {
                plan_creates_in_dependency_order(user, base);
            }
        },
        None => {},
    }
}

impl Step {
    /// The first step of the plan.
    pub fn first() -> (step: Step)
        ensures
            position(step) == 0,
            step == Step::PrepareDriver,
    {
        Step::PrepareDriver
    }

    /// The step that follows in the plan, `None` after the last one.
    pub fn next(self) -> (next: Option<Step>)
        ensures
            next == following(self),
    {
        match self {
            Step::PrepareDriver => Some(Step::LoadEntry),
            Step::LoadEntry => Some(Step::CreateInstance),
            Step::CreateInstance => Some(Step::SelectDevice),
            Step::SelectDevice => Some(Step::CreateDevice),
            Step::CreateDevice => Some(Step::AcquireQueue),
            Step::AcquireQueue => Some(Step::CreateShaderModule),
            Step::CreateShaderModule => Some(Step::CreateDescriptorSetLayout),
            Step::CreateDescriptorSetLayout => Some(Step::CreatePipelineLayout),
            Step::CreatePipelineLayout => Some(Step::CreatePipeline),
            Step::CreatePipeline => Some(Step::DecodeImage),
            Step::DecodeImage => Some(Step::CreateBuffer(BufferSlot::Input)),
            Step::CreateBuffer(slot) => Some(Step::QueryMemory(slot)),
            Step::QueryMemory(slot) => Some(Step::AllocateMemory(slot)),
            Step::AllocateMemory(slot) => Some(Step::BindMemory(slot)),
            Step::BindMemory(slot) => Some(Step::FillBuffer(slot)),
            Step::FillBuffer(BufferSlot::Input) => Some(Step::CreateBuffer(BufferSlot::Output)),
            Step::FillBuffer(BufferSlot::Output) => Some(Step::CreateDescriptorPool),
            Step::CreateDescriptorPool => Some(Step::AllocateDescriptorSet),
            Step::AllocateDescriptorSet => Some(Step::WriteDescriptors),
            Step::WriteDescriptors => Some(Step::CreateCommandPool),
            Step::CreateCommandPool => Some(Step::AllocateCommandBuffer),
            Step::AllocateCommandBuffer => Some(Step::BeginCommands),
            Step::BeginCommands => Some(Step::RecordDispatch),
            Step::RecordDispatch => Some(Step::EndCommands),
            Step::EndCommands => Some(Step::Submit),
            Step::Submit => Some(Step::WaitIdle),
            Step::WaitIdle => Some(Step::ReadBack),
            Step::ReadBack => Some(Step::EncodeImage),
            Step::EncodeImage => None,
        }
    }

    /// The resource that exists once the step has succeeded, if it creates
    /// one.
    pub fn creates(self) -> (resource: Option<Resource>)
        ensures
            resource == acquires(self),
    {
        match self {
            Step::CreateInstance => Some(Resource::Instance),
            Step::CreateDevice => Some(Resource::Device),
            Step::CreateShaderModule => Some(Resource::ShaderModule),
            Step::CreateDescriptorSetLayout => Some(Resource::DescriptorSetLayout),
            Step::CreatePipelineLayout => Some(Resource::PipelineLayout),
            Step::CreatePipeline => Some(Resource::Pipeline),
            Step::CreateBuffer(slot) => Some(Resource::Buffer(slot)),
            Step::AllocateMemory(slot) => Some(Resource::Memory(slot)),
            Step::CreateDescriptorPool => Some(Resource::DescriptorPool),
            Step::CreateCommandPool => Some(Resource::CommandPool),
            _ => None,
        }
    }

    /// The component the step belongs to.
    pub fn component(self) -> (component: Component)
        ensures
            component == component_of(self),
    {
        match self {
            Step::PrepareDriver
            | Step::LoadEntry
            | Step::CreateInstance
            | Step::SelectDevice
            | Step::CreateDevice
            | Step::AcquireQueue
            | Step::CreateShaderModule
            | Step::CreateDescriptorSetLayout
            | Step::CreatePipelineLayout
            | Step::CreatePipeline => Component::Context,
            Step::DecodeImage | Step::EncodeImage => Component::Codec,
            Step::CreateBuffer(_)
            | Step::QueryMemory(_)
            | Step::AllocateMemory(_)
            | Step::BindMemory(_)
            | Step::FillBuffer(_) => Component::Buffers,
            _ => Component::Dispatch,
        }
    }
}

} // verus!
