//! The GPU objects of one upscale operation and the order of their release.

use vstd::prelude::*;

verus! {

/// Which of the two pixel buffers is meant.
#[derive(Clone, Copy, Debug, PartialEq, Eq, Structural)]
pub enum BufferSlot {
    /// The source pixels, bound at slot 0.
    Input,
    /// The upscaled pixels, bound at slot 1.
    Output,
}

/// Number of buffer bindings of the descriptor set.
pub const BINDING_COUNT: u32 = 2;

/// Number of descriptor sets of a dispatch.
pub const DESCRIPTOR_SET_COUNT: u32 = 1;

/// The binding index of a slot.
pub open spec fn binding_of(slot: BufferSlot) -> u32 {
    match slot {
        BufferSlot::Input => 0,
        BufferSlot::Output => 1,
    }
}

impl BufferSlot {
    /// The binding index at which the kernel finds the slot's buffer: 0
    /// for the input, 1 for the output.
    pub fn binding(self) -> (index: u32)
        ensures
            index == binding_of(self),
            index < BINDING_COUNT,
    {
        match self {
            BufferSlot::Input => 0,
            BufferSlot::Output => 1,
        }
    }
}

/// A GPU object that is created explicitly and must be released explicitly.
///
/// Descriptor sets and command buffers are not listed: they are freed with
/// the pool they were allocated from.
#[derive(Clone, Copy, Debug, PartialEq, Eq, Structural)]
pub enum Resource {
    /// The API instance.
    Instance,
    /// The logical device with its one compute queue.
    Device,
    /// The kernel module.
    ShaderModule,
    /// The layout of the two storage-buffer bindings.
    DescriptorSetLayout,
    /// The pipeline layout: descriptor-set layout and push-parameter range.
    PipelineLayout,
    /// The compiled compute pipeline.
    Pipeline,
    /// The buffer object of a slot.
    Buffer(BufferSlot),
    /// The device memory behind the buffer of a slot.
    Memory(BufferSlot),
    /// The single-use descriptor pool of a dispatch.
    DescriptorPool,
    /// The command pool of a dispatch.
    CommandPool,
}

/// Number of distinct resources.
pub const RESOURCE_COUNT: u32 = 12;

/// Position of a resource in the release order: lower ranks are released
/// first.
pub open spec fn release_rank(resource: Resource) -> nat {
    match resource {
        Resource::CommandPool => 0,
        Resource::DescriptorPool => 1,
        Resource::Buffer(BufferSlot::Input) => 2,
        Resource::Memory(BufferSlot::Input) => 3,
        Resource::Buffer(BufferSlot::Output) => 4,
        Resource::Memory(BufferSlot::Output) => 5,
        Resource::Pipeline => 6,
        Resource::PipelineLayout => 7,
        Resource::DescriptorSetLayout => 8,
        Resource::ShaderModule => 9,
        Resource::Device => 10,
        Resource::Instance => 11,
    }
}

/// Whether `user` cannot exist without `base`: the pipeline is built from
/// its layout and the kernel module, the pipeline layout from the
/// descriptor-set layout, every device-level object from the logical device,
/// and the logical device from the instance. A buffer is backed by the
/// memory of its slot.
pub open spec fn depends_on(user: Resource, base: Resource) -> bool {
    match (user, base) {
        (Resource::Pipeline, Resource::PipelineLayout) => true,
        (Resource::Pipeline, Resource::ShaderModule) => true,
        (Resource::PipelineLayout, Resource::DescriptorSetLayout) => true,
        (Resource::Device, Resource::Instance) => true,
        (Resource::Instance, Resource::Device) => false,
        (Resource::Device, _) => false,
        (Resource::Instance, _) => false,
        (_, Resource::Device) => true,
        _ => false,
    }
}

/// Whether `buffer` is a buffer and `memory` the memory of the same slot.
pub open spec fn backed_by(buffer: Resource, memory: Resource) -> bool {
    match (buffer, memory) {
        (Resource::Buffer(a), Resource::Memory(b)) => a == b,
        _ => false,
    }
}

/// Whether `resource` is one of the two pools of a dispatch.
pub open spec fn is_pool(resource: Resource) -> bool {
    resource == Resource::CommandPool || resource == Resource::DescriptorPool
}

/// Whether `resource` is a buffer or the memory behind one.
pub open spec fn is_buffer_storage(resource: Resource) -> bool {
    resource is Buffer || resource is Memory
}

/// The release order honours every dependency: whatever depends on a
/// resource is released before it, both pools are released before any
/// buffer or memory, and each buffer before the memory that backs it.
pub proof fn release_order_respects_dependencies(first: Resource, second: Resource)
    ensures
        depends_on(first, second) ==> release_rank(first) < release_rank(second),
        is_pool(first) && is_buffer_storage(second) ==> release_rank(first) < release_rank(second),
        backed_by(first, second) ==> release_rank(first) < release_rank(second),
        release_rank(first) == release_rank(second) ==> first == second,
        release_rank(first) < RESOURCE_COUNT,
{
}

/// The set of resources that currently exist, one flag each.
#[derive(Clone, Copy, Debug, PartialEq, Eq, Structural)]
pub struct LiveSet {
    pub instance: bool,
    pub device: bool,
    pub shader_module: bool,
    pub descriptor_set_layout: bool,
    pub pipeline_layout: bool,
    pub pipeline: bool,
    pub input_buffer: bool,
    pub input_memory: bool,
    pub output_buffer: bool,
    pub output_memory: bool,
    pub descriptor_pool: bool,
    pub command_pool: bool,
}

/// `1` for a set flag, `0` otherwise.
pub open spec fn flag_weight(flag: bool) -> nat {
    if flag {
        1
    } else {
        0
    }
}

impl LiveSet {
    /// The set without any resource.
    pub open spec fn nothing() -> LiveSet {
        LiveSet {
            instance: false,
            device: false,
            shader_module: false,
            descriptor_set_layout: false,
            pipeline_layout: false,
            pipeline: false,
            input_buffer: false,
            input_memory: false,
            output_buffer: false,
            output_memory: false,
            descriptor_pool: false,
            command_pool: false,
        }
    }

    /// Whether `resource` is in the set.
    pub open spec fn contains(self, resource: Resource) -> bool {
        match resource {
            Resource::Instance => self.instance,
            Resource::Device => self.device,
            Resource::ShaderModule => self.shader_module,
            Resource::DescriptorSetLayout => self.descriptor_set_layout,
            Resource::PipelineLayout => self.pipeline_layout,
            Resource::Pipeline => self.pipeline,
            Resource::Buffer(BufferSlot::Input) => self.input_buffer,
            Resource::Memory(BufferSlot::Input) => self.input_memory,
            Resource::Buffer(BufferSlot::Output) => self.output_buffer,
            Resource::Memory(BufferSlot::Output) => self.output_memory,
            Resource::DescriptorPool => self.descriptor_pool,
            Resource::CommandPool => self.command_pool,
        }
    }

    /// The set with the flag of `resource` set to `present`.
    pub open spec fn put(self, resource: Resource, present: bool) -> LiveSet {
        match resource {
            Resource::Instance => LiveSet { instance: present, ..self },
            Resource::Device => LiveSet { device: present, ..self },
            Resource::ShaderModule => LiveSet { shader_module: present, ..self },
            Resource::DescriptorSetLayout => LiveSet { descriptor_set_layout: present, ..self },
            Resource::PipelineLayout => LiveSet { pipeline_layout: present, ..self },
            Resource::Pipeline => LiveSet { pipeline: present, ..self },
            Resource::Buffer(BufferSlot::Input) => LiveSet { input_buffer: present, ..self },
            Resource::Memory(BufferSlot::Input) => LiveSet { input_memory: present, ..self },
            Resource::Buffer(BufferSlot::Output) => LiveSet { output_buffer: present, ..self },
            Resource::Memory(BufferSlot::Output) => LiveSet { output_memory: present, ..self },
            Resource::DescriptorPool => LiveSet { descriptor_pool: present, ..self },
            Resource::CommandPool => LiveSet { command_pool: present, ..self },
        }
    }

    /// The set with `resource` added.
    pub open spec fn with(self, resource: Resource) -> LiveSet {
        self.put(resource, true)
    }

    /// The set with `resource` taken out.
    pub open spec fn without(self, resource: Resource) -> LiveSet {
        self.put(resource, false)
    }

    /// Whether every dependency of every member is a member too.
    pub open spec fn closed_under_dependencies(self) -> bool {
        forall|user: Resource, base: Resource|
            self.contains(user) && #[trigger] depends_on(user, base) ==> self.contains(base)
    }

    /// Whether `resource` is the member that is released next: no member
    /// has a lower release rank.
    pub open spec fn releases_next(self, resource: Resource) -> bool {
        &&& self.contains(resource)
        &&& forall|other: Resource| #[trigger]
            self.contains(other) ==> release_rank(resource) <= release_rank(other)
    }

    /// The member that is released next, `None` for the empty set.
    pub open spec fn head(self) -> Option<Resource> {
        if self.command_pool {
            Some(Resource::CommandPool)
        } else if self.descriptor_pool {
            Some(Resource::DescriptorPool)
        } else if self.input_buffer {
            Some(Resource::Buffer(BufferSlot::Input))
        } else if self.input_memory {
            Some(Resource::Memory(BufferSlot::Input))
        } else if self.output_buffer {
            Some(Resource::Buffer(BufferSlot::Output))
        } else if self.output_memory {
            Some(Resource::Memory(BufferSlot::Output))
        } else if self.pipeline {
            Some(Resource::Pipeline)
        } else if self.pipeline_layout {
            Some(Resource::PipelineLayout)
        } else if self.descriptor_set_layout {
            Some(Resource::DescriptorSetLayout)
        } else if self.shader_module {
            Some(Resource::ShaderModule)
        } else if self.device {
            Some(Resource::Device)
        } else if self.instance {
            Some(Resource::Instance)
        } else {
            None
        }
    }

    /// `head` is the member of least release rank, and it is `None` only
    /// for the empty set.
    pub proof fn head_is_lowest(self)
        ensures
            match self.head() {
                Some(resource) => self.releases_next(resource),
                None => self == LiveSet::nothing(),
            },
    {
    }

    /// Taking the head out of a set that is closed under dependencies
    /// leaves it closed: nothing that remains depended on the head.
    pub proof fn release_keeps_closure(self)
        requires
            self.closed_under_dependencies(),
            self.head() is Some,
        ensures
            self.without(self.head()->Some_0).closed_under_dependencies(),
    {
        let head = self.head()->Some_0;
        let rest = self.without(head);
        self.head_is_lowest();
        assert forall|user: Resource, base: Resource|
            rest.contains(user) && #[trigger] depends_on(user, base) implies rest.contains(
            base,
        ) by {
            self.put_changes_one_flag(head, false, user);
            self.put_changes_one_flag(head, false, base);
            release_order_respects_dependencies(user, base);
        }
    }

    /// Changing one flag sets that member and touches no other.
    pub proof fn put_changes_one_flag(self, resource: Resource, present: bool, other: Resource)
        ensures
            self.put(resource, present).contains(resource) == present,
            other != resource ==> self.put(resource, present).contains(other) == self.contains(
                other,
            ),
    {
    }

    /// The empty set.
    pub fn empty() -> (live: LiveSet)
        ensures
            live == LiveSet::nothing(),
    {
        LiveSet {
            instance: false,
            device: false,
            shader_module: false,
            descriptor_set_layout: false,
            pipeline_layout: false,
            pipeline: false,
            input_buffer: false,
            input_memory: false,
            output_buffer: false,
            output_memory: false,
            descriptor_pool: false,
            command_pool: false,
        }
    }

    /// Whether `resource` currently exists.
    pub fn has(&self, resource: Resource) -> (present: bool)
        ensures
            present == self.contains(resource),
    {
        match resource {
            Resource::Instance => self.instance,
            Resource::Device => self.device,
            Resource::ShaderModule => self.shader_module,
            Resource::DescriptorSetLayout => self.descriptor_set_layout,
            Resource::PipelineLayout => self.pipeline_layout,
            Resource::Pipeline => self.pipeline,
            Resource::Buffer(BufferSlot::Input) => self.input_buffer,
            Resource::Memory(BufferSlot::Input) => self.input_memory,
            Resource::Buffer(BufferSlot::Output) => self.output_buffer,
            Resource::Memory(BufferSlot::Output) => self.output_memory,
            Resource::DescriptorPool => self.descriptor_pool,
            Resource::CommandPool => self.command_pool,
        }
    }

    /// The set with the flag of `resource` set to `present`.
    pub fn updated(self, resource: Resource, present: bool) -> (out: LiveSet)
        ensures
            out == self.put(resource, present),
    {
        match resource {
            Resource::Instance => LiveSet { instance: present, ..self },
            Resource::Device => LiveSet { device: present, ..self },
            Resource::ShaderModule => LiveSet { shader_module: present, ..self },
            Resource::DescriptorSetLayout => LiveSet { descriptor_set_layout: present, ..self },
            Resource::PipelineLayout => LiveSet { pipeline_layout: present, ..self },
            Resource::Pipeline => LiveSet { pipeline: present, ..self },
            Resource::Buffer(BufferSlot::Input) => LiveSet { input_buffer: present, ..self },
            Resource::Memory(BufferSlot::Input) => LiveSet { input_memory: present, ..self },
            Resource::Buffer(BufferSlot::Output) => LiveSet { output_buffer: present, ..self },
            Resource::Memory(BufferSlot::Output) => LiveSet { output_memory: present, ..self },
            Resource::DescriptorPool => LiveSet { descriptor_pool: present, ..self },
            Resource::CommandPool => LiveSet { command_pool: present, ..self },
        }
    }

    /// The resource to release next: the live one of least release rank.
    /// `None` exactly when nothing is live.
    pub fn next_release(&self) -> (next: Option<Resource>)
        ensures
            next == self.head(),
            match next {
                Some(resource) => self.releases_next(resource),
                None => *self == LiveSet::nothing(),
            },
    {
        proof {
            self.head_is_lowest();
        }
        if self.command_pool {
            Some(Resource::CommandPool)
        } else if self.descriptor_pool {
            Some(Resource::DescriptorPool)
        } else if self.input_buffer {
            Some(Resource::Buffer(BufferSlot::Input))
        } else if self.input_memory {
            Some(Resource::Memory(BufferSlot::Input))
        } else if self.output_buffer {
            Some(Resource::Buffer(BufferSlot::Output))
        } else if self.output_memory {
            Some(Resource::Memory(BufferSlot::Output))
        } else if self.pipeline {
            Some(Resource::Pipeline)
        } else if self.pipeline_layout {
            Some(Resource::PipelineLayout)
        } else if self.descriptor_set_layout {
            Some(Resource::DescriptorSetLayout)
        } else if self.shader_module {
            Some(Resource::ShaderModule)
        } else if self.device {
            Some(Resource::Device)
        } else if self.instance {
            Some(Resource::Instance)
        } else {
            None
        }
    }
}

} // verus!
