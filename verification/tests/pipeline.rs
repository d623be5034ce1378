use v_upscale::device::{DeviceChoice, QueueFamily};
use v_upscale::error::UpscaleError;
use v_upscale::memory::MemoryType;
use v_upscale::pipeline::{validate_request, Action, Event, Phase, Upscaler};
use v_upscale::resources::{BufferSlot, LiveSet, Resource};
use v_upscale::steps::Step;

const WIDTH: u32 = 100;
const HEIGHT: u32 = 50;

fn devices() -> Vec<Vec<QueueFamily>> {
    vec![
        vec![QueueFamily { queue_flags: 0x1, queue_count: 1 }],
        vec![
            QueueFamily { queue_flags: 0x4, queue_count: 2 },
            QueueFamily { queue_flags: 0x3, queue_count: 1 },
        ],
    ]
}

fn memory_types() -> Vec<MemoryType> {
    vec![
        MemoryType { property_flags: 0x1, heap_index: 0 },
        MemoryType { property_flags: 0x6, heap_index: 1 },
        MemoryType { property_flags: 0x7, heap_index: 0 },
    ]
}

fn answer(action: &Action) -> Event {
    match action {
        Action::EnumerateDevices => Event::Devices(devices()),
        Action::DecodeImage => {
            Event::Decoded { width: WIDTH, height: HEIGHT, len: (WIDTH * HEIGHT * 4) as usize }
        }
        Action::QueryMemory { slot: BufferSlot::Input } => {
            Event::MemoryReport { size: 20480, type_bits: 0b110, types: memory_types() }
        }
        Action::QueryMemory { slot: BufferSlot::Output } => {
            Event::MemoryReport { size: 180224, type_bits: 0b100, types: memory_types() }
        }
        _ => Event::Completed,
    }
}

fn run_until_failure(factor: u32, fail_at: Option<usize>) -> (Vec<Action>, Upscaler) {
    let mut machine = Upscaler::begin(true, factor).unwrap();
    let mut actions = Vec::new();
    loop {
        let action = machine.action();
        actions.push(action);
        if let Action::Finish(_) = action {
            break;
        }
        let event =
            if Some(actions.len() - 1) == fail_at { Event::Failed } else { answer(&action) };
        machine.advance(&event);
        assert!(actions.len() <= 46);
    }
    (actions, machine)
}

fn created_by(action: &Action) -> Option<Resource> {
    match action {
        Action::CreateInstance => Some(Resource::Instance),
        Action::CreateDevice { .. } => Some(Resource::Device),
        Action::CreateShaderModule => Some(Resource::ShaderModule),
        Action::CreateDescriptorSetLayout => Some(Resource::DescriptorSetLayout),
        Action::CreatePipelineLayout => Some(Resource::PipelineLayout),
        Action::CreatePipeline => Some(Resource::Pipeline),
        Action::CreateBuffer { slot, .. } => Some(Resource::Buffer(*slot)),
        Action::AllocateMemory { slot, .. } => Some(Resource::Memory(*slot)),
        Action::CreateDescriptorPool => Some(Resource::DescriptorPool),
        Action::CreateCommandPool { .. } => Some(Resource::CommandPool),
        _ => None,
    }
}

fn release_order() -> Vec<Resource> {
    vec![
        Resource::CommandPool,
        Resource::DescriptorPool,
        Resource::Buffer(BufferSlot::Input),
        Resource::Memory(BufferSlot::Input),
        Resource::Buffer(BufferSlot::Output),
        Resource::Memory(BufferSlot::Output),
        Resource::Pipeline,
        Resource::PipelineLayout,
        Resource::DescriptorSetLayout,
        Resource::ShaderModule,
        Resource::Device,
        Resource::Instance,
    ]
}

fn forward_actions(factor: u32) -> Vec<Action> {
    let choice = DeviceChoice { device_index: 1, queue_family_index: 1 };
    let out_width = WIDTH * factor;
    let out_height = HEIGHT * factor;
    let in_len = (WIDTH * HEIGHT * 4) as usize;
    let out_len = (out_width * out_height * 4) as usize;
    vec![
        Action::PrepareDriver,
        Action::LoadEntry,
        Action::CreateInstance,
        Action::EnumerateDevices,
        Action::CreateDevice { choice },
        Action::AcquireQueue { queue_family_index: 1 },
        Action::CreateShaderModule,
        Action::CreateDescriptorSetLayout,
        Action::CreatePipelineLayout,
        Action::CreatePipeline,
        Action::DecodeImage,
        Action::CreateBuffer { slot: BufferSlot::Input, size: in_len as u64 },
        Action::QueryMemory { slot: BufferSlot::Input },
        Action::AllocateMemory { slot: BufferSlot::Input, size: 20480, memory_type_index: 1 },
        Action::BindMemory { slot: BufferSlot::Input },
        Action::FillBuffer { slot: BufferSlot::Input, len: in_len },
        Action::CreateBuffer { slot: BufferSlot::Output, size: out_len as u64 },
        Action::QueryMemory { slot: BufferSlot::Output },
        Action::AllocateMemory { slot: BufferSlot::Output, size: 180224, memory_type_index: 2 },
        Action::BindMemory { slot: BufferSlot::Output },
        Action::FillBuffer { slot: BufferSlot::Output, len: out_len },
        Action::CreateDescriptorPool,
        Action::AllocateDescriptorSet,
        Action::WriteDescriptors,
        Action::CreateCommandPool { queue_family_index: 1 },
        Action::AllocateCommandBuffer,
        Action::BeginCommands,
        Action::RecordDispatch {
            width: WIDTH,
            height: HEIGHT,
            factor,
            groups_x: (out_width + 15) / 16,
            groups_y: (out_height + 15) / 16,
        },
        Action::EndCommands,
        Action::Submit,
        Action::WaitIdle,
        Action::ReadBack { len: out_len },
        Action::EncodeImage { width: out_width, height: out_height },
    ]
}

#[test]
fn missing_input_is_rejected_before_anything_else() {
    assert_eq!(validate_request(false, 2), Err(UpscaleError::InputMissing));
    assert_eq!(validate_request(false, 0), Err(UpscaleError::InputMissing));
    assert_eq!(Upscaler::begin(false, 2).err(), Some(UpscaleError::InputMissing));
    assert_eq!(Upscaler::begin(false, 9).err(), Some(UpscaleError::InputMissing));
}

#[test]
fn factor_zero_and_nine_are_rejected_without_a_machine() {
    assert_eq!(validate_request(true, 0), Err(UpscaleError::InvalidFactor(0)));
    assert_eq!(validate_request(true, 9), Err(UpscaleError::InvalidFactor(9)));
    assert_eq!(Upscaler::begin(true, 0).err(), Some(UpscaleError::InvalidFactor(0)));
    assert_eq!(Upscaler::begin(true, 9).err(), Some(UpscaleError::InvalidFactor(9)));
}

#[test]
fn every_factor_from_one_to_eight_is_accepted() {
    for factor in 1..=8u32 {
        assert_eq!(validate_request(true, factor), Ok(()));
        let machine = Upscaler::begin(true, factor).unwrap();
        assert_eq!(machine.live(), LiveSet::empty());
        assert_eq!(machine.failure(), None);
        assert!(!machine.is_finished());
        assert_eq!(machine.action(), Action::PrepareDriver);
        assert_eq!(machine.state().factor, factor);
        assert_eq!(machine.state().phase, Phase::Forward(Step::PrepareDriver));
    }
}

#[test]
fn a_successful_run_follows_the_plan_and_releases_everything() {
    let (actions, machine) = run_until_failure(3, None);
    let mut expected = forward_actions(3);
    expected.extend(release_order().into_iter().map(Action::Destroy));
    expected.push(Action::Finish(None));
    assert_eq!(actions, expected);
    assert!(machine.is_finished());
    assert_eq!(machine.failure(), None);
    assert_eq!(machine.live(), LiveSet::empty());
}

#[test]
fn encoded_extent_is_factor_times_source_for_every_factor() {
    for factor in 1..=8u32 {
        let (actions, _) = run_until_failure(factor, None);
        assert!(actions
            .contains(&Action::EncodeImage { width: WIDTH * factor, height: HEIGHT * factor }));
        assert_eq!(actions, {
            let mut expected = forward_actions(factor);
            expected.extend(release_order().into_iter().map(Action::Destroy));
            expected.push(Action::Finish(None));
            expected
        });
    }
}

#[test]
fn a_failure_at_any_step_releases_exactly_what_was_created() {
    let plan = forward_actions(2);
    for fail_at in 0..plan.len() {
        let (actions, machine) = run_until_failure(2, Some(fail_at));
        assert_eq!(&actions[..=fail_at], &plan[..=fail_at]);
        let created: Vec<Resource> = plan[..fail_at].iter().filter_map(created_by).collect();
        let expected_release: Vec<Action> = release_order()
            .into_iter()
            .filter(|resource| created.contains(resource))
            .map(Action::Destroy)
            .collect();
        let tail = &actions[fail_at + 1..];
        assert_eq!(&tail[..tail.len() - 1], &expected_release[..]);
        assert!(matches!(tail[tail.len() - 1], Action::Finish(Some(UpscaleError::StepFailed(_)))));
        assert!(machine.is_finished());
        assert_eq!(machine.live(), LiveSet::empty());
    }
}

#[test]
fn creates_and_destroys_balance_for_every_failure_point() {
    for fail_at in (0..33).map(Some).chain(std::iter::once(None)) {
        let (actions, _) = run_until_failure(4, fail_at);
        for resource in release_order() {
            let created = actions
                .iter()
                .enumerate()
                .filter(|(index, action)| {
                    created_by(action) == Some(resource) && Some(*index) != fail_at
                })
                .count();
            let destroyed =
                actions.iter().filter(|action| **action == Action::Destroy(resource)).count();
            assert_eq!(created, destroyed);
            assert!(created <= 1);
        }
    }
}

#[test]
fn the_failing_step_is_reported() {
    let (actions, machine) = run_until_failure(2, Some(0));
    assert_eq!(
        actions,
        vec![
            Action::PrepareDriver,
            Action::Finish(Some(UpscaleError::StepFailed(Step::PrepareDriver)))
        ]
    );
    assert_eq!(machine.failure(), Some(UpscaleError::StepFailed(Step::PrepareDriver)));

    let (actions, _) = run_until_failure(2, Some(13));
    assert_eq!(
        actions[actions.len() - 1],
        Action::Finish(Some(UpscaleError::StepFailed(Step::AllocateMemory(BufferSlot::Input))))
    );
    let (actions, _) = run_until_failure(2, Some(32));
    assert_eq!(
        actions[actions.len() - 1],
        Action::Finish(Some(UpscaleError::StepFailed(Step::EncodeImage)))
    );
    assert_eq!(actions.len(), 33 + 12 + 1);
}

#[test]
fn context_is_released_pipeline_first_instance_last() {
    let (actions, _) = run_until_failure(2, Some(10));
    assert_eq!(
        &actions[11..],
        &[
            Action::Destroy(Resource::Pipeline),
            Action::Destroy(Resource::PipelineLayout),
            Action::Destroy(Resource::DescriptorSetLayout),
            Action::Destroy(Resource::ShaderModule),
            Action::Destroy(Resource::Device),
            Action::Destroy(Resource::Instance),
            Action::Finish(Some(UpscaleError::StepFailed(Step::DecodeImage))),
        ]
    );
}

#[test]
fn no_compute_device_ends_the_operation() {
    let mut machine = Upscaler::begin(true, 2).unwrap();
    for _ in 0..3 {
        machine.advance(&Event::Completed);
    }
    assert_eq!(machine.action(), Action::EnumerateDevices);
    machine.advance(&Event::Devices(vec![vec![QueueFamily { queue_flags: 0x1, queue_count: 4 }]]));
    assert_eq!(machine.failure(), Some(UpscaleError::NoComputeDevice));
    assert_eq!(machine.action(), Action::Destroy(Resource::Instance));
    machine.advance(&Event::Completed);
    assert_eq!(machine.action(), Action::Finish(Some(UpscaleError::NoComputeDevice)));
    assert!(machine.is_finished());
}

fn machine_at_decode(factor: u32) -> Upscaler {
    let mut machine = Upscaler::begin(true, factor).unwrap();
    while machine.action() != Action::DecodeImage {
        let event = answer(&machine.action());
        machine.advance(&event);
    }
    machine
}

#[test]
fn no_compatible_memory_ends_the_operation() {
    let mut machine = machine_at_decode(2);
    machine.advance(&answer(&Action::DecodeImage));
    machine.advance(&Event::Completed);
    assert_eq!(machine.action(), Action::QueryMemory { slot: BufferSlot::Input });
    machine.advance(&Event::MemoryReport { size: 64, type_bits: 0b001, types: memory_types() });
    assert_eq!(machine.failure(), Some(UpscaleError::NoCompatibleMemory));
    assert_eq!(machine.action(), Action::Destroy(Resource::Buffer(BufferSlot::Input)));
    let mut released = Vec::new();
    while let Action::Destroy(resource) = machine.action() {
        released.push(resource);
        machine.advance(&Event::Completed);
    }
    assert_eq!(
        released,
        vec![
            Resource::Buffer(BufferSlot::Input),
            Resource::Pipeline,
            Resource::PipelineLayout,
            Resource::DescriptorSetLayout,
            Resource::ShaderModule,
            Resource::Device,
            Resource::Instance,
        ]
    );
    assert_eq!(machine.action(), Action::Finish(Some(UpscaleError::NoCompatibleMemory)));
}

#[test]
fn pixel_data_of_the_wrong_length_is_refused() {
    let mut machine = machine_at_decode(2);
    machine.advance(&Event::Decoded { width: 10, height: 10, len: 399 });
    assert_eq!(machine.failure(), Some(UpscaleError::BadPixelData));
    assert_eq!(machine.action(), Action::Destroy(Resource::Pipeline));
}

#[test]
fn an_image_too_large_to_upscale_is_refused() {
    let mut machine = machine_at_decode(8);
    machine.advance(&Event::Decoded { width: 1 << 30, height: 0, len: 0 });
    assert_eq!(machine.failure(), Some(UpscaleError::ImageTooLarge));
    assert_eq!(machine.action(), Action::Destroy(Resource::Pipeline));
}

#[test]
fn an_event_of_the_wrong_kind_counts_as_failure() {
    let mut machine = Upscaler::begin(true, 2).unwrap();
    machine.advance(&Event::Devices(devices()));
    assert_eq!(machine.failure(), Some(UpscaleError::StepFailed(Step::PrepareDriver)));
    assert!(machine.is_finished());

    let mut machine = machine_at_decode(2);
    machine.advance(&Event::Completed);
    assert_eq!(machine.failure(), Some(UpscaleError::StepFailed(Step::DecodeImage)));

    let mut machine = Upscaler::begin(true, 2).unwrap();
    for _ in 0..3 {
        machine.advance(&Event::Completed);
    }
    machine.advance(&Event::Completed);
    assert_eq!(machine.failure(), Some(UpscaleError::StepFailed(Step::SelectDevice)));
}

#[test]
fn a_finished_machine_does_not_move() {
    let (_, mut machine) = run_until_failure(2, Some(5));
    let verdict = machine.action();
    assert!(matches!(verdict, Action::Finish(Some(_))));
    for event in [Event::Completed, Event::Failed, Event::Devices(devices())] {
        machine.advance(&event);
        assert!(machine.is_finished());
        assert_eq!(machine.action(), verdict);
        assert_eq!(machine.live(), LiveSet::empty());
    }
}

#[test]
fn release_ignores_what_the_events_say() {
    let mut machine = machine_at_decode(2);
    machine.advance(&Event::Failed);
    let mut released = Vec::new();
    while let Action::Destroy(resource) = machine.action() {
        released.push(resource);
        machine.advance(&Event::Failed);
    }
    assert_eq!(released, release_order()[6..].to_vec());
    assert_eq!(
        machine.action(),
        Action::Finish(Some(UpscaleError::StepFailed(Step::DecodeImage)))
    );
}

#[test]
fn dispatch_of_a_257_by_16_output_uses_17_by_1_groups() {
    let mut machine = machine_at_decode(1);
    machine.advance(&Event::Decoded { width: 257, height: 16, len: 257 * 16 * 4 });
    loop {
        let action = machine.action();
        if let Action::RecordDispatch { width, height, factor, groups_x, groups_y } = action {
            assert_eq!((width, height, factor), (257, 16, 1));
            assert_eq!((groups_x, groups_y), (17, 1));
            break;
        }
        assert!(!matches!(action, Action::Finish(_)));
        machine.advance(&answer(&action));
    }
}

#[test]
fn live_set_grows_with_every_creating_step() {
    let mut machine = Upscaler::begin(true, 2).unwrap();
    let mut expected = LiveSet::empty();
    loop {
        let action = machine.action();
        if let Action::Destroy(_) = action {
            break;
        }
        assert_eq!(machine.live(), expected);
        machine.advance(&answer(&action));
        if let Some(resource) = created_by(&action) {
            assert!(!expected.has(resource));
            expected = expected.updated(resource, true);
        }
    }
    for resource in release_order() {
        assert!(machine.live().has(resource));
    }
}
