use crate::constants::COMMAND_BUFFER_USAGE_ONE_TIME_SUBMIT;
use crate::constants::FENCE_CREATE_SIGNALED;
use crate::device::recorded;
use crate::device::record_all;
use crate::device::Command;
use crate::device::Device;
use crate::device::QueueStep;
use crate::device::SubmitInfo;
use vstd::prelude::*;

verus! {

/// The steps of one blocking submission of `commands`: reset the fence and
/// the buffer, begin the buffer for a single use, record, end, submit to the
/// graphics queue with the fence and no semaphore, and wait for the fence
/// as long as it takes.
pub open spec fn immediate_steps(
    queue: u64,
    command_buffer: u64,
    fence: u64,
    commands: Seq<Command>,
) -> Seq<QueueStep> {
    seq![
        QueueStep::ResetFence(fence),
        QueueStep::ResetCommandBuffer(command_buffer),
        QueueStep::BeginCommandBuffer {
            command_buffer,
            flags: COMMAND_BUFFER_USAGE_ONE_TIME_SUBMIT,
        },
    ] + recorded(commands) + seq![
        QueueStep::EndCommandBuffer(command_buffer),
        QueueStep::Submit(
            SubmitInfo {
                queue,
                command_buffer,
                wait_semaphore: None,
                signal_semaphore: None,
                fence,
            },
        ),
        QueueStep::WaitForFence { fence, timeout: u64::MAX },
    ]
}

/// The command pool, buffer and fence set aside for work that must be done
/// before the CPU goes on: uploads while resources are set up.
#[derive(Debug, PartialEq, Eq, Structural)]
pub struct ImmediateCommandData {
    command_pool: u64,
    command_buffer: u64,
    fence: u64,
}

impl ImmediateCommandData {
    pub closed spec fn spec_command_pool(&self) -> u64 {
        self.command_pool
    }

    pub closed spec fn spec_command_buffer(&self) -> u64 {
        self.command_buffer
    }

    pub closed spec fn spec_fence(&self) -> u64 {
        self.fence
    }

    /// The flags to create the fence with: signaled, so that the first
    /// submission finds nothing to wait for.
    pub fn fence_flags() -> (flags: u32)
        ensures
            flags == FENCE_CREATE_SIGNALED,
    {
        FENCE_CREATE_SIGNALED
    }

    pub fn new(command_pool: u64, command_buffer: u64, fence: u64) -> (data: Self)
        ensures
            data.spec_command_pool() == command_pool,
            data.spec_command_buffer() == command_buffer,
            data.spec_fence() == fence,
    {
        ImmediateCommandData { command_pool, command_buffer, fence }
    }

    /// The steps that run `commands` on the device and return when they are
    /// done.
    pub fn immediate_submit(&self, device: &Device, commands: &Vec<Command>) -> (steps: Vec<
        QueueStep,
    >)
        ensures
            steps@ == immediate_steps(
                device.graphics_queue_handle(),
                self.spec_command_buffer(),
                self.spec_fence(),
                commands@,
            ),
    {
        let mut steps: Vec<QueueStep> = Vec::new();
        steps.push(device.reset_fence(self.fence));
        steps.push(device.reset_command_buffer(self.command_buffer));
        steps.push(
            device.begin_command_buffer(self.command_buffer, COMMAND_BUFFER_USAGE_ONE_TIME_SUBMIT),
        );
        record_all(&mut steps, commands);
        steps.push(device.end_command_buffer(self.command_buffer));
        let submit_info = SubmitInfo {
            queue: 0,
            command_buffer: self.command_buffer,
            wait_semaphore: None,
            signal_semaphore: None,
            fence: 0,
        };
        steps.push(device.submit_to_graphics_queue(submit_info, self.fence));
        steps.push(device.wait_for_fence(self.fence, u64::MAX));
        assert(steps@ =~= immediate_steps(
            device.graphics_queue_handle(),
            self.spec_command_buffer(),
            self.spec_fence(),
            commands@,
        ));
        steps
    }

    /// What the caller destroys to give this up: the command pool, then the
    /// fence.
    pub fn release(self) -> (teardown: (u64, u64))
        ensures
            teardown == (self.spec_command_pool(), self.spec_fence()),
    {
        (self.command_pool, self.fence)
    }
}

} // verus!
