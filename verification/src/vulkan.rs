use vstd::prelude::*;

use crate::errors::GpuError;

verus! {

/// The result code of a Vulkan call that succeeded.
pub const VK_SUCCESS: i32 = 0;

/// A three-dimensional extent, in texels.
#[derive(Clone, Copy, Debug, PartialEq, Eq, Structural)]
pub struct Extent3D {
    pub width: u32,
    pub height: u32,
    pub depth: u32,
}

/// What a physical device reports of one of its queue families.
#[derive(Clone, Copy, Debug, PartialEq, Eq, Structural)]
pub struct QueueFamilyProperties {
    pub queue_flags: u32,
    pub queue_count: u32,
    pub timestamp_valid_bits: u32,
    pub min_image_transfer_granularity: Extent3D,
}

/// What becomes of one instance handle when the adapter closes.
#[derive(Clone, Copy, Debug, PartialEq, Eq, Structural)]
pub enum InstanceTeardown {
    /// The instance exists and is destroyed.
    Destroy(u64),
    /// The handle is null: the instance was never created, which is reported.
    NotInitialized,
}

/// The Vulkan state of the engine. Handles are held as integers; zero is the
/// null handle.
pub struct Vulkan {
    pub instance: Vec<u64>,
    pub physical_devices: Vec<u64>,
    pub physical_devices_families: Vec<QueueFamilyProperties>,
    pub surface: Vec<u64>,
}

/// The step taken at close for one instance handle.
pub open spec fn teardown_of(handle: u64) -> InstanceTeardown {
    if handle == 0 {
        InstanceTeardown::NotInitialized
    } else {
        InstanceTeardown::Destroy(handle)
    }
}

/// A handle is reported as never created exactly when it is null; every
/// other handle, whatever its value, is destroyed as it is.
pub proof fn lemma_teardown_destroys_live_handles(handle: u64)
    ensures
        (teardown_of(handle) is NotInitialized) <==> handle == 0,
        handle != 0 ==> teardown_of(handle) == InstanceTeardown::Destroy(handle),
{
}

impl Vulkan {
    /// Checks the result of creating the instance: success, or the error
    /// "failed to create Vulkan instance".
    pub fn check_instance_creation(result: i32) -> (r: Result<(), GpuError>)
        ensures
            r is Ok <==> result == VK_SUCCESS,
            r matches Err(e) ==> e.0@ == "failed to create Vulkan instance"@,
    {
        if result != VK_SUCCESS {
            Err(GpuError(String::from_str("failed to create Vulkan instance")))
        } else {
            Ok(())
        }
    }

    /// Checks the instance a creation call handed back: the handle the call
    /// wrote when it succeeded, whatever it is, or the error
    /// "Could not create Vulkan Instance" when the call failed.
    pub fn check_created_instance(result: i32, handle: u64) -> (r: Result<u64, GpuError>)
        ensures
            r is Ok <==> result == VK_SUCCESS,
            r matches Ok(h) ==> h == handle,
            r matches Err(e) ==> e.0@ == "Could not create Vulkan Instance"@,
    {
        if result != VK_SUCCESS {
            Err(GpuError(String::from_str("Could not create Vulkan Instance")))
        } else {
            Ok(handle)
        }
    }

    /// The state right after initialization: the created instance, the
    /// physical devices and their queue families, and no surface yet.
    pub fn from_parts(
        instance: Vec<u64>,
        physical_devices: Vec<u64>,
        physical_devices_families: Vec<QueueFamilyProperties>,
    ) -> (v: Vulkan)
        ensures
            v.instance@ == instance@,
            v.physical_devices@ == physical_devices@,
            v.physical_devices_families@ == physical_devices_families@,
            v.surface@ == Seq::<u64>::empty(),
    {
        Vulkan { instance, physical_devices, physical_devices_families, surface: Vec::new() }
    }

    /// Walks the queue families looking for graphics and presentation
    /// queues; no family is selected yet, so the state is left as it is.
    pub fn init_devices(&mut self)
        ensures
            final(self).instance@ == old(self).instance@,
            final(self).physical_devices@ == old(self).physical_devices@,
            final(self).physical_devices_families@ == old(self).physical_devices_families@,
            final(self).surface@ == old(self).surface@,
    {
        let graphics_index: u32 = u32::MAX;
        let presents_index: u32 = u32::MAX;
        let count = self.physical_devices_families.len();
        let mut index: usize = 0;
        while index < count
            invariant
                index <= count,
                count == self.physical_devices_families.len(),
            decreases count - index,
        {
            let _family = &self.physical_devices_families[index];
            index = index + 1;
        }
    }

    /// The steps of closing the adapter, one per instance handle, in order.
    pub fn teardown(&self) -> (steps: Vec<InstanceTeardown>)
        ensures
            steps@.len() == self.instance@.len(),
            forall|i: int|
                0 <= i < steps@.len() ==> #[trigger] steps@[i] == teardown_of(self.instance@[i]),
            forall|i: int|
                0 <= i < steps@.len() ==> (#[trigger] steps@[i] == InstanceTeardown::NotInitialized
                    <==> self.instance@[i] == 0),
    {
        let mut steps: Vec<InstanceTeardown> = Vec::new();
        let mut i: usize = 0;
        while i < self.instance.len()
            invariant
                i <= self.instance@.len(),
                steps@.len() == i,
                forall|j: int|
                    0 <= j < i ==> #[trigger] steps@[j] == teardown_of(self.instance@[j]),
            decreases self.instance@.len() - i,
        {
            let handle = self.instance[i];
            if handle != 0 {
                steps.push(InstanceTeardown::Destroy(handle));
            } else {
                steps.push(InstanceTeardown::NotInitialized);
            }
            i = i + 1;
        }
        steps
    }
}

} // verus!
