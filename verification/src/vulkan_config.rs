use vstd::prelude::*;

verus! {

/// The kind of a physical device, as the Vulkan driver reports it.
#[derive(Clone, Copy, Debug, PartialEq, Eq, Structural)]
pub enum DeviceType {
    IntegratedGpu,
    DiscreteGpu,
    VirtualGpu,
    Cpu,
    Other,
}

/// What the configuration knows of a physical device.
#[derive(Clone, Debug)]
pub struct GpuInfo {
    pub device_id: u32,
    pub device_type: DeviceType,
    pub name: String,
}

impl GpuInfo {
    /// An equal copy of this device's description.
    pub fn duplicate(&self) -> (res: GpuInfo)
        ensures
            res == *self,
    {
        GpuInfo { device_id: self.device_id, device_type: self.device_type, name: self.name.clone() }
    }
}

/// The device choice: the devices found, the one in use, and the one the
/// user asked to switch to.
#[derive(Clone, Debug)]
pub struct VulkanConfig {
    current_gpu: Option<GpuInfo>,
    target_gpu: Option<GpuInfo>,
    gpus: Vec<GpuInfo>,
    needs_reset: bool,
}

impl Default for VulkanConfig {
    /// No device in use, none asked for, none listed, no reset pending.
    fn default() -> (res: Self)
        ensures
            res.current() is None,
            res.target() is None,
            res.devices() == Seq::<GpuInfo>::empty(),
            !res.reset_requested(),
    {
        VulkanConfig { current_gpu: None, target_gpu: None, gpus: Vec::new(), needs_reset: false }
    }
}

impl VulkanConfig {
    /// The device in use.
    pub closed spec fn current(&self) -> Option<GpuInfo> {
        self.current_gpu
    }

    /// The device the user asked to switch to.
    pub closed spec fn target(&self) -> Option<GpuInfo> {
        self.target_gpu
    }

    /// The devices listed for the user to choose from.
    pub closed spec fn devices(&self) -> Seq<GpuInfo> {
        self.gpus@
    }

    /// Whether the renderer must be rebuilt on the target device.
    pub closed spec fn reset_requested(&self) -> bool {
        self.needs_reset
    }

    /// Whether no device is in use yet, so the device list must be filled.
    pub fn needs_devices(&self) -> (res: bool)
        ensures
            res == (self.current() is None),
    {
        self.current_gpu.is_none()
    }

    /// Forgets the pending switch once the renderer was rebuilt.
    pub fn clear_needs_reset(&mut self)
        ensures
            !final(self).reset_requested(),
            final(self).target() is None,
            final(self).current() == old(self).current(),
            final(self).devices() == old(self).devices(),
    {
        self.needs_reset = false;
        self.target_gpu = None;
    }

    /// Whether the renderer must be rebuilt on the target device.
    pub fn needs_reset(&self) -> (res: bool)
        ensures
            res == self.reset_requested(),
    {
        self.needs_reset
    }

    /// The device id of the target device, if one was asked for.
    pub fn target_device(&self) -> (res: Option<u32>)
        ensures
            res == (match self.target() {
                Some(d) => Some(d.device_id),
                None => None,
            }),
    {
        if let Some(device) = &self.target_gpu {
            return Some(device.device_id);
        }
        return None;
    }

    /// Records the device in use.
    pub fn set_current_device(&mut self, device: GpuInfo)
        ensures
            final(self).current() == Some(device),
            final(self).target() == old(self).target(),
            final(self).devices() == old(self).devices(),
            final(self).reset_requested() == old(self).reset_requested(),
    {
        self.current_gpu = Some(device);
    }

    /// Empties the device list.
    pub fn clear_devices(&mut self)
        ensures
            final(self).devices() == Seq::<GpuInfo>::empty(),
            final(self).current() == old(self).current(),
            final(self).target() == old(self).target(),
            final(self).reset_requested() == old(self).reset_requested(),
    {
        self.gpus = Vec::new();
    }

    /// Appends a device to the list.
    pub fn add_device(&mut self, device: GpuInfo)
        ensures
            final(self).devices() == old(self).devices().push(device),
            final(self).current() == old(self).current(),
            final(self).target() == old(self).target(),
            final(self).reset_requested() == old(self).reset_requested(),
    {
        self.gpus.push(device);
    }

    /// The devices listed for the user to choose from.
    pub fn devices_slice(&self) -> (res: &[GpuInfo])
        ensures
            res@ == self.devices(),
    {
        self.gpus.as_slice()
    }

    /// The device in use.
    pub fn current_device(&self) -> (res: Option<&GpuInfo>)
        ensures
            match res {
                Some(d) => self.current() == Some(*d),
                None => self.current() is None,
            },
    {
        match &self.current_gpu {
            Some(d) => Some(d),
            None => None,
        }
    }

    /// Whether listed device `index` is the device in use (same device id).
    pub fn is_active(&self, index: usize) -> (res: bool)
        requires
            self.current() is Some,
            index < self.devices().len(),
        ensures
            res == (self.current()->0.device_id == self.devices()[index as int].device_id),
    {
        let current = self.current_gpu.as_ref().unwrap();
        current.device_id == self.gpus[index].device_id
    }

    /// The user picked listed device `index`: unless it is the device in use,
    /// it becomes the target and a reset is requested.
    pub fn select_device(&mut self, index: usize)
        requires
            old(self).current() is Some,
            index < old(self).devices().len(),
        ensures
            old(self).current()->0.device_id == old(self).devices()[index as int].device_id
                ==> *final(self) == *old(self),
            old(self).current()->0.device_id != old(self).devices()[index as int].device_id ==> {
                &&& final(self).target() == Some(old(self).devices()[index as int])
                &&& final(self).reset_requested()
                &&& final(self).current() == old(self).current()
                &&& final(self).devices() == old(self).devices()
            },
    {
        let active = self.is_active(index);
        if !active {
            self.target_gpu = Some(self.gpus[index].duplicate());
            self.needs_reset = true;
        }
    }

    /// Fills the device list with `found` while no device is in use; once a
    /// device is in use the list is kept.
    pub fn refresh_devices(&mut self, found: &[GpuInfo])
        ensures
            old(self).current() is None ==> final(self).devices() == found@,
            old(self).current() is Some ==> final(self).devices() == old(self).devices(),
            final(self).current() == old(self).current(),
            final(self).target() == old(self).target(),
            final(self).reset_requested() == old(self).reset_requested(),
    {
        if self.needs_devices() {
            self.clear_devices();
            let mut i: usize = 0;
            while i < found.len()
                invariant
                    0 <= i <= found.len(),
                    self.devices() == found@.take(i as int),
                    self.current() == old(self).current(),
                    self.target() == old(self).target(),
                    self.reset_requested() == old(self).reset_requested(),
                decreases found.len() - i,
            {
                self.add_device(found[i].duplicate());
                assert(found@.take(i + 1) =~= found@.take(i as int).push(found@[i as int]));
                i = i + 1;
            }
            assert(found@.take(found.len() as int) =~= found@);
        }
    }
}

/// The first queue family at index `from` or later whose flags include one
/// of the required ones (`has_flags[i]` tells for family `i`); `None` when
/// there is none. The device's queue family is the first such family that
/// can also present to the window, so the caller asks about presentation
/// family by family, starting again after each family that cannot present.
pub fn next_family_with_flags(has_flags: &[bool], from: usize) -> (res: Option<usize>)
    ensures
        res is None <==> forall|j: int| from <= j < has_flags@.len() ==> !has_flags@[j],
        res matches Some(i) ==> {
            &&& from <= i < has_flags@.len()
            &&& has_flags@[i as int]
            &&& forall|j: int| from <= j < i ==> !has_flags@[j]
        },
{
    let mut i: usize = from;
    while i < has_flags.len()
        invariant
            from <= i,
            forall|j: int| from <= j < i && j < has_flags@.len() ==> !has_flags@[j],
        decreases has_flags.len() - i,
    {
        if has_flags[i] {
            return Some(i);
        }
        i = i + 1;
    }
    None
}

/// A device that can drive the window: its id and kind.
#[derive(Clone, Copy, Debug, PartialEq, Eq, Structural)]
pub struct DeviceCandidate {
    pub device_id: u32,
    pub device_type: DeviceType,
}

/// Preference rank of a device kind; lower is better.
pub open spec fn rank_spec(t: DeviceType) -> int {
    match t {
        DeviceType::DiscreteGpu => 0,
        DeviceType::IntegratedGpu => 1,
        DeviceType::VirtualGpu => 2,
        DeviceType::Cpu => 3,
        DeviceType::Other => 4,
    }
}

/// Preference rank of a device kind: discrete, integrated, virtual, CPU,
/// other.
pub fn device_rank(t: DeviceType) -> (res: u8)
    ensures
        res == rank_spec(t),
{
    match t {
        DeviceType::DiscreteGpu => 0,
        DeviceType::IntegratedGpu => 1,
        DeviceType::VirtualGpu => 2,
        DeviceType::Cpu => 3,
        DeviceType::Other => 4,
    }
}

/// Whether `i` is the first candidate of least rank.
pub open spec fn is_first_best(candidates: Seq<DeviceCandidate>, i: int) -> bool {
    &&& 0 <= i < candidates.len()
    &&& forall|j: int|
        0 <= j < candidates.len() ==> rank_spec(candidates[i].device_type) <= rank_spec(
            candidates[j].device_type,
        )
    &&& forall|j: int|
        0 <= j < i ==> rank_spec(candidates[i].device_type) < rank_spec(candidates[j].device_type)
}

/// The preferred candidate: the first of the best kind; `None` when there is
/// no candidate.
pub fn pick_device_match(candidates: &[DeviceCandidate]) -> (res: Option<usize>)
    ensures
        res is None <==> candidates@.len() == 0,
        res matches Some(i) ==> is_first_best(candidates@, i as int),
{
    if candidates.len() == 0 {
        return None;
    }
    let mut best: usize = 0;
    let mut best_rank = device_rank(candidates[0].device_type);
    let mut i: usize = 1;
    while i < candidates.len()
        invariant
            1 <= i <= candidates.len(),
            best < i,
            best_rank == rank_spec(candidates@[best as int].device_type),
            forall|j: int| 0 <= j < i ==> best_rank <= rank_spec(candidates@[j].device_type),
            forall|j: int| 0 <= j < best ==> best_rank < rank_spec(candidates@[j].device_type),
        decreases candidates.len() - i,
    {
        let r = device_rank(candidates[i].device_type);
        if r < best_rank {
            best = i;
            best_rank = r;
        }
        i = i + 1;
    }
    Some(best)
}

/// Whether `i` is the first candidate with device id `id`.
pub open spec fn is_first_with_id(candidates: Seq<DeviceCandidate>, id: u32, i: int) -> bool {
    &&& 0 <= i < candidates.len()
    &&& candidates[i].device_id == id
    &&& forall|j: int| 0 <= j < i ==> candidates[j].device_id != id
}

/// The first candidate with device id `device_id`; `None` when there is none.
pub fn find_device(candidates: &[DeviceCandidate], device_id: u32) -> (res: Option<usize>)
    ensures
        res is None <==> forall|j: int|
            0 <= j < candidates@.len() ==> candidates@[j].device_id != device_id,
        res matches Some(i) ==> is_first_with_id(candidates@, device_id, i as int),
{
    let mut i: usize = 0;
    while i < candidates.len()
        invariant
            0 <= i <= candidates.len(),
            forall|j: int| 0 <= j < i ==> candidates@[j].device_id != device_id,
        decreases candidates.len() - i,
    {
        if candidates[i].device_id == device_id {
            return Some(i);
        }
        i = i + 1;
    }
    None
}

/// The candidate to create the device on: the target device when the user
/// asked for one, else the preferred candidate.
pub fn choose_device(config: &VulkanConfig, candidates: &[DeviceCandidate]) -> (res: Option<usize>)
    ensures
        config.target() matches Some(t) ==> {
            &&& res is None <==> forall|j: int|
                0 <= j < candidates@.len() ==> candidates@[j].device_id != t.device_id
            &&& res matches Some(i) ==> is_first_with_id(candidates@, t.device_id, i as int)
        },
        config.target() is None ==> {
            &&& res is None <==> candidates@.len() == 0
            &&& res matches Some(i) ==> is_first_best(candidates@, i as int)
        },
{
    if let Some(target_device) = config.target_device() {
        find_device(candidates, target_device)
    } else {
        pick_device_match(candidates)
    }
}

/// When any candidate is a discrete GPU, the preferred candidate is one; the
/// preferred candidate is never of a worse kind than any other.
pub proof fn law_prefers_discrete(candidates: Seq<DeviceCandidate>, i: int, j: int)
    requires
        is_first_best(candidates, i),
        0 <= j < candidates.len(),
    ensures
        candidates[j].device_type == DeviceType::DiscreteGpu ==> candidates[i].device_type
            == DeviceType::DiscreteGpu,
        rank_spec(candidates[i].device_type) <= rank_spec(candidates[j].device_type),
{
}

/// The device the user asked for is the one the device is created on,
/// whenever it is among the candidates.
pub proof fn law_target_is_honoured(candidates: Seq<DeviceCandidate>, id: u32, k: int, i: int)
    requires
        0 <= k < candidates.len(),
        candidates[k].device_id == id,
        is_first_with_id(candidates, id, i),
    ensures
        candidates[i].device_id == id,
        i <= k,
{
}

/// Device kinds are preferred in the strict order discrete GPU, integrated
/// GPU, virtual GPU, CPU, other.
pub proof fn law_rank_order()
    ensures
        rank_spec(DeviceType::DiscreteGpu) < rank_spec(DeviceType::IntegratedGpu),
        rank_spec(DeviceType::IntegratedGpu) < rank_spec(DeviceType::VirtualGpu),
        rank_spec(DeviceType::VirtualGpu) < rank_spec(DeviceType::Cpu),
        rank_spec(DeviceType::Cpu) < rank_spec(DeviceType::Other),
{
}

} // verus!
