//! The connection to the driver: which physical device it uses, on which
//! queue family, and what the window's surface can do.

use vstd::prelude::*;

use crate::error::RenderError;
use crate::error::SetupFailure;

verus! {

/// The kind of hardware behind a physical device.
#[derive(Clone, Copy, Debug, PartialEq, Eq, Structural)]
pub enum PhysicalDeviceType {
    DiscreteGpu,
    IntegratedGpu,
    VirtualGpu,
    Cpu,
    Other,
}

impl PhysicalDeviceType {
    /// The preference among device types: the lower, the better.
    pub open spec fn rank(self) -> int {
        match self {
            PhysicalDeviceType::DiscreteGpu => 0,
            PhysicalDeviceType::IntegratedGpu => 1,
            PhysicalDeviceType::VirtualGpu => 2,
            PhysicalDeviceType::Cpu => 3,
            PhysicalDeviceType::Other => 4,
        }
    }

    /// The preference of this device type.
    pub fn preference(&self) -> (rank: u8)
        ensures
            rank == self.rank(),
    {
        match self {
            PhysicalDeviceType::DiscreteGpu => 0,
            PhysicalDeviceType::IntegratedGpu => 1,
            PhysicalDeviceType::VirtualGpu => 2,
            PhysicalDeviceType::Cpu => 3,
            PhysicalDeviceType::Other => 4,
        }
    }
}

/// What selection reads of one queue family.
#[derive(Clone, Copy, Debug, PartialEq, Eq, Structural)]
pub struct QueueFamily {
    /// The family takes graphics commands.
    pub graphics: bool,
    /// The family is known to be able to present to the window's surface.
    pub surface_support: bool,
}

impl QueueFamily {
    /// A family is suitable when it can both draw and present.
    pub open spec fn suitable(self) -> bool {
        self.graphics && self.surface_support
    }
}

/// What selection reads of one physical device.
#[derive(Clone, Debug)]
pub struct PhysicalDevice {
    /// The device offers every extension that presenting needs.
    pub supports_required_extensions: bool,
    pub device_type: PhysicalDeviceType,
    /// The device's queue families, in the driver's order.
    pub queue_families: Vec<QueueFamily>,
}

/// `q` is a suitable family that a 32-bit queue family index can name.
pub open spec fn is_suitable_family(families: Seq<QueueFamily>, q: int) -> bool {
    0 <= q < families.len() && q <= u32::MAX && families[q].suitable()
}

/// `q` is the first suitable family.
pub open spec fn is_first_suitable_family(families: Seq<QueueFamily>, q: int) -> bool {
    &&& is_suitable_family(families, q)
    &&& forall|k: int| 0 <= k < q ==> !is_suitable_family(families, k)
}

impl PhysicalDevice {
    /// A device is eligible when it has the extensions and a suitable family.
    pub open spec fn eligible(self) -> bool {
        &&& self.supports_required_extensions
        &&& exists|q: int| is_suitable_family(self.queue_families@, q)
    }

    /// The first queue family that can both draw and present, if any.
    pub fn first_suitable_family(&self) -> (found: Option<u32>)
        ensures
            match found {
                Some(q) => is_first_suitable_family(self.queue_families@, q as int),
                None => forall|k: int| !is_suitable_family(self.queue_families@, k),
            },
    {
        let mut q: usize = 0;
        while q < self.queue_families.len() && q <= u32::MAX as usize
            invariant
                q <= self.queue_families.len(),
                forall|k: int| 0 <= k < q ==> !is_suitable_family(self.queue_families@, k),
            decreases self.queue_families.len() - q,
        {
            let family = &self.queue_families[q];
            if family.graphics && family.surface_support {
                return Some(q as u32);
            }
            q += 1;
        }
        None
    }
}

/// Device `i` with queue family `q` is the choice among `devices`: `i` is
/// eligible, `q` is its first suitable family, no eligible device has a
/// better type, and of the eligible devices of that type `i` comes first.
pub open spec fn is_selection(devices: Seq<PhysicalDevice>, i: int, q: int) -> bool {
    &&& 0 <= i < devices.len()
    &&& devices[i].supports_required_extensions
    &&& is_first_suitable_family(devices[i].queue_families@, q)
    &&& forall|j: int|
        0 <= j < devices.len() && #[trigger] devices[j].eligible() ==> devices[i].device_type.rank()
            <= devices[j].device_type.rank()
    &&& forall|j: int|
        0 <= j < i && #[trigger] devices[j].eligible() ==> devices[i].device_type.rank()
            < devices[j].device_type.rank()
}

/// No device among `devices` is eligible.
pub open spec fn none_eligible(devices: Seq<PhysicalDevice>) -> bool {
    forall|j: int| 0 <= j < devices.len() ==> !(#[trigger] devices[j].eligible())
}

/// Picks the physical device to use and the queue family to submit on:
/// the first device of the best type among the eligible ones, with its
/// first suitable family. `None` when no device is eligible.
pub fn select_physical_device(devices: &Vec<PhysicalDevice>) -> (choice: Option<(usize, u32)>)
    ensures
        match choice {
            Some((i, q)) => is_selection(devices@, i as int, q as int),
            None => none_eligible(devices@),
        },
{
    let mut best: Option<(usize, u32)> = None;
    let mut best_rank: u8 = 0;
    let mut j: usize = 0;
    while j < devices.len()
        invariant
            j <= devices.len(),
            match best {
                Some((i, q)) => {
                    &&& i < j
                    &&& best_rank == devices@[i as int].device_type.rank()
                    &&& is_selection(devices@.take(j as int), i as int, q as int)
                },
                None => none_eligible(devices@.take(j as int)),
            },
        decreases devices.len() - j,
    {
        let device = &devices[j];
        let family = if device.supports_required_extensions {
            device.first_suitable_family()
        } else {
            None
        };
        match family {
            Some(q) => {
                let rank: u8 = device.device_type.preference();
                let better = match best {
                    Some(_) => rank < best_rank,
                    None => true,
                };
                if better {
                    best = Some((j, q));
                    best_rank = rank;
                }
            },
            None => {},
        }
        j += 1;
    }
    assert(devices@.take(j as int) == devices@);
    best
}

/// How the window's pixels are blended with what lies behind them.
#[derive(Clone, Copy, Debug, PartialEq, Eq, Structural)]
pub enum CompositeAlpha {
    Opaque,
    PreMultiplied,
    PostMultiplied,
    Inherit,
}

/// A colour format with its colour space, both by the driver's numbers.
#[derive(Clone, Copy, Debug, PartialEq, Eq, Structural)]
pub struct SurfaceFormat {
    pub format: i32,
    pub color_space: i32,
}

/// The limits of the window's surface that building a chain reads.
#[derive(Clone, Debug)]
pub struct SurfaceCapabilities {
    /// The least number of images a chain on this surface holds.
    pub min_image_count: u32,
    /// The composite-alpha modes the surface supports, in the driver's order.
    pub supported_composite_alpha: Vec<CompositeAlpha>,
}

/// The connection, once set up. Nothing changes it afterwards.
#[derive(Clone, Debug)]
pub struct VulkanConnection {
    /// The position of the chosen device in the driver's list.
    pub physical_device: usize,
    /// The queue family of the one submission queue.
    pub queue_family_index: u32,
    pub surface_caps: SurfaceCapabilities,
    /// The formats the surface supports, in the driver's order.
    pub surface_formats: Vec<SurfaceFormat>,
}

/// The next call that setup asks of the driver, or how setup ended.
#[derive(Clone, Copy, Debug, PartialEq, Eq, Structural)]
pub enum SetupCall {
    LoadLibrary,
    CreateInstance,
    CreateSurface,
    EnumerateDevices,
    CreateDevice { physical_device: usize, queue_family_index: u32 },
    QueryCapabilities { physical_device: usize },
    QueryFormats { physical_device: usize },
    /// Setup is complete; there is nothing left to call.
    Finish,
    /// Setup has failed; there is nothing left to call.
    Abort(SetupFailure),
}

impl SetupCall {
    /// Whether this asks anything of the driver.
    pub open spec fn driver_call(self) -> bool {
        !(self is Finish) && !(self is Abort)
    }

    /// Whether this asks anything of the driver.
    pub fn is_driver_call(&self) -> (asks: bool)
        ensures
            asks == self.driver_call(),
    {
        match self {
            SetupCall::Finish => false,
            SetupCall::Abort(_) => false,
            _ => true,
        }
    }
}

/// What the driver answered to the call in progress.
#[derive(Clone, Debug)]
pub enum SetupReply {
    /// Nothing was called yet.
    Begin,
    Succeeded,
    Failed,
    Devices(Vec<PhysicalDevice>),
    Capabilities(SurfaceCapabilities),
    Formats(Vec<SurfaceFormat>),
}

/// Setup in progress: which call is awaited, and what is known so far.
#[derive(Clone, Debug)]
pub enum ConnectionSetup {
    Start,
    AwaitLibrary,
    AwaitInstance,
    AwaitSurface,
    AwaitDevices,
    AwaitDevice { physical_device: usize, queue_family_index: u32 },
    AwaitCapabilities { physical_device: usize, queue_family_index: u32 },
    AwaitFormats { physical_device: usize, queue_family_index: u32, surface_caps: SurfaceCapabilities },
    Ready(VulkanConnection),
    Failed(SetupFailure),
}

impl ConnectionSetup {
    /// The failure that a refusal of the awaited call amounts to.
    pub open spec fn refusal(self) -> SetupFailure {
        match self {
            ConnectionSetup::AwaitLibrary => SetupFailure::NoLibrary,
            ConnectionSetup::AwaitInstance => SetupFailure::InstanceRejected,
            ConnectionSetup::AwaitSurface => SetupFailure::SurfaceRejected,
            ConnectionSetup::AwaitDevices => SetupFailure::EnumerationFailed,
            ConnectionSetup::AwaitDevice { .. } => SetupFailure::DeviceRejected,
            ConnectionSetup::AwaitCapabilities { .. } => SetupFailure::NoSurfaceCapabilities,
            ConnectionSetup::AwaitFormats { .. } => SetupFailure::NoSurfaceFormat,
            ConnectionSetup::Failed(cause) => cause,
            _ => SetupFailure::UnexpectedReply,
        }
    }

    /// One step of setup: in state `self` the driver answered `reply`; setup
    /// goes to `next` and asks for `call`.
    ///
    /// The calls follow one another in a fixed order, each only after the one
    /// before it succeeded. A refusal ends setup with the failure it amounts
    /// to, an answer of the wrong kind with `UnexpectedReply`. Once setup has
    /// ended it stays as it is and asks nothing more of the driver.
    pub open spec fn step(self, reply: SetupReply, next: ConnectionSetup, call: SetupCall) -> bool {
        match (self, reply) {
            (ConnectionSetup::Start, SetupReply::Begin) => {
                next == ConnectionSetup::AwaitLibrary && call == SetupCall::LoadLibrary
            },
            (ConnectionSetup::AwaitLibrary, SetupReply::Succeeded) => {
                next == ConnectionSetup::AwaitInstance && call == SetupCall::CreateInstance
            },
            (ConnectionSetup::AwaitInstance, SetupReply::Succeeded) => {
                next == ConnectionSetup::AwaitSurface && call == SetupCall::CreateSurface
            },
            (ConnectionSetup::AwaitSurface, SetupReply::Succeeded) => {
                next == ConnectionSetup::AwaitDevices && call == SetupCall::EnumerateDevices
            },
            (ConnectionSetup::AwaitDevices, SetupReply::Devices(devices)) => {
                if none_eligible(devices@) {
                    &&& next == ConnectionSetup::Failed(SetupFailure::NoSuitableDevice)
                    &&& call == SetupCall::Abort(SetupFailure::NoSuitableDevice)
                } else {
                    exists|i: usize, q: u32|
                        {
                            &&& is_selection(devices@, i as int, q as int)
                            &&& next == (ConnectionSetup::AwaitDevice {
                                physical_device: i,
                                queue_family_index: q,
                            })
                            &&& call == (SetupCall::CreateDevice {
                                physical_device: i,
                                queue_family_index: q,
                            })
                        }
                }
            },
            (
                ConnectionSetup::AwaitDevice { physical_device, queue_family_index },
                SetupReply::Succeeded,
            ) => {
                &&& next == (ConnectionSetup::AwaitCapabilities {
                    physical_device,
                    queue_family_index,
                })
                &&& call == (SetupCall::QueryCapabilities { physical_device })
            },
            (
                ConnectionSetup::AwaitCapabilities { physical_device, queue_family_index },
                SetupReply::Capabilities(surface_caps),
            ) => {
                &&& next == (ConnectionSetup::AwaitFormats {
                    physical_device,
                    queue_family_index,
                    surface_caps,
                })
                &&& call == (SetupCall::QueryFormats { physical_device })
            },
            (
                ConnectionSetup::AwaitFormats { physical_device, queue_family_index, surface_caps },
                SetupReply::Formats(surface_formats),
            ) => {
                &&& next == ConnectionSetup::Ready(
                    VulkanConnection {
                        physical_device,
                        queue_family_index,
                        surface_caps,
                        surface_formats,
                    },
                )
                &&& call == SetupCall::Finish
            },
            (ConnectionSetup::Ready(_), _) => next == self && call == SetupCall::Finish,
            (ConnectionSetup::Failed(cause), _) => next == self && call == SetupCall::Abort(cause),
            (_, SetupReply::Failed) => {
                &&& next == ConnectionSetup::Failed(self.refusal())
                &&& call == SetupCall::Abort(self.refusal())
            },
            _ => {
                &&& next == ConnectionSetup::Failed(SetupFailure::UnexpectedReply)
                &&& call == SetupCall::Abort(SetupFailure::UnexpectedReply)
            },
        }
    }

    /// Setup before any call was made.
    pub fn new() -> (setup: ConnectionSetup)
        ensures
            setup == ConnectionSetup::Start,
    {
        ConnectionSetup::Start
    }

    /// Takes the driver's answer to the call in progress and says what to
    /// call next.
    pub fn advance(self, reply: SetupReply) -> (out: (ConnectionSetup, SetupCall))
        ensures
            self.step(reply, out.0, out.1),
    {
        match (self, reply) {
            (ConnectionSetup::Start, SetupReply::Begin) => (
                ConnectionSetup::AwaitLibrary,
                SetupCall::LoadLibrary,
            ),
            (ConnectionSetup::AwaitLibrary, SetupReply::Succeeded) => (
                ConnectionSetup::AwaitInstance,
                SetupCall::CreateInstance,
            ),
            (ConnectionSetup::AwaitInstance, SetupReply::Succeeded) => (
                ConnectionSetup::AwaitSurface,
                SetupCall::CreateSurface,
            ),
            (ConnectionSetup::AwaitSurface, SetupReply::Succeeded) => (
                ConnectionSetup::AwaitDevices,
                SetupCall::EnumerateDevices,
            ),
            (ConnectionSetup::AwaitDevices, SetupReply::Devices(devices)) => {
                match select_physical_device(&devices) {
                    Some((physical_device, queue_family_index)) => {
                        assert(devices@[physical_device as int].eligible()) by {
                            assert(is_suitable_family(
                                devices@[physical_device as int].queue_families@,
                                queue_family_index as int,
                            ));
                        }
                        (
                            ConnectionSetup::AwaitDevice { physical_device, queue_family_index },
                            SetupCall::CreateDevice { physical_device, queue_family_index },
                        )
                    },
                    None => (
                        ConnectionSetup::Failed(SetupFailure::NoSuitableDevice),
                        SetupCall::Abort(SetupFailure::NoSuitableDevice),
                    ),
                }
            },
            (
                ConnectionSetup::AwaitDevice { physical_device, queue_family_index },
                SetupReply::Succeeded,
            ) => (
                ConnectionSetup::AwaitCapabilities { physical_device, queue_family_index },
                SetupCall::QueryCapabilities { physical_device },
            ),
            (
                ConnectionSetup::AwaitCapabilities { physical_device, queue_family_index },
                SetupReply::Capabilities(surface_caps),
            ) => (
                ConnectionSetup::AwaitFormats { physical_device, queue_family_index, surface_caps },
                SetupCall::QueryFormats { physical_device },
            ),
            (
                ConnectionSetup::AwaitFormats { physical_device, queue_family_index, surface_caps },
                SetupReply::Formats(surface_formats),
            ) => (
                ConnectionSetup::Ready(
                    VulkanConnection {
                        physical_device,
                        queue_family_index,
                        surface_caps,
                        surface_formats,
                    },
                ),
                SetupCall::Finish,
            ),
            (ConnectionSetup::Ready(connection), _) => (
                ConnectionSetup::Ready(connection),
                SetupCall::Finish,
            ),
            (ConnectionSetup::Failed(cause), _) => (
                ConnectionSetup::Failed(cause),
                SetupCall::Abort(cause),
            ),
            (ConnectionSetup::AwaitLibrary, SetupReply::Failed) => Self::abort(SetupFailure::NoLibrary),
            (ConnectionSetup::AwaitInstance, SetupReply::Failed) => Self::abort(
                SetupFailure::InstanceRejected,
            ),
            (ConnectionSetup::AwaitSurface, SetupReply::Failed) => Self::abort(
                SetupFailure::SurfaceRejected,
            ),
            (ConnectionSetup::AwaitDevices, SetupReply::Failed) => Self::abort(
                SetupFailure::EnumerationFailed,
            ),
            (ConnectionSetup::AwaitDevice { .. }, SetupReply::Failed) => Self::abort(
                SetupFailure::DeviceRejected,
            ),
            (ConnectionSetup::AwaitCapabilities { .. }, SetupReply::Failed) => Self::abort(
                SetupFailure::NoSurfaceCapabilities,
            ),
            (ConnectionSetup::AwaitFormats { .. }, SetupReply::Failed) => Self::abort(
                SetupFailure::NoSurfaceFormat,
            ),
            _ => Self::abort(SetupFailure::UnexpectedReply),
        }
    }

    /// Setup ended by `cause`.
    fn abort(cause: SetupFailure) -> (out: (ConnectionSetup, SetupCall))
        ensures
            out.0 == ConnectionSetup::Failed(cause),
            out.1 == SetupCall::Abort(cause),
    {
        (ConnectionSetup::Failed(cause), SetupCall::Abort(cause))
    }
}

impl VulkanConnection {
    /// The connection that a finished setup has made. A setup that failed
    /// gives its failure; one that is still under way was, to its caller,
    /// answered out of turn.
    pub fn new(setup: ConnectionSetup) -> (made: Result<VulkanConnection, RenderError>)
        ensures
            match setup {
                ConnectionSetup::Ready(connection) => made == Ok::<VulkanConnection, RenderError>(
                    connection,
                ),
                ConnectionSetup::Failed(cause) => made == Err::<VulkanConnection, RenderError>(
                    RenderError::SetupFailure(cause),
                ),
                _ => made == Err::<VulkanConnection, RenderError>(
                    RenderError::SetupFailure(SetupFailure::UnexpectedReply),
                ),
            },
    {
        match setup {
            ConnectionSetup::Ready(connection) => Ok(connection),
            ConnectionSetup::Failed(cause) => Err(RenderError::SetupFailure(cause)),
            _ => Err(RenderError::SetupFailure(SetupFailure::UnexpectedReply)),
        }
    }

    /// The physical device to use and the queue family to submit on; see
    /// [`select_physical_device`].
    pub fn select_physical_device(devices: &Vec<PhysicalDevice>) -> (choice: Option<(usize, u32)>)
        ensures
            match choice {
                Some((i, q)) => is_selection(devices@, i as int, q as int),
                None => none_eligible(devices@),
            },
    {
        select_physical_device(devices)
    }
}

/// Selection leaves no choice: two selections among the same devices are
/// the same device and the same queue family.
pub proof fn selection_is_unique(devices: Seq<PhysicalDevice>, i1: int, q1: int, i2: int, q2: int)
    requires
        is_selection(devices, i1, q1),
        is_selection(devices, i2, q2),
    ensures
        i1 == i2,
        q1 == q2,
{
    assert(devices[i1].eligible()) by {
        assert(is_suitable_family(devices[i1].queue_families@, q1));
    }
    assert(devices[i2].eligible()) by {
        assert(is_suitable_family(devices[i2].queue_families@, q2));
    }
}

/// Once setup has failed it asks nothing more of the driver, whatever it is
/// told, and keeps its failure.
pub proof fn failed_setup_makes_no_call(
    cause: SetupFailure,
    reply: SetupReply,
    next: ConnectionSetup,
    call: SetupCall,
)
    requires
        ConnectionSetup::Failed(cause).step(reply, next, call),
    ensures
        !call.driver_call(),
        call == SetupCall::Abort(cause),
        next == ConnectionSetup::Failed(cause),
{
}

/// When the driver lists no eligible device, setup fails at once with
/// `NoSuitableDevice` and makes no call.
pub proof fn no_device_ends_setup(devices: Vec<PhysicalDevice>, next: ConnectionSetup, call: SetupCall)
    requires
        none_eligible(devices@),
        ConnectionSetup::AwaitDevices.step(SetupReply::Devices(devices), next, call),
    ensures
        !call.driver_call(),
        call == SetupCall::Abort(SetupFailure::NoSuitableDevice),
        next == ConnectionSetup::Failed(SetupFailure::NoSuitableDevice),
{
}

} // verus!
