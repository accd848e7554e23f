//! Physical device selection: which of the devices that the driver lists can
//! render to the surface, and which of those is the best.

use vstd::prelude::*;
use vstd::string::*;
use crate::capability::{check, covers, required_layer_names, required_layers};
use crate::error::{ApiResult, EngineError};
use crate::logging::LogLevel;
use crate::text::{
    bullet_list, decimal, push_bullet_list, push_decimal, push_signed_decimal, signed_decimal,
    TAB_IN_SPACES,
};
use crate::vulkan::{dynamic_rendering_feature_name, swapchain_extension_name};

verus! {

/// How the driver paces the presentation of images.
#[derive(Clone, Copy, Debug, PartialEq, Eq, Structural)]
pub enum PresentMode {
    Immediate,
    Mailbox,
    Fifo,
    FifoRelaxed,
    /// A mode this engine has no use for, by the driver's number.
    Other(i32),
}

/// The present modes kept for a device: mailbox where the device has it, and
/// first-in-first-out as the fallback.
#[derive(Clone, Copy, Debug, PartialEq, Eq, Structural)]
pub struct PresentModes {
    pub mailbox: Option<PresentMode>,
    pub fifo_relaxed: Option<PresentMode>,
}

/// The kind of a physical device.
#[derive(Clone, Copy, Debug, PartialEq, Eq, Structural)]
pub enum DeviceType {
    Other,
    IntegratedGpu,
    DiscreteGpu,
    VirtualGpu,
    Cpu,
}

/// What the driver reports of one queue family of a device.
#[derive(Clone, Copy, Debug, PartialEq, Eq, Structural)]
pub struct QueueFamily {
    /// How many queues the family has.
    pub queue_count: u32,
    /// Whether its queues take graphics work.
    pub graphics: bool,
    /// Whether its queues take transfer work.
    pub transfer: bool,
    /// Whether its queues can present to the surface.
    pub present: bool,
}

/// The layout of a pixel.
#[derive(Clone, Copy, Debug, PartialEq, Eq, Structural)]
pub enum PixelFormat {
    /// Red, green, blue, alpha, eight bits each, sRGB encoded.
    Rgba8Srgb,
    /// Blue, green, red, alpha, eight bits each, sRGB encoded.
    Bgra8Srgb,
    /// Any other layout, by the driver's number.
    Other(i32),
}

/// How pixel values map to colours.
#[derive(Clone, Copy, Debug, PartialEq, Eq, Structural)]
pub enum ColorSpace {
    SrgbNonlinear,
    /// Any other colour space, by the driver's number.
    Other(i32),
}

/// A format in which a device can present to the surface.
#[derive(Clone, Copy, Debug, PartialEq, Eq, Structural)]
pub struct SurfaceFormat {
    pub format: PixelFormat,
    pub color_space: ColorSpace,
}

impl PresentModes {
    /// The modes kept out of `present_modes`: none where the device has
    /// neither mailbox nor first-in-first-out.
    pub open spec fn of(present_modes: Seq<PresentMode>) -> Option<PresentModes> {
        let mailbox = present_modes.contains(PresentMode::Mailbox);
        let fifo = present_modes.contains(PresentMode::Fifo);
        if !mailbox && !fifo {
            None
        } else {
            Some(
                PresentModes {
                    mailbox: if mailbox {
                        Some(PresentMode::Mailbox)
                    } else {
                        None
                    },
                    fifo_relaxed: if fifo {
                        Some(PresentMode::Fifo)
                    } else {
                        None
                    },
                },
            )
        }
    }

    /// At least one mode is kept, and each field holds the mode it is named
    /// for or nothing.
    pub open spec fn wf(self) -> bool {
        &&& self.mailbox is Some || self.fifo_relaxed is Some
        &&& self.mailbox is Some ==> self.mailbox == Some(PresentMode::Mailbox)
        &&& self.fifo_relaxed is Some ==> self.fifo_relaxed == Some(PresentMode::Fifo)
    }

    /// Keeps mailbox and first-in-first-out out of the modes a device offers.
    /// A device that offers neither is of no use and gives nothing.
    pub fn new(present_modes: &[PresentMode]) -> (kept: Option<PresentModes>)
        ensures
            kept == Self::of(present_modes@),
            kept matches Some(modes) ==> modes.wf(),
    {
        let does_support_mailbox = offers(present_modes, PresentMode::Mailbox);
        let does_support_fifo = offers(present_modes, PresentMode::Fifo);
        let (mailbox, fifo_relaxed) = match (does_support_mailbox, does_support_fifo) {
            (true, true) => (Some(PresentMode::Mailbox), Some(PresentMode::Fifo)),
            (true, false) => (Some(PresentMode::Mailbox), None),
            (false, true) => (None, Some(PresentMode::Fifo)),
            (false, false) => {
                return None;
            },
        };
        Some(PresentModes { mailbox, fifo_relaxed })
    }
}

/// Whether `wanted` is one of `present_modes`.
fn offers(present_modes: &[PresentMode], wanted: PresentMode) -> (found: bool)
    ensures
        found == present_modes@.contains(wanted),
{
    let mut i: usize = 0;
    while i < present_modes.len()
        invariant
            i <= present_modes.len(),
            forall|k: int| 0 <= k < i ==> present_modes@[k] != wanted,
        decreases present_modes.len() - i,
    {
        if present_modes[i] == wanted {
            return true;
        }
        i += 1;
    }
    false
}

impl DeviceType {
    /// How much a device of this kind is preferred: discrete over integrated
    /// over everything else.
    pub open spec fn rank(self) -> nat {
        match self {
            DeviceType::DiscreteGpu => 2,
            DeviceType::IntegratedGpu => 1,
            _ => 0,
        }
    }

    /// The preference of a device of this kind.
    pub fn device_type_rank(self) -> (rank: u8)
        ensures
            rank == self.rank(),
    {
        match self {
            DeviceType::DiscreteGpu => 2,
            DeviceType::IntegratedGpu => 1,
            _ => 0,
        }
    }
}

impl QueueFamily {
    /// The family has more than one queue, takes graphics and transfer work,
    /// and can present to the surface.
    pub open spec fn suitable(self) -> bool {
        self.queue_count > 1 && self.graphics && self.transfer && self.present
    }

    /// Whether this one family can serve as both the graphics and the
    /// transfer family of the engine.
    pub fn is_suitable(&self) -> (yes: bool)
        ensures
            yes == self.suitable(),
    {
        self.queue_count > 1 && self.graphics && self.transfer && self.present
    }
}

impl SurfaceFormat {
    /// Eight bits per channel in red-green-blue-alpha or blue-green-red-alpha
    /// order, sRGB encoded, in the non-linear sRGB colour space.
    pub open spec fn suitable(self) -> bool {
        (self.format == PixelFormat::Rgba8Srgb || self.format == PixelFormat::Bgra8Srgb)
            && self.color_space == ColorSpace::SrgbNonlinear
    }

    /// Whether the engine can render into this format.
    pub fn is_suitable(&self) -> (yes: bool)
        ensures
            yes == self.suitable(),
    {
        let format_fits = match self.format {
            PixelFormat::Rgba8Srgb => true,
            PixelFormat::Bgra8Srgb => true,
            PixelFormat::Other(_) => false,
        };
        let space_fits = match self.color_space {
            ColorSpace::SrgbNonlinear => true,
            ColorSpace::Other(_) => false,
        };
        format_fits && space_fits
    }
}

/// `index` is the position of the first suitable family of `families`.
pub open spec fn is_first_suitable_family(families: Seq<QueueFamily>, index: int) -> bool {
    &&& 0 <= index < families.len()
    &&& families[index].suitable()
    &&& forall|j: int| 0 <= j < index ==> !(#[trigger] families[j]).suitable()
}

/// The position of the first suitable family, if there is one.
pub open spec fn first_suitable_family(families: Seq<QueueFamily>) -> Option<usize> {
    if exists|i: int| is_first_suitable_family(families, i) {
        Some((choose|i: int| is_first_suitable_family(families, i)) as usize)
    } else {
        None
    }
}

/// `index` is the position of the first suitable format of `formats`.
pub open spec fn is_first_suitable_format(formats: Seq<SurfaceFormat>, index: int) -> bool {
    &&& 0 <= index < formats.len()
    &&& formats[index].suitable()
    &&& forall|j: int| 0 <= j < index ==> !(#[trigger] formats[j]).suitable()
}

/// The first suitable format, if there is one.
pub open spec fn first_suitable_format(formats: Seq<SurfaceFormat>) -> Option<SurfaceFormat> {
    if exists|i: int| is_first_suitable_format(formats, i) {
        Some(formats[choose|i: int| is_first_suitable_format(formats, i)])
    } else {
        None
    }
}

/// Finds the queue family that the engine will use: the first, in the
/// driver's order, that is suitable.
pub fn find_queue_family(families: &Vec<QueueFamily>) -> (found: Option<usize>)
    ensures
        found == first_suitable_family(families@),
        found matches Some(index) ==> is_first_suitable_family(families@, index as int),
        found is None ==> forall|j: int|
            0 <= j < families.len() ==> !(#[trigger] families[j]).suitable(),
{
    let mut i: usize = 0;
    while i < families.len()
        invariant
            i <= families.len(),
            forall|j: int| 0 <= j < i ==> !(#[trigger] families[j]).suitable(),
        decreases families.len() - i,
    {
        if families[i].is_suitable() {
            proof {
                assert(is_first_suitable_family(families@, i as int));
                let chosen = choose|k: int| is_first_suitable_family(families@, k);
                assert(chosen == i) by {
                    if chosen < i {
                        assert(!families[chosen].suitable());
                    }
                    if i < chosen {
                        assert(!families[i as int].suitable());
                    }
                }
            }
            return Some(i);
        }
        i += 1;
    }
    None
}

/// Finds the surface format that the engine will render into: the first, in
/// the driver's order, that is suitable.
pub fn find_surface_format(formats: &Vec<SurfaceFormat>) -> (found: Option<SurfaceFormat>)
    ensures
        found == first_suitable_format(formats@),
        found matches Some(format) ==> exists|i: int|
            is_first_suitable_format(formats@, i) && formats[i] == format,
        found is None ==> forall|j: int|
            0 <= j < formats.len() ==> !(#[trigger] formats[j]).suitable(),
{
    let mut i: usize = 0;
    while i < formats.len()
        invariant
            i <= formats.len(),
            forall|j: int| 0 <= j < i ==> !(#[trigger] formats[j]).suitable(),
        decreases formats.len() - i,
    {
        if formats[i].is_suitable() {
            proof {
                assert(is_first_suitable_format(formats@, i as int));
                let chosen = choose|k: int| is_first_suitable_format(formats@, k);
                assert(chosen == i) by {
                    if chosen < i {
                        assert(!formats[chosen].suitable());
                    }
                    if i < chosen {
                        assert(!formats[i as int].suitable());
                    }
                }
            }
            return Some(formats[i]);
        }
        i += 1;
    }
    None
}

/// What the driver reports of one physical device, as far as the selection
/// reads it.
#[derive(Clone, Debug, PartialEq, Eq)]
pub struct PhysicalDevice {
    pub name: String,
    pub device_type: DeviceType,
    /// The queue families, in the driver's order.
    pub queue_families: Vec<QueueFamily>,
    /// The formats in which the device can present to the surface, in the
    /// driver's order.
    pub surface_formats: Vec<SurfaceFormat>,
    /// The present modes the device has for the surface.
    pub present_modes: Vec<PresentMode>,
    /// The names of the layers the device exposes.
    pub layers: Vec<String>,
    /// The names of the extensions the device exposes.
    pub extensions: Vec<String>,
}

/// What was settled for a device that passed every filter.
#[derive(Clone, Copy, Debug, PartialEq, Eq, Structural)]
pub struct PhysicalDeviceCandidate {
    pub queue_family_index: usize,
    pub surface_format: SurfaceFormat,
    pub present_modes: PresentModes,
    pub device_type_rank: u8,
}

/// The first filter that a device did not pass.
#[derive(Clone, Copy, Debug, PartialEq, Eq, Structural)]
pub enum Rejection {
    /// No queue family is suitable.
    NoQueueFamily,
    /// No surface format is suitable.
    NoSurfaceFormat,
    /// Neither mailbox nor first-in-first-out presentation is available.
    NoPresentMode,
    /// A layer that the profile requires is not exposed.
    MissingLayers,
    /// The swapchain extension is not exposed.
    MissingExtensions,
}

/// The extensions every device must expose: the swapchain extension.
pub open spec fn required_device_extension_names() -> Seq<Seq<char>> {
    seq!["VK_KHR_swapchain"@]
}

/// The extensions every device must expose.
pub fn required_device_extensions() -> (extensions: Vec<String>)
    ensures
        extensions.deep_view() == required_device_extension_names(),
{
    let mut extensions: Vec<String> = Vec::new();
    extensions.push(swapchain_extension_name());
    assert(extensions.deep_view() =~= required_device_extension_names());
    extensions
}

impl Rejection {
    /// What the message of a rejection reads.
    pub open spec fn message_text(self) -> Seq<char> {
        match self {
            Rejection::NoQueueFamily => "Unable to find required Queues."@,
            Rejection::NoSurfaceFormat =>
                "Unable to find required Surface Format (RGBA8, SRGB Nonlinear)."@,
            Rejection::NoPresentMode => "Unable to find required Present Modes (MAILBOX, FIFO)"@,
            Rejection::MissingLayers => "Failed to find required Layers of Device"@,
            Rejection::MissingExtensions => "Failed to find required Extensions of Device"@,
        }
    }

    /// The header under which the names that a device lacks are listed: the
    /// message of the rejection, then the name of the device.
    pub fn diagnostic_header(self, device_name: &str) -> (header: String)
        ensures
            header@ == self.message_text() + " - "@ + device_name@,
    {
        let mut header = String::from_str(self.message());
        header.append(" - ");
        header.append(device_name);
        header
    }

    /// The message that reports why a device was passed over.
    pub fn message(self) -> (text: &'static str)
        ensures
            text@ == self.message_text(),
    {
        match self {
            Rejection::NoQueueFamily => "Unable to find required Queues.",
            Rejection::NoSurfaceFormat =>
                "Unable to find required Surface Format (RGBA8, SRGB Nonlinear).",
            Rejection::NoPresentMode => "Unable to find required Present Modes (MAILBOX, FIFO)",
            Rejection::MissingLayers => "Failed to find required Layers of Device",
            Rejection::MissingExtensions => "Failed to find required Extensions of Device",
        }
    }
}

impl PhysicalDevice {
    /// The filters in their fixed order: queue family, surface format,
    /// present modes, layers, extensions. The first one that fails rejects the
    /// device; a device that passes them all is a candidate.
    pub open spec fn verdict(self, profile: LogLevel) -> Result<
        PhysicalDeviceCandidate,
        Rejection,
    > {
        match first_suitable_family(self.queue_families@) {
            None => Err(Rejection::NoQueueFamily),
            Some(queue_family_index) => match first_suitable_format(self.surface_formats@) {
                None => Err(Rejection::NoSurfaceFormat),
                Some(surface_format) => match PresentModes::of(self.present_modes@) {
                    None => Err(Rejection::NoPresentMode),
                    Some(present_modes) => if !covers(
                        self.layers.deep_view(),
                        required_layer_names(profile),
                    ) {
                        Err(Rejection::MissingLayers)
                    } else if !covers(
                        self.extensions.deep_view(),
                        required_device_extension_names(),
                    ) {
                        Err(Rejection::MissingExtensions)
                    } else {
                        Ok(
                            PhysicalDeviceCandidate {
                                queue_family_index,
                                surface_format,
                                present_modes,
                                device_type_rank: self.device_type.rank() as u8,
                            },
                        )
                    },
                },
            },
        }
    }

    /// The device passes every filter.
    pub open spec fn passes(self, profile: LogLevel) -> bool {
        self.verdict(profile) is Ok
    }

    /// Each of the five requirements on a device holds of this one.
    pub open spec fn meets_every_requirement(self, profile: LogLevel) -> bool {
        &&& exists|i: int|
            0 <= i < self.queue_families.len() && (#[trigger] self.queue_families[i]).suitable()
        &&& exists|i: int|
            0 <= i < self.surface_formats.len() && (#[trigger] self.surface_formats[i]).suitable()
        &&& (self.present_modes@.contains(PresentMode::Mailbox) || self.present_modes@.contains(
            PresentMode::Fifo,
        ))
        &&& covers(self.layers.deep_view(), required_layer_names(profile))
        &&& covers(self.extensions.deep_view(), required_device_extension_names())
    }

    /// Runs the device through the filters and says what was settled for it,
    /// or which filter it failed first.
    pub fn evaluate(&self, profile: LogLevel) -> (outcome: Result<
        PhysicalDeviceCandidate,
        Rejection,
    >)
        ensures
            outcome == self.verdict(profile),
    {
        let queue_family_index = match find_queue_family(&self.queue_families) {
            Some(index) => index,
            None => {
                return Err(Rejection::NoQueueFamily);
            },
        };
        let surface_format = match find_surface_format(&self.surface_formats) {
            Some(format) => format,
            None => {
                return Err(Rejection::NoSurfaceFormat);
            },
        };
        let present_modes = match PresentModes::new(self.present_modes.as_slice()) {
            Some(modes) => modes,
            None => {
                return Err(Rejection::NoPresentMode);
            },
        };
        let layers = required_layers(profile);
        if !check(&layers, &self.layers).supported {
            return Err(Rejection::MissingLayers);
        }
        let extensions = required_device_extensions();
        if !check(&extensions, &self.extensions).supported {
            return Err(Rejection::MissingExtensions);
        }
        Ok(
            PhysicalDeviceCandidate {
                queue_family_index,
                surface_format,
                present_modes,
                device_type_rank: self.device_type.device_type_rank(),
            },
        )
    }
}

/// A device passes the filters exactly when it meets each requirement by
/// itself: the order in which the filters run decides only which failure is
/// reported.
pub proof fn lemma_passes_iff_meets_every_requirement(device: PhysicalDevice, profile: LogLevel)
    ensures
        device.passes(profile) <==> device.meets_every_requirement(profile),
{
    let families = device.queue_families@;
    let formats = device.surface_formats@;
    if exists|i: int| 0 <= i < families.len() && (#[trigger] families[i]).suitable() {
        let i = choose|i: int| 0 <= i < families.len() && (#[trigger] families[i]).suitable();
        lemma_first_family_exists(families, i);
    }
    if exists|i: int| 0 <= i < formats.len() && (#[trigger] formats[i]).suitable() {
        let i = choose|i: int| 0 <= i < formats.len() && (#[trigger] formats[i]).suitable();
        lemma_first_format_exists(formats, i);
    }
    if first_suitable_family(families) is Some {
        let i = choose|i: int| is_first_suitable_family(families, i);
        assert(families[i].suitable());
    }
    if first_suitable_format(formats) is Some {
        let i = choose|i: int| is_first_suitable_format(formats, i);
        assert(formats[i].suitable());
    }
}

proof fn lemma_first_family_exists(families: Seq<QueueFamily>, at: int)
    requires
        0 <= at < families.len(),
        families[at].suitable(),
    ensures
        exists|i: int| is_first_suitable_family(families, i),
    decreases at,
{
    if exists|j: int| 0 <= j < at && (#[trigger] families[j]).suitable() {
        let j = choose|j: int| 0 <= j < at && (#[trigger] families[j]).suitable();
        lemma_first_family_exists(families, j);
    } else {
        assert(is_first_suitable_family(families, at));
    }
}

proof fn lemma_first_format_exists(formats: Seq<SurfaceFormat>, at: int)
    requires
        0 <= at < formats.len(),
        formats[at].suitable(),
    ensures
        exists|i: int| is_first_suitable_format(formats, i),
    decreases at,
{
    if exists|j: int| 0 <= j < at && (#[trigger] formats[j]).suitable() {
        let j = choose|j: int| 0 <= j < at && (#[trigger] formats[j]).suitable();
        lemma_first_format_exists(formats, j);
    } else {
        assert(is_first_suitable_format(formats, at));
    }
}

/// `index` is the position of the device to use: it passes every filter, no
/// passing device is of a higher rank, and every passing device before it is
/// of a lower one.
pub open spec fn is_selection(devices: Seq<PhysicalDevice>, profile: LogLevel, index: int) -> bool {
    &&& 0 <= index < devices.len()
    &&& devices[index].passes(profile)
    &&& forall|j: int|
        0 <= j < devices.len() && (#[trigger] devices[j]).passes(profile)
            ==> devices[j].device_type.rank() <= devices[index].device_type.rank()
    &&& forall|j: int|
        0 <= j < index && (#[trigger] devices[j]).passes(profile) ==> devices[j].device_type.rank()
            < devices[index].device_type.rank()
}

/// Picks the device to use among those the driver lists: the one of the
/// highest rank among those that pass every filter, the first of them where
/// several share that rank. Nothing is picked exactly when no device passes.
pub fn select_device(devices: &Vec<PhysicalDevice>, profile: LogLevel) -> (selection: Option<
    (usize, PhysicalDeviceCandidate),
>)
    ensures
        match selection {
            Some((index, candidate)) => is_selection(devices@, profile, index as int)
                && devices[index as int].verdict(profile) == Ok::<_, Rejection>(candidate),
            None => forall|j: int|
                0 <= j < devices.len() ==> !(#[trigger] devices[j]).passes(profile),
        },
{
    let mut best: Option<(usize, PhysicalDeviceCandidate)> = None;
    let mut i: usize = 0;
    while i < devices.len()
        invariant
            i <= devices.len(),
            match best {
                Some((index, candidate)) => {
                    &&& index < i
                    &&& devices[index as int].verdict(profile) == Ok::<_, Rejection>(candidate)
                    &&& forall|j: int|
                        0 <= j < i && (#[trigger] devices[j]).passes(profile)
                            ==> devices[j].device_type.rank()
                            <= devices[index as int].device_type.rank()
                    &&& forall|j: int|
                        0 <= j < index && (#[trigger] devices[j]).passes(profile)
                            ==> devices[j].device_type.rank()
                            < devices[index as int].device_type.rank()
                },
                None => forall|j: int| 0 <= j < i ==> !(#[trigger] devices[j]).passes(profile),
            },
        decreases devices.len() - i,
    {
        match devices[i].evaluate(profile) {
            Ok(candidate) => {
                let better = match best {
                    Some((_, held)) => candidate.device_type_rank > held.device_type_rank,
                    None => true,
                };
                if better {
                    best = Some((i, candidate));
                }
            },
            Err(_) => {},
        }
        i += 1;
    }
    best
}

/// Two positions that both are the selection are the same position.
pub proof fn lemma_selection_is_unique(
    devices: Seq<PhysicalDevice>,
    profile: LogLevel,
    first: int,
    second: int,
)
    requires
        is_selection(devices, profile, first),
        is_selection(devices, profile, second),
    ensures
        first == second,
{
}

/// The selected device passed every filter, and no device that passed them is
/// of a higher rank than the selected one.
pub proof fn lemma_selection_passes_and_is_best(
    devices: Seq<PhysicalDevice>,
    profile: LogLevel,
    selected: int,
    other: int,
)
    requires
        is_selection(devices, profile, selected),
        0 <= other < devices.len(),
        devices[other].passes(profile),
    ensures
        devices[selected].meets_every_requirement(profile),
        devices[other].device_type.rank() <= devices[selected].device_type.rank(),
        devices[other].device_type.rank() < devices[selected].device_type.rank() ==> other
            != selected,
{
    lemma_passes_iff_meets_every_requirement(devices[selected], profile);
}

/// Of two devices that both pass, the one of the higher rank is selected,
/// whichever of them the driver lists first.
pub proof fn lemma_higher_rank_wins_in_either_order(
    higher: PhysicalDevice,
    lower: PhysicalDevice,
    profile: LogLevel,
)
    requires
        higher.passes(profile),
        lower.passes(profile),
        higher.device_type.rank() > lower.device_type.rank(),
    ensures
        is_selection(seq![higher, lower], profile, 0),
        is_selection(seq![lower, higher], profile, 1),
{
}

/// What the driver says a device is.
#[derive(Clone, Debug, PartialEq, Eq)]
pub struct DeviceProperties {
    pub device_name: String,
    pub device_type: DeviceType,
}

/// What the logical device is to be created with.
#[derive(Clone, Debug, PartialEq, Eq)]
pub struct DevicePlan {
    /// The position of the chosen device in the driver's list.
    pub physical_device: usize,
    pub device_properties: DeviceProperties,
    /// The one queue family that is enabled.
    pub queue_family_index: usize,
    /// How many queues of that family are asked for, all at full priority.
    pub queue_count: usize,
    /// The queue of the family that takes graphics work.
    pub graphics_queue_index: u32,
    /// The queue of the family that takes transfer work.
    pub transfer_queue_index: u32,
    pub surface_format: SurfaceFormat,
    pub present_modes: PresentModes,
    /// The layers to enable.
    pub layers: Vec<String>,
    /// The extensions to enable.
    pub extensions: Vec<String>,
    /// The names of the features to enable.
    pub features: Vec<String>,
    /// Whether rendering without render pass objects is switched on.
    pub dynamic_rendering: bool,
}

/// The queues of a logical device, by their handles.
#[derive(Clone, Copy, Debug, PartialEq, Eq, Structural)]
pub struct DeviceQueues {
    pub graphics: u64,
    pub transfer: u64,
}

/// The logical device of a context: which physical device it stands on and
/// what was settled for it.
#[derive(Clone, Debug, PartialEq, Eq)]
pub struct DeviceManager {
    /// The position of the physical device in the driver's list.
    pub physical_device: usize,
    pub device_properties: DeviceProperties,
    pub queue_family_index: usize,
    pub surface_format: SurfaceFormat,
    pub present_modes: PresentModes,
    pub graphics_queue: u64,
    pub transfer_queue: u64,
}

/// The names of the device features the engine switches on.
pub open spec fn enabled_feature_names() -> Seq<Seq<char>> {
    seq!["VK_KHR_dynamic_rendering"@]
}

impl DevicePlan {
    /// The plan is the one for the device that the selection picks out of
    /// `devices`: it carries what was settled for that device, asks for two
    /// queues of the one family and takes the first of them for both kinds of
    /// work, and enables the required layers, the swapchain extension and
    /// dynamic rendering.
    pub open spec fn is_for(self, devices: Seq<PhysicalDevice>, profile: LogLevel) -> bool {
        let device = devices[self.physical_device as int];
        &&& is_selection(devices, profile, self.physical_device as int)
        &&& device.verdict(profile) matches Ok(candidate)
        &&& self.device_properties.device_name@ == device.name@
        &&& self.device_properties.device_type == device.device_type
        &&& self.queue_family_index == candidate.queue_family_index
        &&& self.queue_count == 2
        &&& self.graphics_queue_index == 0
        &&& self.transfer_queue_index == 0
        &&& self.surface_format == candidate.surface_format
        &&& self.present_modes == candidate.present_modes
        &&& self.layers.deep_view() == required_layer_names(profile)
        &&& self.extensions.deep_view() == required_device_extension_names()
        &&& self.features.deep_view() == enabled_feature_names()
        &&& self.dynamic_rendering
    }

    /// What the summary of the plan reads.
    pub open spec fn info(self, profile: LogLevel) -> Seq<char> {
        let head = "Created a Device.\n\n"@ + TAB_IN_SPACES@ + "Device Info:\n"@ + TAB_IN_SPACES@
            + "- Device Name: "@ + self.device_properties.device_name@ + "\n"@ + TAB_IN_SPACES@
            + "- Using Queue Family Index: "@ + decimal(self.queue_family_index as nat) + "\n\n"@;
        let layers = if profile.validates() {
            head + TAB_IN_SPACES@ + "With Layers:\n"@ + bullet_list(self.layers.deep_view())
        } else {
            head
        };
        layers + "\n"@ + TAB_IN_SPACES@ + "With Extensions:\n"@ + bullet_list(
            self.extensions.deep_view(),
        ) + "\n"@ + TAB_IN_SPACES@ + "With Features:\n"@ + bullet_list(self.features.deep_view())
    }

    /// The summary of the plan for the log: the device, the queue family, and
    /// the layers (where the profile validates), extensions and features that
    /// are enabled.
    pub fn print_info(&self, profile: LogLevel) -> (text: String)
        ensures
            text@ == self.info(profile),
    {
        let mut out = String::from_str("Created a Device.\n\n");
        out.append(TAB_IN_SPACES);
        out.append("Device Info:\n");
        out.append(TAB_IN_SPACES);
        out.append("- Device Name: ");
        out.append(self.device_properties.device_name.as_str());
        out.append("\n");
        out.append(TAB_IN_SPACES);
        out.append("- Using Queue Family Index: ");
        push_decimal(&mut out, self.queue_family_index as u64);
        out.append("\n\n");
        if profile.uses_validation() {
            out.append(TAB_IN_SPACES);
            out.append("With Layers:\n");
            push_bullet_list(&mut out, &self.layers);
        }
        out.append("\n");
        out.append(TAB_IN_SPACES);
        out.append("With Extensions:\n");
        push_bullet_list(&mut out, &self.extensions);
        out.append("\n");
        out.append(TAB_IN_SPACES);
        out.append("With Features:\n");
        push_bullet_list(&mut out, &self.features);
        out
    }
}

impl DeviceManager {
    /// How many queues of the chosen family are asked for.
    pub const DEFAULT_QUEUE_COUNT: usize = 2;

    /// Why a logical device that the driver refused could not be created.
    pub open spec fn refusal_reason(result: ApiResult) -> Seq<char> {
        "Vulkan API Error: "@ + signed_decimal(result.code as int)
    }

    /// What holds of the `outcome` of planning a device: a plan for the
    /// selected device where a device passes every filter, and a failure to
    /// create the device where none does.
    pub open spec fn plan_meets(
        devices: Seq<PhysicalDevice>,
        profile: LogLevel,
        outcome: Result<DevicePlan, EngineError>,
    ) -> bool {
        match outcome {
            Ok(plan) => plan.is_for(devices, profile),
            Err(error) => {
                &&& forall|j: int|
                    0 <= j < devices.len() ==> !(#[trigger] devices[j]).passes(profile)
                &&& error matches EngineError::DeviceCreationFailed(reason)
                &&& reason@ == "Unable to find suitable Device."@
            },
        }
    }

    /// What holds of the `outcome` of taking over a logical device: the
    /// manager holds what the plan laid down, and the queues, where the
    /// device was created; the outcome is a failure to create the device,
    /// with the driver's code as the reason, where it was not.
    pub open spec fn takes_over(
        plan: DevicePlan,
        created: Result<DeviceQueues, ApiResult>,
        outcome: Result<DeviceManager, EngineError>,
    ) -> bool {
        match created {
            Ok(queues) => {
                &&& outcome matches Ok(manager)
                &&& manager.physical_device == plan.physical_device
                &&& manager.device_properties.device_name@
                    == plan.device_properties.device_name@
                &&& manager.device_properties.device_type == plan.device_properties.device_type
                &&& manager.queue_family_index == plan.queue_family_index
                &&& manager.surface_format == plan.surface_format
                &&& manager.present_modes == plan.present_modes
                &&& manager.graphics_queue == queues.graphics
                &&& manager.transfer_queue == queues.transfer
            },
            Err(result) => {
                &&& outcome matches Err(EngineError::DeviceCreationFailed(reason))
                &&& reason@ == Self::refusal_reason(result)
            },
        }
    }

    /// Chooses the physical device and lays down how its logical device is to
    /// be created.
    ///
    /// Fails exactly when no device passes every filter, which includes a
    /// driver that lists no device at all; nothing is then to be created.
    pub fn plan(devices: &Vec<PhysicalDevice>, profile: LogLevel) -> (outcome: Result<
        DevicePlan,
        EngineError,
    >)
        ensures
            Self::plan_meets(devices@, profile, outcome),
    {
        let (index, candidate) = match select_device(devices, profile) {
            Some(selection) => selection,
            None => {
                return Err(
                    EngineError::DeviceCreationFailed(
                        String::from_str("Unable to find suitable Device."),
                    ),
                );
            },
        };
        let mut features: Vec<String> = Vec::new();
        features.push(dynamic_rendering_feature_name());
        assert(features.deep_view() =~= enabled_feature_names());
        Ok(
            DevicePlan {
                physical_device: index,
                device_properties: DeviceProperties {
                    device_name: devices[index].name.clone(),
                    device_type: devices[index].device_type,
                },
                queue_family_index: candidate.queue_family_index,
                queue_count: Self::DEFAULT_QUEUE_COUNT,
                graphics_queue_index: 0,
                transfer_queue_index: 0,
                surface_format: candidate.surface_format,
                present_modes: candidate.present_modes,
                layers: required_layers(profile),
                extensions: required_device_extensions(),
                features,
                dynamic_rendering: true,
            },
        )
    }

    /// Takes over the logical device that was created after `plan`, or
    /// reports that the driver refused it.
    pub fn new(plan: &DevicePlan, created: Result<DeviceQueues, ApiResult>) -> (outcome: Result<
        DeviceManager,
        EngineError,
    >)
        ensures
            Self::takes_over(*plan, created, outcome),
    {
        match created {
            Ok(queues) => Ok(
                DeviceManager {
                    physical_device: plan.physical_device,
                    device_properties: DeviceProperties {
                        device_name: plan.device_properties.device_name.clone(),
                        device_type: plan.device_properties.device_type,
                    },
                    queue_family_index: plan.queue_family_index,
                    surface_format: plan.surface_format,
                    present_modes: plan.present_modes,
                    graphics_queue: queues.graphics,
                    transfer_queue: queues.transfer,
                },
            ),
            Err(result) => {
                let mut reason = String::from_str("Vulkan API Error: ");
                push_signed_decimal(&mut reason, result.code);
                Err(EngineError::DeviceCreationFailed(reason))
            },
        }
    }
}

} // verus!
