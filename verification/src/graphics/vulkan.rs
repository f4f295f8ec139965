//! Presentation through Vulkan: the choices made while a surface is set up
//! (which device, which image format, what swapchain) and the engine that
//! takes a surface through its frames.
//!
//! The engine never touches the device. A call to render is a short
//! conversation: [`VulkanSurface::render`] says what to do first, the caller
//! does it and reports what came of it, and each report is answered with the
//! next step until the call is over.

use vstd::prelude::*;
use crate::util::size::{
    last_logical, last_scale, lemma_apply_all_keeps_last, Geometry, GeometryChange, Size,
};
use crate::wayland::protocol::fractional_scale::ScaleFactor;

verus! {

/// Why an operation of this crate failed.
#[derive(Clone, Copy, Debug, PartialEq, Eq, Structural)]
pub enum Error {
    /// The Vulkan library could not be loaded.
    Loading,
    /// A Vulkan call was refused by validation or by the device.
    Validated,
    /// A Vulkan call failed on the device.
    Vulkan,
    /// The surface offers no image format with the B8G8R8A8 layout.
    UnsupportedBGRA,
    /// No Skia context could be made for the device.
    SkiaCreationError,
    /// No Skia surface could be made for the acquired image.
    SkiaSurfaceError,
    /// A swapchain came back without a single image.
    EmptySwapchain,
    /// A wait on the device did not end: the device is lost.
    DeviceLost,
    /// The surface identity is registered already.
    AlreadyRegistered,
    /// The surface identity is not registered.
    UnknownSurface,
    /// The touch point was never put down, or has been lifted.
    UnknownTouch,
    /// The surface has no presentation engine in a state to be used.
    NotAttached,
    /// A report arrived that the engine was not waiting for.
    OutOfOrder,
    /// The device handed out an image that the swapchain does not hold.
    UnknownImage,
}

/// The four kinds of failure, by how they are dealt with.
#[derive(Clone, Copy, Debug, PartialEq, Eq, Structural)]
pub enum ErrorKind {
    /// The device or surface lacks something that is needed.
    Capability,
    /// A resource could not be created or used.
    Resource,
    /// The caller or the compositor broke the order of events.
    ContractViolation,
    /// The device stopped answering.
    DeviceLoss,
}

impl Error {
    /// The kind of a failure.
    pub open spec fn spec_kind(self) -> ErrorKind {
        match self {
            Error::UnsupportedBGRA => ErrorKind::Capability,
            Error::Loading | Error::Validated | Error::Vulkan | Error::SkiaCreationError
            | Error::SkiaSurfaceError | Error::EmptySwapchain => ErrorKind::Resource,
            Error::DeviceLost => ErrorKind::DeviceLoss,
            Error::AlreadyRegistered | Error::UnknownSurface | Error::UnknownTouch
            | Error::NotAttached | Error::OutOfOrder | Error::UnknownImage =>
                ErrorKind::ContractViolation,
        }
    }

    /// The text that describes a failure.
    pub open spec fn spec_message(self) -> Seq<char> {
        match self {
            Error::Loading => "An error has occurred whilst loading a Vulkan library."@,
            Error::Validated => "A Vulkan call was refused."@,
            Error::Vulkan => "A Vulkan error has occurred."@,
            Error::UnsupportedBGRA => "Your graphics device does not support B8G8R8A8 format."@,
            Error::SkiaCreationError =>
                "An error occurred whilst creating a Skia context for Vulkan."@,
            Error::SkiaSurfaceError =>
                "An error occurred whilst creating a Skia surface for Vulkan."@,
            Error::EmptySwapchain => "The swapchain holds no image."@,
            Error::DeviceLost => "The graphics device does not answer any more."@,
            Error::AlreadyRegistered => "The surface is registered already."@,
            Error::UnknownSurface => "The surface is not registered."@,
            Error::UnknownTouch => "The touch point is not down."@,
            Error::NotAttached => "The surface has no backend attached."@,
            Error::OutOfOrder => "The presentation engine did not wait for this."@,
            Error::UnknownImage => "The swapchain does not hold the acquired image."@,
        }
    }

    /// The text that describes a failure.
    pub fn message(self) -> (text: &'static str)
        ensures
            text@ == self.spec_message(),
    {
        match self {
            Error::Loading => "An error has occurred whilst loading a Vulkan library.",
            Error::Validated => "A Vulkan call was refused.",
            Error::Vulkan => "A Vulkan error has occurred.",
            Error::UnsupportedBGRA => "Your graphics device does not support B8G8R8A8 format.",
            Error::SkiaCreationError =>
                "An error occurred whilst creating a Skia context for Vulkan.",
            Error::SkiaSurfaceError =>
                "An error occurred whilst creating a Skia surface for Vulkan.",
            Error::EmptySwapchain => "The swapchain holds no image.",
            Error::DeviceLost => "The graphics device does not answer any more.",
            Error::AlreadyRegistered => "The surface is registered already.",
            Error::UnknownSurface => "The surface is not registered.",
            Error::UnknownTouch => "The touch point is not down.",
            Error::NotAttached => "The surface has no backend attached.",
            Error::OutOfOrder => "The presentation engine did not wait for this.",
            Error::UnknownImage => "The swapchain does not hold the acquired image.",
        }
    }

    /// The kind of a failure.
    #[verifier::when_used_as_spec(spec_kind)]
    pub fn kind(self) -> (kind: ErrorKind)
        ensures
            kind == self.spec_kind(),
    {
        match self {
            Error::UnsupportedBGRA => ErrorKind::Capability,
            Error::Loading | Error::Validated | Error::Vulkan | Error::SkiaCreationError
            | Error::SkiaSurfaceError | Error::EmptySwapchain => ErrorKind::Resource,
            Error::DeviceLost => ErrorKind::DeviceLoss,
            Error::AlreadyRegistered | Error::UnknownSurface | Error::UnknownTouch
            | Error::NotAttached | Error::OutOfOrder | Error::UnknownImage =>
                ErrorKind::ContractViolation,
        }
    }
}

/// What kind of hardware a physical device is.
#[derive(Clone, Copy, Debug, PartialEq, Eq, Structural)]
pub enum PhysicalDeviceType {
    DiscreteGpu,
    IntegratedGpu,
    VirtualGpu,
    Cpu,
    Other,
}

/// What matters of one queue family of a device.
#[derive(Clone, Copy, Debug, PartialEq, Eq, Structural)]
pub struct QueueFamily {
    /// The family takes graphics commands.
    pub graphics: bool,
    /// The family can present to the surface in question.
    pub presents: bool,
}

/// What matters of one physical device when a surface looks for its device.
#[derive(Debug)]
pub struct PhysicalDevice {
    /// The kind of hardware.
    pub device_type: PhysicalDeviceType,
    /// The device supports every extension that is asked for.
    pub supports_extensions: bool,
    /// Its queue families, in the device's own order.
    pub queue_families: Vec<QueueFamily>,
}

/// How little a kind of device is wanted: the smaller, the better.
pub open spec fn rank(device_type: PhysicalDeviceType) -> int {
    match device_type {
        PhysicalDeviceType::DiscreteGpu => 0,
        PhysicalDeviceType::IntegratedGpu => 1,
        PhysicalDeviceType::VirtualGpu => 2,
        PhysicalDeviceType::Cpu => 3,
        PhysicalDeviceType::Other => 4,
    }
}

/// The family can both draw and present.
pub open spec fn family_fits(family: QueueFamily) -> bool {
    family.graphics && family.presents
}

/// Family `q` is the first of the device that can both draw and present.
pub open spec fn first_fitting_family(device: PhysicalDevice, q: int) -> bool {
    &&& 0 <= q < device.queue_families@.len()
    &&& family_fits(device.queue_families@[q])
    &&& forall|k: int| 0 <= k < q ==> !family_fits(#[trigger] device.queue_families@[k])
}

/// The device has the extensions and a family that can draw and present.
pub open spec fn usable(device: PhysicalDevice) -> bool {
    &&& device.supports_extensions
    &&& exists|q: int|
        0 <= q < device.queue_families@.len() && family_fits(
            #[trigger] device.queue_families@[q],
        )
}

/// Device `i` is the one to take: usable, of the most wanted kind among the
/// usable ones, and the first of that kind.
pub open spec fn is_best(devices: Seq<PhysicalDevice>, i: int) -> bool {
    &&& 0 <= i < devices.len()
    &&& usable(devices[i])
    &&& forall|j: int|
        0 <= j < devices.len() && usable(#[trigger] devices[j]) ==> rank(devices[i].device_type)
            <= rank(devices[j].device_type)
    &&& forall|j: int|
        0 <= j < i && usable(#[trigger] devices[j]) ==> rank(devices[i].device_type) < rank(
            devices[j].device_type,
        )
}

fn device_rank(device_type: PhysicalDeviceType) -> (r: u8)
    ensures
        r == rank(device_type),
{
    match device_type {
        PhysicalDeviceType::DiscreteGpu => 0,
        PhysicalDeviceType::IntegratedGpu => 1,
        PhysicalDeviceType::VirtualGpu => 2,
        PhysicalDeviceType::Cpu => 3,
        PhysicalDeviceType::Other => 4,
    }
}

/// The first queue family of a device that can both draw and present.
pub fn fitting_family(device: &PhysicalDevice) -> (found: Option<usize>)
    ensures
        match found {
            Some(q) => first_fitting_family(*device, q as int),
            None => forall|k: int|
                0 <= k < device.queue_families@.len() ==> !family_fits(
                    #[trigger] device.queue_families@[k],
                ),
        },
{
    let mut q: usize = 0;
    while q < device.queue_families.len()
        invariant
            q <= device.queue_families@.len(),
            forall|k: int| 0 <= k < q ==> !family_fits(#[trigger] device.queue_families@[k]),
        decreases device.queue_families@.len() - q,
    {
        let family = device.queue_families[q];
        if family.graphics && family.presents {
            return Some(q);
        }
        q += 1;
    }
    None
}

/// Picks the device for a surface and the queue family to use on it: among
/// the devices that have the extensions and a family that draws and presents,
/// the most wanted kind, and of several such the first. `None` where no
/// device will do.
pub fn best_physical_device(devices: &Vec<PhysicalDevice>) -> (best: Option<(usize, usize)>)
    ensures
        match best {
            Some((i, q)) => is_best(devices@, i as int) && first_fitting_family(
                devices@[i as int],
                q as int,
            ),
            None => forall|j: int| 0 <= j < devices@.len() ==> !usable(#[trigger] devices@[j]),
        },
{
    let mut best: Option<(usize, usize)> = None;
    let mut best_rank: u8 = 5;
    let mut j: usize = 0;
    while j < devices.len()
        invariant
            j <= devices@.len(),
            match best {
                Some((i, q)) => {
                    &&& i < j
                    &&& usable(devices@[i as int])
                    &&& best_rank == rank(devices@[i as int].device_type)
                    &&& first_fitting_family(devices@[i as int], q as int)
                    &&& forall|k: int|
                        0 <= k < j && usable(#[trigger] devices@[k]) ==> best_rank <= rank(
                            devices@[k].device_type,
                        )
                    &&& forall|k: int|
                        0 <= k < i && usable(#[trigger] devices@[k]) ==> best_rank < rank(
                            devices@[k].device_type,
                        )
                },
                None => best_rank == 5 && forall|k: int|
                    0 <= k < j ==> !usable(#[trigger] devices@[k]),
            },
        decreases devices@.len() - j,
    {
        let device = &devices[j];
        if device.supports_extensions {
            if let Some(q) = fitting_family(device) {
                let r = device_rank(device.device_type);
                if r < best_rank {
                    best = Some((j, q));
                    best_rank = r;
                }
            }
        }
        j += 1;
    }
    best
}

/// The code of the image format with 8-bit blue, green, red and alpha
/// channels, unsigned and normalised.
pub const B8G8R8A8_UNORM: i32 = 44;

/// Entry `i` is the first of the list with the B8G8R8A8 format.
pub open spec fn first_bgra(formats: Seq<(i32, i32)>, i: int) -> bool {
    &&& 0 <= i < formats.len()
    &&& formats[i].0 == B8G8R8A8_UNORM
    &&& forall|k: int| 0 <= k < i ==> (#[trigger] formats[k]).0 != B8G8R8A8_UNORM
}

/// Picks the image format of the swapchain from what the surface offers,
/// each entry a format code with its colour space: the first entry with the
/// B8G8R8A8 format. Fails with [`Error::UnsupportedBGRA`] exactly where no
/// entry has it.
pub fn surface_format(formats: &Vec<(i32, i32)>) -> (chosen: Result<usize, Error>)
    ensures
        match chosen {
            Ok(i) => first_bgra(formats@, i as int),
            Err(e) => e == Error::UnsupportedBGRA && forall|k: int|
                0 <= k < formats@.len() ==> (#[trigger] formats@[k]).0 != B8G8R8A8_UNORM,
        },
{
    let mut i: usize = 0;
    while i < formats.len()
        invariant
            i <= formats@.len(),
            forall|k: int| 0 <= k < i ==> (#[trigger] formats@[k]).0 != B8G8R8A8_UNORM,
        decreases formats@.len() - i,
    {
        if formats[i].0 == B8G8R8A8_UNORM {
            return Ok(i);
        }
        i += 1;
    }
    Err(Error::UnsupportedBGRA)
}

/// A length cut down to what 32 unsigned bits hold.
pub open spec fn clamp_u32(length: int) -> u32 {
    if length > u32::MAX {
        u32::MAX
    } else if length < 0 {
        0u32
    } else {
        length as u32
    }
}

/// A length cut down to what 32 signed bits hold.
pub open spec fn clamp_i32(length: int) -> i32 {
    if length > i32::MAX {
        i32::MAX
    } else if length < 0 {
        0i32
    } else {
        length as i32
    }
}

/// The extent of the images that present a geometry: its physical size, cut
/// down to the largest extent there is.
pub open spec fn extent_of(geometry: Geometry) -> (u32, u32) {
    (clamp_u32(geometry.physical().0), clamp_u32(geometry.physical().1))
}

fn saturate_u32(length: u64) -> (cut: u32)
    ensures
        cut == clamp_u32(length as int),
{
    if length > u32::MAX as u64 {
        u32::MAX
    } else {
        length as u32
    }
}

fn saturate_i32(length: u64) -> (cut: i32)
    ensures
        cut == clamp_i32(length as int),
{
    if length > i32::MAX as u64 {
        i32::MAX
    } else {
        length as i32
    }
}

/// The extent of the swapchain images for a surface of the given geometry.
pub fn image_extent(size: &Size) -> (extent: (u32, u32))
    ensures
        extent == extent_of(size@),
{
    let (width, height) = size.physical_size();
    (saturate_u32(width), saturate_u32(height))
}

/// What a swapchain is created with.
#[derive(Clone, Copy, Debug, PartialEq, Eq)]
pub struct SwapchainCreateInfo {
    /// The least number of images to ask for.
    pub min_image_count: u32,
    /// Width and height of each image.
    pub image_extent: (u32, u32),
}

/// The swapchain to create for a surface: one image more than the surface
/// needs at least, so that one can be drawn while the others are shown, each
/// as large as the surface is in physical pixels.
pub fn swapchain_create_info(surface_min_image_count: u32, size: &Size) -> (info:
    SwapchainCreateInfo)
    ensures
        info.min_image_count == if surface_min_image_count == u32::MAX {
            u32::MAX
        } else {
            (surface_min_image_count + 1) as u32
        },
        info.image_extent == extent_of(size@),
{
    SwapchainCreateInfo {
        min_image_count: surface_min_image_count.saturating_add(1),
        image_extent: image_extent(size),
    }
}

/// The render target that wraps an acquired image for drawing.
#[derive(Clone, Copy, Debug, PartialEq, Eq, Structural)]
pub struct RenderTarget {
    /// Width in pixels.
    pub width: i32,
    /// Height in pixels.
    pub height: i32,
}

/// Where a presentation engine stands in its life.
#[derive(Clone, Copy, Debug, PartialEq, Eq, Structural)]
pub enum Phase {
    /// No swapchain has been built yet.
    Uninitialized,
    /// The swapchain fits the surface and frames can be presented.
    Ready,
    /// The swapchain is stale and has to be rebuilt before the next frame.
    RecreatePending,
    /// The engine has been detached; it holds nothing any more.
    Destroyed,
}

/// What the engine waits for within one call to render.
#[derive(Clone, Copy, Debug, PartialEq, Eq, Structural)]
pub enum Stage {
    /// Nothing: no call is under way.
    Idle,
    /// The report that the swapchain was rebuilt at this extent; `resume`
    /// says whether the call then goes on to present a frame.
    Rebuilding { width: u32, height: u32, resume: bool },
    /// The report of which image was acquired.
    Acquiring,
    /// The report that the frame drawn into `image` was presented.
    Drawing { image: usize },
}

/// The synchronisation state of one swapchain image and of the frame slot of
/// the same index.
#[derive(Clone, Copy, Debug, PartialEq, Eq)]
pub struct FrameElement {
    /// The slot's commands were submitted and its fence has not been waited
    /// for since.
    pub in_flight: bool,
    /// The slot whose fence guards the last use of the image, if it was used.
    pub last_used: Option<usize>,
}

/// What the caller has to do next within a call to render.
#[derive(Clone, Copy, Debug, PartialEq, Eq)]
pub enum RenderStep {
    /// Nothing: the call is over and presented no frame.
    Skip,
    /// Wait until the device is idle, rebuild the swapchain with images of
    /// this extent, and report with [`VulkanSurface::recreate_swapchain`].
    Rebuild { width: u32, height: u32 },
    /// Wait for the fence of slot `fence`, acquire the next image, and report
    /// with [`VulkanSurface::image_acquired`].
    Acquire { fence: usize },
    /// Wait for the fence of slot `wait`, if there is one; draw into `image` in
    /// logical units, scaled by `scale`; submit, signalling the semaphore and
    /// the fence of slot `signal`; present; and report with
    /// [`VulkanSurface::frame_presented`].
    Draw { image: usize, wait: Option<usize>, signal: usize, scale: Option<ScaleFactor> },
}

/// What came of acquiring the next image.
#[derive(Clone, Copy, Debug, PartialEq, Eq)]
pub enum Acquired {
    /// The image of this index; `suboptimal` where the swapchain no longer
    /// fits the surface exactly but can still be presented.
    Image { index: usize, suboptimal: bool },
    /// The swapchain no longer fits the surface at all.
    OutOfDate,
    /// The wait for the slot's fence did not end.
    TimedOut,
    /// The device refused.
    Failed(Error),
}

/// What came of drawing, submitting and presenting a frame.
#[derive(Clone, Copy, Debug, PartialEq, Eq)]
pub enum Presented {
    /// The frame was submitted and queued for presentation.
    Done,
    /// The frame was submitted, and the swapchain turned out to be stale.
    OutOfDate,
    /// The wait for the image's fence did not end.
    TimedOut,
    /// Drawing, submitting or presenting failed; nothing was submitted.
    Aborted(Error),
}

/// One step of taking an engine's resources down.
#[derive(Clone, Copy, Debug, PartialEq, Eq, Structural)]
pub enum Release {
    /// Wait until the device is idle.
    WaitIdle,
    /// Release image view, render target, semaphores and fence of this slot.
    Element(usize),
    /// Release the swapchain itself.
    Swapchain,
}

/// A presentation engine as contracts see it.
pub struct Engine {
    /// Where the engine stands in its life.
    pub phase: Phase,
    /// What it waits for within the current call.
    pub stage: Stage,
    /// The extent the swapchain was last built at.
    pub extent: (u32, u32),
    /// The slot the next frame uses.
    pub current_frame: usize,
    /// One element for each swapchain image.
    pub elements: Seq<FrameElement>,
    /// The scale that the frame under way is drawn with.
    pub scale: Option<ScaleFactor>,
}

/// `n` elements as they are after a swapchain was built: nothing in flight,
/// no image used.
pub open spec fn fresh_elements(n: nat) -> Seq<FrameElement> {
    Seq::new(n, |i: int| FrameElement { in_flight: false, last_used: None })
}

/// The steps that take down an engine of `n` elements, in order: the wait
/// for the device, then each element, then the swapchain.
pub open spec fn release_plan(n: nat) -> Seq<Release> {
    seq![Release::WaitIdle] + Seq::new(n, |i: int| Release::Element(i as usize))
        + seq![Release::Swapchain]
}

impl Engine {
    /// The engine holds a swapchain.
    pub open spec fn attached(self) -> bool {
        self.phase is Ready || self.phase is RecreatePending
    }

    /// What holds of every engine between two operations.
    pub open spec fn wf(self) -> bool {
        &&& self.elements.len() <= usize::MAX
        &&& self.attached() ==> self.current_frame < self.elements.len()
        &&& !self.attached() ==> self.stage is Idle && self.elements.len() == 0
            && self.current_frame == 0
        &&& forall|i: int|
            0 <= i < self.elements.len() ==> ((#[trigger] self.elements[i]).last_used matches Some(
                f,
            ) ==> f < self.elements.len())
        &&& self.stage matches Stage::Drawing { image } ==> {
            &&& image < self.elements.len()
            &&& !self.elements[self.current_frame as int].in_flight
            &&& self.elements[image as int].last_used == Some(self.current_frame)
        }
    }

    /// An engine before its swapchain is built.
    pub open spec fn uninitialized() -> Engine {
        Engine {
            phase: Phase::Uninitialized,
            stage: Stage::Idle,
            extent: (0, 0),
            current_frame: 0,
            elements: Seq::empty(),
            scale: None,
        }
    }

    /// The engine once a swapchain of `images` images was built for a surface of
    /// the given geometry.
    pub open spec fn attach(self, images: usize, geometry: Geometry) -> (Engine, Result<(), Error>) {
        if !(self.phase is Uninitialized) {
            (self, Err(Error::OutOfOrder))
        } else if images == 0 {
            (self, Err(Error::EmptySwapchain))
        } else {
            (
                Engine {
                    phase: Phase::Ready,
                    stage: Stage::Idle,
                    extent: extent_of(geometry),
                    current_frame: 0,
                    elements: fresh_elements(images as nat),
                    scale: geometry.scale,
                },
                Ok(()),
            )
        }
    }

    /// The start of a call to render: the geometry is polled, and the call
    /// either asks for a rebuild or goes on to acquire an image.
    pub open spec fn render(self, geometry: Geometry) -> (Engine, Geometry, Result<
        RenderStep,
        Error,
    >) {
        let (width, height) = extent_of(geometry);
        if !self.attached() {
            (self, geometry, Err(Error::NotAttached))
        } else if !(self.stage is Idle) {
            (self, geometry, Err(Error::OutOfOrder))
        } else if geometry.dirty {
            (
                Engine {
                    phase: Phase::RecreatePending,
                    stage: Stage::Rebuilding { width, height, resume: false },
                    scale: geometry.scale,
                    ..self
                },
                geometry.consumed(),
                Ok(RenderStep::Rebuild { width, height }),
            )
        } else if self.phase is RecreatePending {
            (
                Engine {
                    stage: Stage::Rebuilding { width, height, resume: true },
                    scale: geometry.scale,
                    ..self
                },
                geometry,
                Ok(RenderStep::Rebuild { width, height }),
            )
        } else {
            (
                Engine { stage: Stage::Acquiring, scale: geometry.scale, ..self },
                geometry,
                Ok(RenderStep::Acquire { fence: self.current_frame }),
            )
        }
    }

    /// The report of a rebuild: with `Ok`, the number of images of the new
    /// swapchain.
    pub open spec fn recreate_swapchain(self, rebuilt: Result<usize, Error>) -> (Engine, Result<
        RenderStep,
        Error,
    >) {
        match self.stage {
            Stage::Rebuilding { width, height, resume } => match rebuilt {
                Err(e) => (Engine { stage: Stage::Idle, ..self }, Err(e)),
                Ok(images) => if images == 0 {
                    (Engine { stage: Stage::Idle, ..self }, Err(Error::EmptySwapchain))
                } else {
                    (
                        Engine {
                            phase: Phase::Ready,
                            stage: if resume {
                                Stage::Acquiring
                            } else {
                                Stage::Idle
                            },
                            extent: (width, height),
                            current_frame: 0,
                            elements: fresh_elements(images as nat),
                            ..self
                        },
                        Ok(
                            if resume {
                                RenderStep::Acquire { fence: 0 }
                            } else {
                                RenderStep::Skip
                            },
                        ),
                    )
                },
            },
            _ => (self, Err(Error::OutOfOrder)),
        }
    }

    /// The elements once the current slot's fence was waited for.
    pub open spec fn with_current_free(self) -> Seq<FrameElement> {
        self.elements.update(
            self.current_frame as int,
            FrameElement { in_flight: false, ..self.elements[self.current_frame as int] },
        )
    }

    /// The report of an acquisition.
    pub open spec fn image_acquired(self, acquired: Acquired) -> (Engine, Result<
        RenderStep,
        Error,
    >) {
        if !(self.stage is Acquiring) {
            (self, Err(Error::OutOfOrder))
        } else {
            match acquired {
                Acquired::TimedOut => (Engine { stage: Stage::Idle, ..self }, Err(
                    Error::DeviceLost,
                )),
                Acquired::Failed(e) => (
                    Engine { stage: Stage::Idle, elements: self.with_current_free(), ..self },
                    Err(e),
                ),
                Acquired::OutOfDate => (
                    Engine {
                        phase: Phase::RecreatePending,
                        stage: Stage::Idle,
                        elements: self.with_current_free(),
                        ..self
                    },
                    Ok(RenderStep::Skip),
                ),
                Acquired::Image { index, suboptimal } => if index >= self.elements.len() {
                    (
                        Engine { stage: Stage::Idle, elements: self.with_current_free(), ..self },
                        Err(Error::UnknownImage),
                    )
                } else {
                    let free = self.with_current_free();
                    (
                        Engine {
                            phase: if suboptimal {
                                Phase::RecreatePending
                            } else {
                                self.phase
                            },
                            stage: Stage::Drawing { image: index },
                            elements: free.update(
                                index as int,
                                FrameElement {
                                    last_used: Some(self.current_frame),
                                    ..free[index as int]
                                },
                            ),
                            ..self
                        },
                        Ok(
                            RenderStep::Draw {
                                image: index,
                                wait: self.elements[index as int].last_used,
                                signal: self.current_frame,
                                scale: self.scale,
                            },
                        ),
                    )
                },
            }
        }
    }

    /// The engine once the frame of the current slot was submitted: the slot
    /// is in flight and the cursor moves on, back to the first slot after the
    /// last.
    pub open spec fn submitted(self) -> Engine {
        Engine {
            stage: Stage::Idle,
            elements: self.elements.update(
                self.current_frame as int,
                FrameElement { in_flight: true, ..self.elements[self.current_frame as int] },
            ),
            current_frame: ((self.current_frame + 1) % (self.elements.len() as int)) as usize,
            ..self
        }
    }

    /// The report of a frame.
    pub open spec fn frame_presented(self, presented: Presented) -> (Engine, Result<(), Error>) {
        if !(self.stage is Drawing) {
            (self, Err(Error::OutOfOrder))
        } else {
            match presented {
                Presented::Done => (self.submitted(), Ok(())),
                Presented::OutOfDate => (
                    Engine { phase: Phase::RecreatePending, ..self.submitted() },
                    Ok(()),
                ),
                Presented::TimedOut => (Engine { stage: Stage::Idle, ..self }, Err(
                    Error::DeviceLost,
                )),
                Presented::Aborted(e) => (Engine { stage: Stage::Idle, ..self }, Err(e)),
            }
        }
    }

    /// The engine once it was detached, and the steps that take its
    /// resources down.
    pub open spec fn detach(self) -> (Engine, Seq<Release>) {
        (
            Engine {
                phase: Phase::Destroyed,
                stage: Stage::Idle,
                current_frame: 0,
                elements: Seq::empty(),
                ..self
            },
            if self.attached() {
                release_plan(self.elements.len())
            } else {
                Seq::empty()
            },
        )
    }
}

/// The presentation engine of one surface: the swapchain's synchronisation
/// state and the progress of the call to render that is under way.
#[derive(Debug)]
pub struct VulkanSurface {
    phase: Phase,
    stage: Stage,
    extent: (u32, u32),
    current_frame: usize,
    elements: Vec<FrameElement>,
    scale: Option<ScaleFactor>,
}

impl View for VulkanSurface {
    type V = Engine;

    closed spec fn view(&self) -> Engine {
        Engine {
            phase: self.phase,
            stage: self.stage,
            extent: self.extent,
            current_frame: self.current_frame,
            elements: self.elements@,
            scale: self.scale,
        }
    }
}

fn new_elements(n: usize) -> (elements: Vec<FrameElement>)
    ensures
        elements@ == fresh_elements(n as nat),
{
    let mut elements: Vec<FrameElement> = Vec::new();
    let mut i: usize = 0;
    while i < n
        invariant
            i <= n,
            elements@ == fresh_elements(i as nat),
        decreases n - i,
    {
        elements.push(FrameElement { in_flight: false, last_used: None });
        i += 1;
        assert(elements@ =~= fresh_elements(i as nat));
    }
    elements
}

impl VulkanSurface {
    /// What holds of every engine between two operations.
    pub open spec fn wf(&self) -> bool {
        self@.wf()
    }

    /// An engine that holds no swapchain yet.
    pub fn new() -> (engine: Self)
        ensures
            engine@ == Engine::uninitialized(),
            engine.wf(),
    {
        VulkanSurface {
            phase: Phase::Uninitialized,
            stage: Stage::Idle,
            extent: (0, 0),
            current_frame: 0,
            elements: Vec::new(),
            scale: None,
        }
    }

    /// Where the engine stands in its life.
    pub fn phase(&self) -> (phase: Phase)
        ensures
            phase == self@.phase,
    {
        self.phase
    }

    /// The extent the swapchain was last built at.
    pub fn extent(&self) -> (extent: (u32, u32))
        ensures
            extent == self@.extent,
    {
        self.extent
    }

    /// The slot the next frame uses.
    pub fn current_frame(&self) -> (frame: usize)
        ensures
            frame == self@.current_frame,
    {
        self.current_frame
    }

    /// The number of swapchain images, each with its element.
    pub fn image_count(&self) -> (count: usize)
        ensures
            count == self@.elements.len(),
    {
        self.elements.len()
    }

    /// Takes up the swapchain that was built for a surface of the given
    /// geometry, with `images` images. Fails with [`Error::OutOfOrder`] where
    /// the engine was attached before, and with [`Error::EmptySwapchain`]
    /// where there is no image; the engine is then as it was.
    pub fn attach(&mut self, images: usize, size: &Size) -> (done: Result<(), Error>)
        requires
            old(self).wf(),
        ensures
            (final(self)@, done) == old(self)@.attach(images, size@),
            final(self).wf(),
    {
        match self.phase {
            Phase::Uninitialized => {},
            _ => {
                return Err(Error::OutOfOrder);
            },
        }
        if images == 0 {
            return Err(Error::EmptySwapchain);
        }
        self.phase = Phase::Ready;
        self.stage = Stage::Idle;
        self.extent = image_extent(size);
        self.current_frame = 0;
        self.elements = new_elements(images);
        self.scale = size.scale_factor();
        Ok(())
    }

    /// Starts a call to render. The geometry is polled once: where it
    /// changed, the change is consumed and the call asks for a rebuild at the
    /// new physical size, after which it ends without a frame. Where the
    /// swapchain is stale for another reason, the call asks for a rebuild and
    /// then goes on. Else it asks for the next image.
    pub fn render(&mut self, size: &mut Size) -> (step: Result<RenderStep, Error>)
        requires
            old(self).wf(),
        ensures
            (final(self)@, final(size)@, step) == old(self)@.render(old(size)@),
            final(self).wf(),
    {
        match self.phase {
            Phase::Ready | Phase::RecreatePending => {},
            _ => {
                return Err(Error::NotAttached);
            },
        }
        match self.stage {
            Stage::Idle => {},
            _ => {
                return Err(Error::OutOfOrder);
            },
        }
        let (width, height) = image_extent(size);
        self.scale = size.scale_factor();
        let changed = size.handle_changes(|_geometry: &Size| {});
        if changed.is_some() {
            self.phase = Phase::RecreatePending;
            self.stage = Stage::Rebuilding { width, height, resume: false };
            return Ok(RenderStep::Rebuild { width, height });
        }
        match self.phase {
            Phase::RecreatePending => {
                self.stage = Stage::Rebuilding { width, height, resume: true };
                Ok(RenderStep::Rebuild { width, height })
            },
            _ => {
                self.stage = Stage::Acquiring;
                Ok(RenderStep::Acquire { fence: self.current_frame })
            },
        }
    }

    /// Takes the report of a rebuild that [`VulkanSurface::render`] asked
    /// for: the number of images of the new swapchain, or why there is none.
    /// With a new swapchain the engine is ready again, nothing in flight and
    /// the cursor at the first slot; the call goes on to acquire an image
    /// where it was not a change of geometry that made it rebuild. A failure
    /// is handed on and leaves the rebuild pending.
    pub fn recreate_swapchain(&mut self, rebuilt: Result<usize, Error>) -> (step: Result<
        RenderStep,
        Error,
    >)
        requires
            old(self).wf(),
        ensures
            (final(self)@, step) == old(self)@.recreate_swapchain(rebuilt),
            final(self).wf(),
    {
        match self.stage {
            Stage::Rebuilding { width, height, resume } => {
                match rebuilt {
                    Err(e) => {
                        self.stage = Stage::Idle;
                        Err(e)
                    },
                    Ok(images) => {
                        if images == 0 {
                            self.stage = Stage::Idle;
                            return Err(Error::EmptySwapchain);
                        }
                        self.phase = Phase::Ready;
                        self.extent = (width, height);
                        self.current_frame = 0;
                        self.elements = new_elements(images);
                        if resume {
                            self.stage = Stage::Acquiring;
                            Ok(RenderStep::Acquire { fence: 0 })
                        } else {
                            self.stage = Stage::Idle;
                            Ok(RenderStep::Skip)
                        }
                    },
                }
            },
            _ => Err(Error::OutOfOrder),
        }
    }

    fn free_current(&mut self)
        requires
            old(self).wf(),
            old(self)@.attached(),
        ensures
            final(self)@ == (Engine { elements: old(self)@.with_current_free(), ..old(self)@ }),
    {
        let element = self.elements[self.current_frame];
        self.elements.set(self.current_frame, FrameElement { in_flight: false, ..element });
    }

    /// Takes the report of the acquisition that the call asked for. An image
    /// is bound to the current slot and the call goes on to draw; a
    /// suboptimal one marks the swapchain for a rebuild at the next call. A
    /// stale swapchain ends the call without a frame and without a failure. A
    /// wait that did not end is [`Error::DeviceLost`]; any other failure is
    /// handed on.
    pub fn image_acquired(&mut self, acquired: Acquired) -> (step: Result<RenderStep, Error>)
        requires
            old(self).wf(),
        ensures
            (final(self)@, step) == old(self)@.image_acquired(acquired),
            final(self).wf(),
    {
        match self.stage {
            Stage::Acquiring => {},
            _ => {
                return Err(Error::OutOfOrder);
            },
        }
        match acquired {
            Acquired::TimedOut => {
                self.stage = Stage::Idle;
                Err(Error::DeviceLost)
            },
            Acquired::Failed(e) => {
                self.free_current();
                self.stage = Stage::Idle;
                Err(e)
            },
            Acquired::OutOfDate => {
                self.free_current();
                self.phase = Phase::RecreatePending;
                self.stage = Stage::Idle;
                Ok(RenderStep::Skip)
            },
            Acquired::Image { index, suboptimal } => {
                let wait = if index < self.elements.len() {
                    self.elements[index].last_used
                } else {
                    None
                };
                self.free_current();
                if index >= self.elements.len() {
                    self.stage = Stage::Idle;
                    return Err(Error::UnknownImage);
                }
                let element = self.elements[index];
                self.elements.set(
                    index,
                    FrameElement { last_used: Some(self.current_frame), ..element },
                );
                if suboptimal {
                    self.phase = Phase::RecreatePending;
                }
                self.stage = Stage::Drawing { image: index };
                Ok(
                    RenderStep::Draw {
                        image: index,
                        wait,
                        signal: self.current_frame,
                        scale: self.scale,
                    },
                )
            },
        }
    }

    /// Takes the report of the frame that the call asked for. A frame that
    /// was submitted puts its slot in flight and moves the cursor to the next
    /// slot, the first after the last; where presenting found the swapchain
    /// stale, a rebuild is pending as well. A frame that was not submitted
    /// leaves slot and cursor as they were, and the failure is handed on.
    pub fn frame_presented(&mut self, presented: Presented) -> (done: Result<(), Error>)
        requires
            old(self).wf(),
        ensures
            (final(self)@, done) == old(self)@.frame_presented(presented),
            final(self).wf(),
    {
        match self.stage {
            Stage::Drawing { image } => {},
            _ => {
                return Err(Error::OutOfOrder);
            },
        }
        self.stage = Stage::Idle;
        match presented {
            Presented::TimedOut => Err(Error::DeviceLost),
            Presented::Aborted(e) => Err(e),
            Presented::Done | Presented::OutOfDate => {
                let element = self.elements[self.current_frame];
                self.elements.set(self.current_frame, FrameElement { in_flight: true, ..element });
                proof {
                    let n = self.elements@.len() as int;
                    let next = self.current_frame + 1;
                    if next == n {
                        vstd::arithmetic::div_mod::lemma_mod_self_0(n);
                    } else {
                        vstd::arithmetic::div_mod::lemma_small_mod(next as nat, n as nat);
                    }
                }
                self.current_frame = if self.current_frame + 1 == self.elements.len() {
                    0
                } else {
                    self.current_frame + 1
                };
                match presented {
                    Presented::OutOfDate => {
                        self.phase = Phase::RecreatePending;
                    },
                    _ => {},
                }
                Ok(())
            },
        }
    }

    /// The render target that wraps an image of the swapchain: as large as
    /// the swapchain's extent, cut down to what a signed size holds.
    pub fn skia_surface(&self) -> (target: RenderTarget)
        ensures
            target.width == clamp_i32(self@.extent.0 as int),
            target.height == clamp_i32(self@.extent.1 as int),
    {
        RenderTarget {
            width: saturate_i32(self.extent.0 as u64),
            height: saturate_i32(self.extent.1 as u64),
        }
    }

    /// Ends the engine and says how to take its resources down: once the
    /// device is idle, each element, then the swapchain. An engine that holds
    /// no swapchain has nothing to take down.
    pub fn detach(&mut self) -> (plan: Vec<Release>)
        requires
            old(self).wf(),
        ensures
            (final(self)@, plan@) == old(self)@.detach(),
            final(self).wf(),
    {
        let mut plan: Vec<Release> = Vec::new();
        match self.phase {
            Phase::Ready | Phase::RecreatePending => {
                let n = self.elements.len();
                plan.push(Release::WaitIdle);
                let mut i: usize = 0;
                while i < n
                    invariant
                        i <= n,
                        plan@ == seq![Release::WaitIdle] + Seq::new(
                            i as nat,
                            |k: int| Release::Element(k as usize),
                        ),
                    decreases n - i,
                {
                    plan.push(Release::Element(i));
                    i += 1;
                    assert(plan@ =~= seq![Release::WaitIdle] + Seq::new(
                        i as nat,
                        |k: int| Release::Element(k as usize),
                    ));
                }
                plan.push(Release::Swapchain);
                assert(plan@ =~= release_plan(n as nat));
            },
            _ => {},
        }
        self.phase = Phase::Destroyed;
        self.stage = Stage::Idle;
        self.current_frame = 0;
        self.elements = Vec::new();
        plan
    }
}

/// Changes of geometry between two calls to render are taken together:
/// however many there were, the next call asks for one rebuild, at the
/// physical size of the logical size and the scale that were announced
/// last, and ends without a frame once the rebuild is reported; the call
/// after it asks for no rebuild.
pub proof fn lemma_changes_coalesce(
    engine: Engine,
    before: Geometry,
    changes: Seq<GeometryChange>,
    images: usize,
)
    requires
        engine.wf(),
        engine.attached(),
        engine.stage is Idle,
        changes.len() > 0,
        images > 0,
    ensures
        ({
            let latest = Geometry {
                logical: last_logical(before.logical, changes),
                scale: last_scale(before.scale, changes),
                dirty: true,
            };
            let (width, height) = extent_of(latest);
            let (first, polled, asked) = engine.render(before.apply_all(changes));
            let (rebuilt, ended) = first.recreate_swapchain(Ok(images));
            let (second, again, next) = rebuilt.render(polled);
            &&& before.apply_all(changes) == latest
            &&& asked == Ok::<RenderStep, Error>(RenderStep::Rebuild { width, height })
            &&& polled == latest.consumed()
            &&& ended == Ok::<RenderStep, Error>(RenderStep::Skip)
            &&& rebuilt.phase is Ready
            &&& rebuilt.extent == (width, height)
            &&& next == Ok::<RenderStep, Error>(RenderStep::Acquire { fence: 0 })
            &&& again == polled
        }),
{
    lemma_apply_all_keeps_last(before, changes);
}

/// A stale swapchain costs one call and no more: the call in which the
/// device reports it ends without a frame and without a failure, and the
/// next call, the geometry unchanged, rebuilds the swapchain and goes on to
/// acquire an image in the same call.
pub proof fn lemma_out_of_date_recovers(engine: Engine, geometry: Geometry, images: usize)
    requires
        engine.wf(),
        engine.stage is Acquiring,
        !geometry.dirty,
        images > 0,
    ensures
        ({
            let (stale, ended) = engine.image_acquired(Acquired::OutOfDate);
            let (first, polled, asked) = stale.render(geometry);
            let (rebuilt, next) = first.recreate_swapchain(Ok(images));
            &&& ended == Ok::<RenderStep, Error>(RenderStep::Skip)
            &&& stale.phase is RecreatePending
            &&& asked == Ok::<RenderStep, Error>(
                RenderStep::Rebuild { width: extent_of(geometry).0, height: extent_of(geometry).1 },
            )
            &&& polled == geometry
            &&& next == Ok::<RenderStep, Error>(RenderStep::Acquire { fence: 0 })
            &&& rebuilt.phase is Ready
        }),
{
}

/// Whatever is reported to a well-formed engine, in whatever order, the
/// engine stays well formed: the cursor stays within the slots, and a frame
/// is only drawn for a slot that has nothing in flight.
pub proof fn lemma_engine_stays_well_formed(
    engine: Engine,
    geometry: Geometry,
    images: usize,
    rebuilt: Result<usize, Error>,
    acquired: Acquired,
    presented: Presented,
)
    requires
        engine.wf(),
    ensures
        engine.attach(images, geometry).0.wf(),
        engine.render(geometry).0.wf(),
        engine.recreate_swapchain(rebuilt).0.wf(),
        engine.image_acquired(acquired).0.wf(),
        engine.frame_presented(presented).0.wf(),
        engine.detach().0.wf(),
{
    if engine.stage is Drawing && engine.attached() {
        let n = engine.elements.len() as int;
        let next = engine.current_frame + 1;
        if next == n {
            vstd::arithmetic::div_mod::lemma_mod_self_0(n);
        } else {
            vstd::arithmetic::div_mod::lemma_small_mod(next as nat, n as nat);
        }
    }
}

} // verus!
