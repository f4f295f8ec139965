//! One registered surface: its identity, its geometry, its viewport and its
//! presentation engine.

pub mod layer;

use vstd::prelude::*;
use crate::graphics::vulkan::{
    Acquired, Engine, Error, Presented, Release, RenderStep, VulkanSurface,
};
use crate::util::size::{Geometry, GeometryChange, Size};
use crate::wayland::protocol::fractional_scale::ScaleFactor;
use crate::wayland::protocol::viewporter::Viewport;

verus! {

/// The identity that the compositor connection gave a surface. It stays the
/// same as long as the surface lives.
pub type SurfaceId = u32;

/// A registered surface as contracts see it.
pub struct Surface {
    /// The surface's identity.
    pub id: SurfaceId,
    /// Its geometry.
    pub geometry: Geometry,
    /// The viewport rectangles last set, if any were.
    pub viewport: Option<Viewport>,
    /// Its presentation engine, once a backend is attached.
    pub backend: Option<Engine>,
}

impl Surface {
    /// What holds of every registered surface: a viewport that was set fits
    /// the geometry, and an engine that is attached is well formed.
    pub open spec fn wf(self) -> bool {
        &&& self.viewport matches Some(viewport) ==> viewport.fits(self.geometry)
        &&& self.backend matches Some(engine) ==> engine.wf()
    }

    /// A surface as it is registered: nothing set, nothing attached.
    pub open spec fn registered(id: SurfaceId, geometry: Geometry) -> Surface {
        Surface { id, geometry, viewport: None, backend: None }
    }

    /// The surface after a change of geometry, and the viewport to set: the
    /// change is applied and the viewport follows the new geometry.
    pub open spec fn changed(self, change: GeometryChange) -> (Surface, Viewport) {
        let geometry = self.geometry.apply(change);
        (Surface { geometry, viewport: Some(Viewport::of(geometry)), ..self }, Viewport::of(geometry))
    }

    /// The surface after a backend built a swapchain of `images` images for it.
    pub open spec fn make_backend(self, images: usize) -> (Surface, Result<(), Error>) {
        if self.backend is Some {
            (self, Err(Error::OutOfOrder))
        } else {
            let (engine, done) = Engine::uninitialized().attach(images, self.geometry);
            match done {
                Ok(_) => (Surface { backend: Some(engine), ..self }, done),
                Err(_) => (self, done),
            }
        }
    }

    /// The start of a call to render on the surface's engine.
    pub open spec fn render(self) -> (Surface, Result<RenderStep, Error>) {
        match self.backend {
            None => (self, Err(Error::NotAttached)),
            Some(engine) => {
                let (engine, geometry, step) = engine.render(self.geometry);
                (Surface { geometry, backend: Some(engine), ..self }, step)
            },
        }
    }

    /// The report of a rebuild to the surface's engine.
    pub open spec fn recreate_swapchain(self, rebuilt: Result<usize, Error>) -> (Surface, Result<
        RenderStep,
        Error,
    >) {
        match self.backend {
            None => (self, Err(Error::NotAttached)),
            Some(engine) => {
                let (engine, step) = engine.recreate_swapchain(rebuilt);
                (Surface { backend: Some(engine), ..self }, step)
            },
        }
    }

    /// The report of an acquisition to the surface's engine.
    pub open spec fn image_acquired(self, acquired: Acquired) -> (Surface, Result<
        RenderStep,
        Error,
    >) {
        match self.backend {
            None => (self, Err(Error::NotAttached)),
            Some(engine) => {
                let (engine, step) = engine.image_acquired(acquired);
                (Surface { backend: Some(engine), ..self }, step)
            },
        }
    }

    /// The report of a frame to the surface's engine.
    pub open spec fn frame_presented(self, presented: Presented) -> (Surface, Result<(), Error>) {
        match self.backend {
            None => (self, Err(Error::NotAttached)),
            Some(engine) => {
                let (engine, done) = engine.frame_presented(presented);
                (Surface { backend: Some(engine), ..self }, done)
            },
        }
    }

    /// The surface once its engine was detached, and the steps that take the
    /// engine's resources down.
    pub open spec fn detach(self) -> (Surface, Seq<Release>) {
        match self.backend {
            None => (self, Seq::empty()),
            Some(engine) => (Surface { backend: Some(engine.detach().0), ..self }, engine.detach().1),
        }
    }
}

/// The record of one registered surface.
#[derive(Debug)]
pub struct SurfaceRecord {
    pub(crate) id: SurfaceId,
    pub(crate) size: Size,
    pub(crate) viewport: Option<Viewport>,
    pub(crate) backend: Option<VulkanSurface>,
}

impl View for SurfaceRecord {
    type V = Surface;

    closed spec fn view(&self) -> Surface {
        Surface {
            id: self.id,
            geometry: self.size@,
            viewport: self.viewport,
            backend: match self.backend {
                Some(engine) => Some(engine@),
                None => None,
            },
        }
    }
}

impl SurfaceRecord {
    /// What holds of every record between two operations.
    pub open spec fn wf(&self) -> bool {
        self@.wf()
    }

    /// The record of a surface that was just created.
    pub fn new(id: SurfaceId, size: Size) -> (record: Self)
        ensures
            record@ == Surface::registered(id, size@),
            record.wf(),
    {
        SurfaceRecord { id, size, viewport: None, backend: None }
    }

    /// Takes a new logical size from the compositor and says what viewport
    /// to set for it.
    pub fn configure(&mut self, new_size: (u32, u32)) -> (viewport: Viewport)
        requires
            old(self).wf(),
        ensures
            (final(self)@, viewport) == old(self)@.changed(GeometryChange::Resize(new_size)),
            final(self).wf(),
    {
        self.size.resize(new_size);
        let viewport = Viewport::for_size(&self.size);
        self.viewport = Some(viewport);
        viewport
    }

    /// Takes a new scale preference from the compositor and says what
    /// viewport to set for it.
    pub fn scale_factor_changed(&mut self, factor: ScaleFactor) -> (viewport: Viewport)
        requires
            old(self).wf(),
        ensures
            (final(self)@, viewport) == old(self)@.changed(GeometryChange::Rescale(factor)),
            final(self).wf(),
    {
        self.size.rescale(factor);
        let viewport = Viewport::for_size(&self.size);
        self.viewport = Some(viewport);
        viewport
    }

    /// Gives the surface its presentation engine, for a swapchain of `images`
    /// images built at the surface's physical size. Fails with
    /// [`Error::OutOfOrder`] where the surface has an engine already and with
    /// [`Error::EmptySwapchain`] where there is no image; the record is then
    /// as it was.
    pub fn make_backend(&mut self, images: usize) -> (done: Result<(), Error>)
        requires
            old(self).wf(),
        ensures
            (final(self)@, done) == old(self)@.make_backend(images),
            final(self).wf(),
    {
        if self.backend.is_some() {
            return Err(Error::OutOfOrder);
        }
        let mut engine = VulkanSurface::new();
        let done = engine.attach(images, &self.size);
        if done.is_ok() {
            self.backend = Some(engine);
        }
        done
    }

    /// Starts a call to render on the surface's engine; see
    /// [`VulkanSurface::render`]. Fails with [`Error::NotAttached`] where the
    /// surface has no engine.
    pub fn render(&mut self) -> (step: Result<RenderStep, Error>)
        requires
            old(self).wf(),
        ensures
            (final(self)@, step) == old(self)@.render(),
            final(self).wf(),
    {
        match self.backend.take() {
            None => Err(Error::NotAttached),
            Some(mut engine) => {
                let step = engine.render(&mut self.size);
                self.backend = Some(engine);
                step
            },
        }
    }

    /// Hands the report of a rebuild to the surface's engine; see
    /// [`VulkanSurface::recreate_swapchain`].
    pub fn recreate_swapchain(&mut self, rebuilt: Result<usize, Error>) -> (step: Result<
        RenderStep,
        Error,
    >)
        requires
            old(self).wf(),
        ensures
            (final(self)@, step) == old(self)@.recreate_swapchain(rebuilt),
            final(self).wf(),
    {
        match self.backend.take() {
            None => Err(Error::NotAttached),
            Some(mut engine) => {
                let step = engine.recreate_swapchain(rebuilt);
                self.backend = Some(engine);
                step
            },
        }
    }

    /// Hands the report of an acquisition to the surface's engine; see
    /// [`VulkanSurface::image_acquired`].
    pub fn image_acquired(&mut self, acquired: Acquired) -> (step: Result<RenderStep, Error>)
        requires
            old(self).wf(),
        ensures
            (final(self)@, step) == old(self)@.image_acquired(acquired),
            final(self).wf(),
    {
        match self.backend.take() {
            None => Err(Error::NotAttached),
            Some(mut engine) => {
                let step = engine.image_acquired(acquired);
                self.backend = Some(engine);
                step
            },
        }
    }

    /// Hands the report of a frame to the surface's engine; see
    /// [`VulkanSurface::frame_presented`].
    pub fn frame_presented(&mut self, presented: Presented) -> (done: Result<(), Error>)
        requires
            old(self).wf(),
        ensures
            (final(self)@, done) == old(self)@.frame_presented(presented),
            final(self).wf(),
    {
        match self.backend.take() {
            None => Err(Error::NotAttached),
            Some(mut engine) => {
                let done = engine.frame_presented(presented);
                self.backend = Some(engine);
                done
            },
        }
    }

    /// Detaches the surface's engine and says how to take its resources
    /// down; see [`VulkanSurface::detach`]. A surface without an engine has
    /// nothing to take down.
    pub fn detach(&mut self) -> (plan: Vec<Release>)
        requires
            old(self).wf(),
        ensures
            (final(self)@, plan@) == old(self)@.detach(),
            final(self).wf(),
    {
        match self.backend.take() {
            None => Vec::new(),
            Some(mut engine) => {
                let plan = engine.detach();
                self.backend = Some(engine);
                plan
            },
        }
    }

    /// The surface's identity.
    pub fn id(&self) -> (id: SurfaceId)
        ensures
            id == self@.id,
    {
        self.id
    }

    /// The surface's geometry.
    pub fn size(&self) -> (size: &Size)
        ensures
            size@ == self@.geometry,
    {
        &self.size
    }

    /// The viewport rectangles last set for the surface, if any were.
    pub fn viewport(&self) -> (viewport: Option<Viewport>)
        ensures
            viewport == self@.viewport,
    {
        self.viewport
    }

    /// The surface's presentation engine, once a backend is attached.
    pub fn backend(&self) -> (backend: Option<&VulkanSurface>)
        ensures
            match backend {
                Some(engine) => self@.backend == Some(engine@),
                None => self@.backend is None,
            },
    {
        self.backend.as_ref()
    }
}

} // verus!
