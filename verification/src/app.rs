//! The client: the registry of surfaces and the routing of input to them.

use std::collections::HashMap;
use vstd::prelude::*;
use vstd::std_specs::iter::IteratorSpec;
use crate::graphics::vulkan::{Acquired, Error, ErrorKind, Presented, Release, RenderStep};
use crate::util::size::{GeometryChange, Size};
use crate::wayland::protocol::fractional_scale::ScaleFactor;
use crate::wayland::protocol::viewporter::Viewport;
use crate::wayland::surface::{Surface, SurfaceId, SurfaceRecord};

verus! {

broadcast use vstd::std_specs::hash::group_hash_axioms;

/// The client as contracts see it.
pub struct Client {
    /// The registered surfaces, by identity.
    pub surfaces: Map<SurfaceId, Surface>,
    /// The surface that key events go to, if any has the focus.
    pub keyboard_focus: Option<SurfaceId>,
    /// The touch points that are down, each with the surface it went down on.
    pub active_touches: Map<i32, SurfaceId>,
    /// The seat's pointer is held.
    pub pointer: bool,
    /// The seat's keyboard is held.
    pub keyboard: bool,
    /// The seat's touch device is held.
    pub touch: bool,
}

impl Client {
    /// What holds of every client between two operations: each surface is
    /// filed under its own identity and is well formed, and what has the focus
    /// or owns a touch point is registered.
    pub open spec fn wf(self) -> bool {
        &&& self.surfaces.dom().finite()
        &&& self.active_touches.dom().finite()
        &&& forall|id: SurfaceId| #[trigger]
            self.surfaces.contains_key(id) ==> self.surfaces[id].id == id && self.surfaces[id].wf()
        &&& self.keyboard_focus matches Some(id) ==> self.surfaces.contains_key(id)
        &&& forall|touch: i32| #[trigger]
            self.active_touches.contains_key(touch) ==> self.surfaces.contains_key(
                self.active_touches[touch],
            )
    }

    /// A client with nothing registered and nothing held.
    pub open spec fn empty() -> Client {
        Client {
            surfaces: Map::empty(),
            keyboard_focus: None,
            active_touches: Map::empty(),
            pointer: false,
            keyboard: false,
            touch: false,
        }
    }

    /// Registering a surface: refused where the identity is taken.
    pub open spec fn register_surface(self, id: SurfaceId, size: Size) -> (Client, Result<
        RegisteredSurface,
        Error,
    >) {
        if self.surfaces.contains_key(id) {
            (self, Err(Error::AlreadyRegistered))
        } else {
            (
                Client { surfaces: self.surfaces.insert(id, Surface::registered(id, size@)), ..self },
                Ok(RegisteredSurface(id)),
            )
        }
    }

    /// The client with one surface replaced.
    pub open spec fn with_surface(self, surface: Surface) -> Client {
        Client { surfaces: self.surfaces.insert(surface.id, surface), ..self }
    }

    /// A change of a surface's geometry: the surface takes it and its
    /// viewport follows.
    pub open spec fn geometry_changed(self, id: SurfaceId, change: GeometryChange) -> (Client, Result<
        Viewport,
        Error,
    >) {
        if self.surfaces.contains_key(id) {
            let (surface, viewport) = self.surfaces[id].changed(change);
            (self.with_surface(surface), Ok(viewport))
        } else {
            (self, Err(Error::UnknownSurface))
        }
    }

    /// Attaching a backend to a registered surface.
    pub open spec fn make_backend(self, id: SurfaceId, images: usize) -> (Client, Result<
        AvySurfaceHandle,
        Error,
    >) {
        if self.surfaces.contains_key(id) {
            let (surface, done) = self.surfaces[id].make_backend(images);
            match done {
                Ok(_) => (self.with_surface(surface), Ok(AvySurfaceHandle { id })),
                Err(e) => (self, Err(e)),
            }
        } else {
            (self, Err(Error::UnknownSurface))
        }
    }

    /// The start of a call to render on a surface.
    pub open spec fn render(self, id: SurfaceId) -> (Client, Result<RenderStep, Error>) {
        if self.surfaces.contains_key(id) {
            let (surface, step) = self.surfaces[id].render();
            (self.with_surface(surface), step)
        } else {
            (self, Err(Error::UnknownSurface))
        }
    }

    /// The report of a rebuild for a surface.
    pub open spec fn recreate_swapchain(self, id: SurfaceId, rebuilt: Result<usize, Error>) -> (
        Client,
        Result<RenderStep, Error>,
    ) {
        if self.surfaces.contains_key(id) {
            let (surface, step) = self.surfaces[id].recreate_swapchain(rebuilt);
            (self.with_surface(surface), step)
        } else {
            (self, Err(Error::UnknownSurface))
        }
    }

    /// The report of an acquisition for a surface.
    pub open spec fn image_acquired(self, id: SurfaceId, acquired: Acquired) -> (Client, Result<
        RenderStep,
        Error,
    >) {
        if self.surfaces.contains_key(id) {
            let (surface, step) = self.surfaces[id].image_acquired(acquired);
            (self.with_surface(surface), step)
        } else {
            (self, Err(Error::UnknownSurface))
        }
    }

    /// The report of a frame for a surface.
    pub open spec fn frame_presented(self, id: SurfaceId, presented: Presented) -> (Client, Result<
        (),
        Error,
    >) {
        if self.surfaces.contains_key(id) {
            let (surface, done) = self.surfaces[id].frame_presented(presented);
            (self.with_surface(surface), done)
        } else {
            (self, Err(Error::UnknownSurface))
        }
    }

    /// The touch points that stay down when a surface goes: all but its own.
    pub open spec fn touches_without(self, id: SurfaceId) -> Map<i32, SurfaceId> {
        Map::new(
            |touch: i32| self.active_touches.contains_key(touch) && self.active_touches[touch] != id,
            |touch: i32| self.active_touches[touch],
        )
    }

    /// Taking a surface out of the registry: its engine is detached, and it
    /// loses the focus and its touch points.
    pub open spec fn unregister(self, id: SurfaceId) -> (Client, Result<Seq<Release>, Error>) {
        if self.surfaces.contains_key(id) {
            (
                Client {
                    surfaces: self.surfaces.remove(id),
                    keyboard_focus: if self.keyboard_focus == Some(id) {
                        None
                    } else {
                        self.keyboard_focus
                    },
                    active_touches: self.touches_without(id),
                    ..self
                },
                Ok(self.surfaces[id].detach().1),
            )
        } else {
            (self, Err(Error::UnknownSurface))
        }
    }

    /// The keyboard enters a surface: the surface has the focus from now on.
    pub open spec fn enter(self, surface: SurfaceId) -> (Client, Result<SurfaceId, Error>) {
        if self.surfaces.contains_key(surface) {
            (Client { keyboard_focus: Some(surface), ..self }, Ok(surface))
        } else {
            (self, Err(Error::UnknownSurface))
        }
    }

    /// The keyboard leaves a surface: the focus is cleared where it was on
    /// that surface, and stays where it was on another.
    pub open spec fn leave(self, surface: SurfaceId) -> (Client, Result<SurfaceId, Error>) {
        if self.surfaces.contains_key(surface) {
            (
                Client {
                    keyboard_focus: if self.keyboard_focus == Some(surface) {
                        None
                    } else {
                        self.keyboard_focus
                    },
                    ..self
                },
                Ok(surface),
            )
        } else {
            (self, Err(Error::UnknownSurface))
        }
    }

    /// A touch point goes down on a surface: the surface owns it from now on.
    pub open spec fn down(self, surface: SurfaceId, touch: i32) -> (Client, Result<SurfaceId, Error>) {
        if self.surfaces.contains_key(surface) {
            (
                Client { active_touches: self.active_touches.insert(touch, surface), ..self },
                Ok(surface),
            )
        } else {
            (self, Err(Error::UnknownSurface))
        }
    }

    /// The surface that owns a touch point.
    pub open spec fn touch_target(self, touch: i32) -> Result<SurfaceId, Error> {
        if self.active_touches.contains_key(touch) {
            Ok(self.active_touches[touch])
        } else {
            Err(Error::UnknownTouch)
        }
    }

    /// A touch point is lifted: its owner hears of it and the point is gone.
    pub open spec fn up(self, touch: i32) -> (Client, Result<SurfaceId, Error>) {
        (
            Client { active_touches: self.active_touches.remove(touch), ..self },
            self.touch_target(touch),
        )
    }

    /// The touch session is cancelled: no touch point is down any more.
    pub open spec fn cancelled(self) -> Client {
        Client { active_touches: Map::empty(), ..self }
    }

    /// The surface that an event of the pointer goes to: the one it names, if
    /// that is registered.
    pub open spec fn pointer_target(self, surface: SurfaceId) -> Option<SurfaceId> {
        if self.surfaces.contains_key(surface) {
            Some(surface)
        } else {
            None
        }
    }

    /// Whether the seat's device of a kind is held.
    pub open spec fn holds(self, capability: Capability) -> bool {
        match capability {
            Capability::Keyboard => self.keyboard,
            Capability::Pointer => self.pointer,
            Capability::Touch => self.touch,
        }
    }

    /// The client with the seat's device of a kind held or not.
    pub open spec fn with_capability(self, capability: Capability, held: bool) -> Client {
        match capability {
            Capability::Keyboard => Client { keyboard: held, ..self },
            Capability::Pointer => Client { pointer: held, ..self },
            Capability::Touch => Client { touch: held, ..self },
        }
    }
}

/// A kind of input device that a seat can have.
#[derive(Clone, Copy, Debug, PartialEq, Eq, Structural)]
pub enum Capability {
    Keyboard,
    Pointer,
    Touch,
}

/// A surface that was registered and waits for its backend.
#[derive(Debug, PartialEq, Eq)]
pub struct RegisteredSurface(pub SurfaceId);

/// A surface with its backend attached: the handle that renders to it.
#[derive(Debug, PartialEq, Eq)]
pub struct AvySurfaceHandle {
    /// The surface's identity.
    pub id: SurfaceId,
}

/// The client's state: which surfaces are registered, which of them has the
/// keyboard, which touch points are down on which, and what of the seat is held.
#[derive(Debug)]
pub struct AvyClient {
    surfaces: HashMap<SurfaceId, SurfaceRecord>,
    keyboard_focus: Option<SurfaceId>,
    active_touches: HashMap<i32, SurfaceId>,
    pointer: bool,
    keyboard: bool,
    touch: bool,
}

impl View for AvyClient {
    type V = Client;

    closed spec fn view(&self) -> Client {
        Client {
            surfaces: self.surfaces@.map_values(|record: SurfaceRecord| record@),
            keyboard_focus: self.keyboard_focus,
            active_touches: self.active_touches@,
            pointer: self.pointer,
            keyboard: self.keyboard,
            touch: self.touch,
        }
    }
}

impl AvyClient {
    /// What holds of every client between two operations.
    pub open spec fn wf(&self) -> bool {
        self@.wf()
    }

    /// A client with nothing registered and nothing held.
    pub fn new() -> (client: Self)
        ensures
            client@ == Client::empty(),
            client.wf(),
    {
        let client = AvyClient {
            surfaces: HashMap::new(),
            keyboard_focus: None,
            active_touches: HashMap::new(),
            pointer: false,
            keyboard: false,
            touch: false,
        };
        assert(client@.surfaces =~= Map::empty());
        client
    }

    /// Registers a surface under the identity the compositor connection gave
    /// it. Fails with [`Error::AlreadyRegistered`] exactly where the identity
    /// is registered already, and then changes nothing.
    ///
    /// The caller commits the surface and completes a round trip to the
    /// compositor before it relies on the surface's geometry.
    pub fn register_surface(&mut self, id: SurfaceId, size: Size) -> (registered: Result<
        RegisteredSurface,
        Error,
    >)
        requires
            old(self).wf(),
        ensures
            (final(self)@, registered) == old(self)@.register_surface(id, size),
            final(self).wf(),
    {
        if self.surfaces.contains_key(&id) {
            return Err(Error::AlreadyRegistered);
        }
        self.surfaces.insert(id, SurfaceRecord::new(id, size));
        assert(self@.surfaces =~= old(self)@.surfaces.insert(id, Surface::registered(id, size@)));
        Ok(RegisteredSurface(id))
    }

    /// Takes a surface's record out of the registry, for it to be changed
    /// and put back.
    fn take_record(&mut self, id: SurfaceId) -> (taken: Option<SurfaceRecord>)
        requires
            old(self).wf(),
        ensures
            match taken {
                Some(record) => {
                    &&& old(self)@.surfaces.contains_key(id)
                    &&& record@ == old(self)@.surfaces[id]
                    &&& record.wf()
                    &&& final(self)@ == (Client {
                        surfaces: old(self)@.surfaces.remove(id),
                        ..old(self)@
                    })
                },
                None => !old(self)@.surfaces.contains_key(id) && final(self)@ == old(self)@,
            },
    {
        let taken = self.surfaces.remove(&id);
        assert(old(self)@.surfaces.contains_key(id) <==> old(self).surfaces@.contains_key(id));
        match taken {
            Some(record) => {
                assert(self@.surfaces =~= old(self)@.surfaces.remove(id));
                Some(record)
            },
            None => {
                assert(self.surfaces@ =~= old(self).surfaces@);
                None
            },
        }
    }

    /// Puts a surface's record back under its identity.
    fn put_record(&mut self, id: SurfaceId, record: SurfaceRecord)
        ensures
            final(self)@ == (Client {
                surfaces: old(self)@.surfaces.insert(id, record@),
                ..old(self)@
            }),
    {
        self.surfaces.insert(id, record);
        assert(self@.surfaces =~= old(self)@.surfaces.insert(id, record@));
    }

    /// Takes a new logical size for a surface from the compositor and says
    /// what viewport to set: the source its new physical size, the
    /// destination its new logical size. Fails with
    /// [`Error::UnknownSurface`] exactly where the surface is not registered.
    pub fn configure(&mut self, id: SurfaceId, new_size: (u32, u32)) -> (viewport: Result<
        Viewport,
        Error,
    >)
        requires
            old(self).wf(),
        ensures
            (final(self)@, viewport) == old(self)@.geometry_changed(
                id,
                GeometryChange::Resize(new_size),
            ),
            final(self).wf(),
    {
        match self.take_record(id) {
            None => Err(Error::UnknownSurface),
            Some(mut record) => {
                let viewport = record.configure(new_size);
                self.put_record(id, record);
                assert(self@.surfaces =~= old(self)@.surfaces.insert(id, record@));
                Ok(viewport)
            },
        }
    }

    /// Takes a new scale preference for a surface from the compositor and
    /// says what viewport to set. Fails with [`Error::UnknownSurface`]
    /// exactly where the surface is not registered.
    pub fn scale_factor_changed(&mut self, id: SurfaceId, factor: ScaleFactor) -> (viewport: Result<
        Viewport,
        Error,
    >)
        requires
            old(self).wf(),
        ensures
            (final(self)@, viewport) == old(self)@.geometry_changed(
                id,
                GeometryChange::Rescale(factor),
            ),
            final(self).wf(),
    {
        match self.take_record(id) {
            None => Err(Error::UnknownSurface),
            Some(mut record) => {
                let viewport = record.scale_factor_changed(factor);
                self.put_record(id, record);
                assert(self@.surfaces =~= old(self)@.surfaces.insert(id, record@));
                Ok(viewport)
            },
        }
    }

    /// Takes a surface out of the registry. Its presentation engine is
    /// detached first, and the steps that take the engine's resources down
    /// come back in order: the wait for the device, each element, the
    /// swapchain; none where the surface had no engine. The surface loses the
    /// keyboard focus and its touch points. Fails with
    /// [`Error::UnknownSurface`] exactly where the surface is not registered.
    pub fn unregister(&mut self, id: SurfaceId) -> (plan: Result<Vec<Release>, Error>)
        requires
            old(self).wf(),
        ensures
            final(self)@ == old(self)@.unregister(id).0,
            match plan {
                Ok(steps) => old(self)@.unregister(id).1 == Ok::<Seq<Release>, Error>(steps@),
                Err(e) => old(self)@.unregister(id).1 == Err::<Seq<Release>, Error>(e),
            },
            final(self).wf(),
    {
        match self.take_record(id) {
            None => Err(Error::UnknownSurface),
            Some(mut record) => {
                let steps = record.detach();
                match self.keyboard_focus {
                    Some(focus) => {
                        if focus == id {
                            self.keyboard_focus = None;
                        }
                    },
                    None => {},
                }
                forget_touches(&mut self.active_touches, id);
                assert(self@.active_touches =~= old(self)@.touches_without(id));
                Ok(steps)
            },
        }
    }

    /// The compositor closed a surface: the surface is taken out of the
    /// registry, as by [`AvyClient::unregister`].
    pub fn closed(&mut self, id: SurfaceId) -> (plan: Result<Vec<Release>, Error>)
        requires
            old(self).wf(),
        ensures
            final(self)@ == old(self)@.unregister(id).0,
            match plan {
                Ok(steps) => old(self)@.unregister(id).1 == Ok::<Seq<Release>, Error>(steps@),
                Err(e) => old(self)@.unregister(id).1 == Err::<Seq<Release>, Error>(e),
            },
            final(self).wf(),
    {
        self.unregister(id)
    }

    /// The seat gained a device. Says whether the device is to be taken: a
    /// pointer or a keyboard where none is held, a touch device always. The
    /// device then counts as held.
    pub fn new_capability(&mut self, capability: Capability) -> (take: bool)
        requires
            old(self).wf(),
        ensures
            take == (capability is Touch || !old(self)@.holds(capability)),
            final(self)@ == old(self)@.with_capability(capability, true),
            final(self).wf(),
    {
        match capability {
            Capability::Pointer => {
                let take = !self.pointer;
                self.pointer = true;
                take
            },
            Capability::Keyboard => {
                let take = !self.keyboard;
                self.keyboard = true;
                take
            },
            Capability::Touch => {
                self.touch = true;
                true
            },
        }
    }

    /// The seat lost a device: it is no longer held.
    pub fn remove_capability(&mut self, capability: Capability)
        requires
            old(self).wf(),
        ensures
            final(self)@ == old(self)@.with_capability(capability, false),
            final(self).wf(),
    {
        match capability {
            Capability::Keyboard => {
                self.keyboard = false;
            },
            Capability::Pointer => {
                self.pointer = false;
            },
            Capability::Touch => {
                self.touch = false;
            },
        }
    }

    /// The seat is gone: its keyboard and its pointer are no longer held.
    pub fn remove_seat(&mut self)
        requires
            old(self).wf(),
        ensures
            final(self)@ == (Client { keyboard: false, pointer: false, ..old(self)@ }),
            final(self).wf(),
    {
        self.keyboard = false;
        self.pointer = false;
    }

    /// Routes the events of one pointer frame: each goes to the surface it
    /// names, and is dropped where that surface is not registered.
    pub fn pointer_frame(&self, events: &Vec<SurfaceId>) -> (targets: Vec<Option<SurfaceId>>)
        ensures
            targets@.len() == events@.len(),
            forall|i: int|
                0 <= i < events@.len() ==> #[trigger] targets@[i] == self@.pointer_target(
                    events@[i],
                ),
    {
        let mut targets: Vec<Option<SurfaceId>> = Vec::new();
        let mut i: usize = 0;
        while i < events.len()
            invariant
                i <= events@.len(),
                targets@.len() == i,
                forall|j: int|
                    0 <= j < i ==> #[trigger] targets@[j] == self@.pointer_target(events@[j]),
            decreases events@.len() - i,
        {
            let surface = events[i];
            if self.surfaces.contains_key(&surface) {
                targets.push(Some(surface));
            } else {
                targets.push(None);
            }
            i += 1;
        }
        targets
    }

    /// The keyboard entered a surface. The surface has the focus from now
    /// on and is the one to hear of the event. Fails with
    /// [`Error::UnknownSurface`] exactly where the surface is not registered,
    /// and the focus then stays where it was.
    pub fn enter(&mut self, surface: SurfaceId) -> (target: Result<SurfaceId, Error>)
        requires
            old(self).wf(),
        ensures
            (final(self)@, target) == old(self)@.enter(surface),
            final(self).wf(),
    {
        if self.surfaces.contains_key(&surface) {
            self.keyboard_focus = Some(surface);
            Ok(surface)
        } else {
            Err(Error::UnknownSurface)
        }
    }

    /// The keyboard left a surface. The surface is the one to hear of the
    /// event; the focus is cleared where it was on that surface and stays
    /// where it was on another. Fails with [`Error::UnknownSurface`] exactly
    /// where the surface is not registered.
    pub fn leave(&mut self, surface: SurfaceId) -> (target: Result<SurfaceId, Error>)
        requires
            old(self).wf(),
        ensures
            (final(self)@, target) == old(self)@.leave(surface),
            final(self).wf(),
    {
        if self.surfaces.contains_key(&surface) {
            match self.keyboard_focus {
                Some(focus) => {
                    if focus == surface {
                        self.keyboard_focus = None;
                    }
                },
                None => {},
            }
            Ok(surface)
        } else {
            Err(Error::UnknownSurface)
        }
    }

    /// The surface that has the keyboard focus, if any has.
    pub fn keyboard_focus(&self) -> (focus: Option<SurfaceId>)
        ensures
            focus == self@.keyboard_focus,
    {
        self.keyboard_focus
    }

    /// A key was pressed: the surface with the focus hears of it, and
    /// nobody where no surface has the focus.
    pub fn press_key(&self) -> (target: Option<SurfaceId>)
        ensures
            target == self@.keyboard_focus,
    {
        self.keyboard_focus
    }

    /// A key was released: the surface with the focus hears of it, and
    /// nobody where no surface has the focus.
    pub fn release_key(&self) -> (target: Option<SurfaceId>)
        ensures
            target == self@.keyboard_focus,
    {
        self.keyboard_focus
    }

    /// The modifiers changed: the surface with the focus hears of it, and
    /// nobody where no surface has the focus.
    pub fn update_modifiers(&self) -> (target: Option<SurfaceId>)
        ensures
            target == self@.keyboard_focus,
    {
        self.keyboard_focus
    }

    /// A touch point went down on a surface. The surface hears of it and
    /// owns the point until it is lifted. Fails with
    /// [`Error::UnknownSurface`] exactly where the surface is not registered,
    /// and the point is then not taken down.
    pub fn down(&mut self, surface: SurfaceId, id: i32) -> (target: Result<SurfaceId, Error>)
        requires
            old(self).wf(),
        ensures
            (final(self)@, target) == old(self)@.down(surface, id),
            final(self).wf(),
    {
        if self.surfaces.contains_key(&surface) {
            self.active_touches.insert(id, surface);
            Ok(surface)
        } else {
            Err(Error::UnknownSurface)
        }
    }

    /// The owner of a touch point.
    fn owner_of(&self, id: i32) -> (target: Result<SurfaceId, Error>)
        ensures
            target == self@.touch_target(id),
    {
        match self.active_touches.get(&id) {
            Some(surface) => Ok(*surface),
            None => Err(Error::UnknownTouch),
        }
    }

    /// A touch point was lifted. Its owner hears of it, and the point is
    /// gone; no other point is. Fails with [`Error::UnknownTouch`] exactly
    /// where the point is not down.
    pub fn up(&mut self, id: i32) -> (target: Result<SurfaceId, Error>)
        requires
            old(self).wf(),
        ensures
            (final(self)@, target) == old(self)@.up(id),
            final(self).wf(),
    {
        match self.active_touches.remove(&id) {
            Some(surface) => Ok(surface),
            None => {
                assert(self@.active_touches =~= old(self)@.active_touches.remove(id));
                Err(Error::UnknownTouch)
            },
        }
    }

    /// A touch point moved: its owner hears of it. Fails with
    /// [`Error::UnknownTouch`] exactly where the point is not down.
    pub fn motion(&self, id: i32) -> (target: Result<SurfaceId, Error>)
        ensures
            target == self@.touch_target(id),
    {
        self.owner_of(id)
    }

    /// A touch point changed its shape: its owner hears of it. Fails with
    /// [`Error::UnknownTouch`] exactly where the point is not down.
    pub fn shape(&self, id: i32) -> (target: Result<SurfaceId, Error>)
        ensures
            target == self@.touch_target(id),
    {
        self.owner_of(id)
    }

    /// A touch point changed its orientation: its owner hears of it. Fails
    /// with [`Error::UnknownTouch`] exactly where the point is not down.
    pub fn orientation(&self, id: i32) -> (target: Result<SurfaceId, Error>)
        ensures
            target == self@.touch_target(id),
    {
        self.owner_of(id)
    }

    /// The touch session was cancelled. Every surface that owns a touch
    /// point hears of it, each once, and no touch point is down any more.
    pub fn cancel(&mut self) -> (targets: Vec<SurfaceId>)
        requires
            old(self).wf(),
        ensures
            final(self)@ == old(self)@.cancelled(),
            targets@.no_duplicates(),
            forall|surface: SurfaceId|
                targets@.contains(surface) <==> old(self)@.active_touches.values().contains(surface),
            final(self).wf(),
    {
        let targets = touch_owners(&self.active_touches);
        self.active_touches.clear();
        targets
    }

    /// The record of a registered surface; `None` where the identity is not
    /// registered.
    pub fn lookup(&self, id: SurfaceId) -> (found: Option<&SurfaceRecord>)
        ensures
            match found {
                Some(record) => self@.surfaces.contains_key(id) && self@.surfaces[id] == record@,
                None => !self@.surfaces.contains_key(id),
            },
    {
        self.surfaces.get(&id)
    }
}

/// The touch points that are down, each with its owner, in no particular
/// order.
fn touch_entries(touches: &HashMap<i32, SurfaceId>) -> (entries: Vec<(i32, SurfaceId)>)
    ensures
        forall|i: int|
            0 <= i < entries@.len() ==> touches@.contains_key((#[trigger] entries@[i]).0)
                && touches@[entries@[i].0] == entries@[i].1,
        forall|touch: i32| #[trigger]
            touches@.contains_key(touch) ==> entries@.contains((touch, touches@[touch])),
{
    let mut entries: Vec<(i32, SurfaceId)> = Vec::new();
    let ghost all = touches.iter().remaining();
    for pair in it: touches.iter()
        invariant
            it.seq() == all,
            entries@.len() == it.index(),
            forall|i: int| 0 <= i < entries@.len() ==> entries@[i] == (*all[i].0, *all[i].1),
    {
        entries.push((*pair.0, *pair.1));
    }
    proof {
        assert forall|touch: i32| #[trigger] touches@.contains_key(touch) implies entries@.contains(
            (touch, touches@[touch]),
        ) by {
            assert(all.contains((&touch, &touches@[touch])));
            let i = choose|i: int| 0 <= i < all.len() && all[i] == (&touch, &touches@[touch]);
            assert(entries@[i] == (touch, touches@[touch]));
        }
    }
    entries
}

/// Lifts every touch point that a surface owns.
fn forget_touches(touches: &mut HashMap<i32, SurfaceId>, id: SurfaceId)
    ensures
        final(touches)@ == Map::new(
            |touch: i32| old(touches)@.contains_key(touch) && old(touches)@[touch] != id,
            |touch: i32| old(touches)@[touch],
        ),
{
    let entries = touch_entries(touches);
    let ghost before = touches@;
    let mut i: usize = 0;
    while i < entries.len()
        invariant
            i <= entries@.len(),
            forall|j: int|
                0 <= j < entries@.len() ==> before.contains_key((#[trigger] entries@[j]).0)
                    && before[entries@[j].0] == entries@[j].1,
            forall|touch: i32| #[trigger]
                before.contains_key(touch) ==> entries@.contains((touch, before[touch])),
            forall|touch: i32| #[trigger]
                touches@.contains_key(touch) ==> before.contains_key(touch) && touches@[touch]
                    == before[touch],
            forall|touch: i32|
                before.contains_key(touch) && before[touch] != id ==> #[trigger] touches@.contains_key(
                    touch,
                ),
            forall|j: int|
                0 <= j < i && (#[trigger] entries@[j]).1 == id ==> !touches@.contains_key(
                    entries@[j].0,
                ),
        decreases entries@.len() - i,
    {
        let (touch, owner) = entries[i];
        if owner == id {
            touches.remove(&touch);
        }
        i += 1;
    }
    proof {
        let after = Map::new(
            |touch: i32| before.contains_key(touch) && before[touch] != id,
            |touch: i32| before[touch],
        );
        assert forall|touch: i32| touches@.contains_key(touch) implies before[touch] != id by {
            if before[touch] == id {
                let j = choose|j: int|
                    0 <= j < entries@.len() && entries@[j] == (touch, before[touch]);
                assert(entries@[j].1 == id);
            }
        }
        assert(touches@ =~= after);
    }
}

fn holds_surface(list: &Vec<SurfaceId>, id: SurfaceId) -> (found: bool)
    ensures
        found == list@.contains(id),
{
    let mut i: usize = 0;
    while i < list.len()
        invariant
            i <= list@.len(),
            forall|j: int| 0 <= j < i ==> list@[j] != id,
        decreases list@.len() - i,
    {
        if list[i] == id {
            return true;
        }
        i += 1;
    }
    false
}

/// The surfaces that own a touch point, each once.
fn touch_owners(touches: &HashMap<i32, SurfaceId>) -> (owners: Vec<SurfaceId>)
    ensures
        owners@.no_duplicates(),
        forall|id: SurfaceId| owners@.contains(id) <==> touches@.values().contains(id),
{
    let entries = touch_entries(touches);
    let mut owners: Vec<SurfaceId> = Vec::new();
    let mut i: usize = 0;
    while i < entries.len()
        invariant
            i <= entries@.len(),
            owners@.no_duplicates(),
            forall|id: SurfaceId|
                owners@.contains(id) <==> exists|j: int|
                    0 <= j < i && (#[trigger] entries@[j]).1 == id,
        decreases entries@.len() - i,
    {
        let owner = entries[i].1;
        let ghost earlier = owners@;
        if !holds_surface(&owners, owner) {
            owners.push(owner);
            assert forall|id: SurfaceId| owners@.contains(id) implies exists|j: int|
                0 <= j < i + 1 && (#[trigger] entries@[j]).1 == id by {
                let k = choose|k: int| 0 <= k < owners@.len() && owners@[k] == id;
                if k < earlier.len() {
                    assert(earlier[k] == id);
                    assert(earlier.contains(id));
                } else {
                    assert(entries@[i as int].1 == id);
                }
            }
            assert forall|id: SurfaceId|
                (exists|j: int|
                    0 <= j < i + 1 && (#[trigger] entries@[j]).1 == id) implies owners@.contains(
                id,
            ) by {
                let j = choose|j: int| 0 <= j < i + 1 && (#[trigger] entries@[j]).1 == id;
                if j < i {
                    assert(earlier.contains(id));
                    let k = choose|k: int| 0 <= k < earlier.len() && earlier[k] == id;
                    assert(owners@[k] == id);
                } else {
                    assert(owners@[earlier.len() as int] == id);
                }
            }
        } else {
            assert forall|id: SurfaceId|
                (exists|j: int|
                    0 <= j < i + 1 && (#[trigger] entries@[j]).1 == id) implies owners@.contains(
                id,
            ) by {
                let j = choose|j: int| 0 <= j < i + 1 && (#[trigger] entries@[j]).1 == id;
                if j == i {
                    assert(id == owner);
                }
            }
        }
        i += 1;
    }
    proof {
        assert forall|id: SurfaceId| owners@.contains(id) <==> touches@.values().contains(id) by {
            if owners@.contains(id) {
                let j = choose|j: int| 0 <= j < entries@.len() && (#[trigger] entries@[j]).1 == id;
                assert(touches@.contains_key(entries@[j].0));
            }
            if touches@.values().contains(id) {
                let touch = choose|touch: i32|
                    touches@.contains_key(touch) && touches@[touch] == id;
                assert(entries@.contains((touch, touches@[touch])));
                let j = choose|j: int| 0 <= j < entries@.len() && entries@[j] == (touch, id);
                assert(entries@[j].1 == id);
            }
        }
    }
    owners
}

impl RegisteredSurface {
    /// Attaches a backend to the surface: the presentation engine takes up
    /// the swapchain of `images` images that was built at the surface's
    /// physical size. Fails with [`Error::UnknownSurface`] where the surface
    /// is no longer registered, with [`Error::OutOfOrder`] where it has a
    /// backend already, and with [`Error::EmptySwapchain`] where there is no
    /// image; the client is then as it was.
    pub fn make_backend(self, client: &mut AvyClient, images: usize) -> (handle: Result<
        AvySurfaceHandle,
        Error,
    >)
        requires
            old(client).wf(),
        ensures
            (final(client)@, handle) == old(client)@.make_backend(self.0, images),
            final(client).wf(),
    {
        let id = self.0;
        match client.take_record(id) {
            None => Err(Error::UnknownSurface),
            Some(mut record) => {
                let done = record.make_backend(images);
                client.put_record(id, record);
                assert(client@.surfaces =~= old(client)@.surfaces.insert(id, record@));
                match done {
                    Ok(_) => Ok(AvySurfaceHandle { id }),
                    Err(e) => {
                        assert(client@.surfaces =~= old(client)@.surfaces);
                        Err(e)
                    },
                }
            },
        }
    }
}

impl AvySurfaceHandle {
    /// Starts a call to render on the surface; see
    /// [`crate::graphics::vulkan::VulkanSurface::render`]. Fails with
    /// [`Error::UnknownSurface`] where the surface is no longer registered.
    pub fn render(&self, client: &mut AvyClient) -> (step: Result<RenderStep, Error>)
        requires
            old(client).wf(),
        ensures
            (final(client)@, step) == old(client)@.render(self.id),
            final(client).wf(),
    {
        match client.take_record(self.id) {
            None => Err(Error::UnknownSurface),
            Some(mut record) => {
                let step = record.render();
                client.put_record(self.id, record);
                assert(client@.surfaces =~= old(client)@.surfaces.insert(self.id, record@));
                step
            },
        }
    }

    /// Hands on the report of the rebuild that the call asked for.
    pub fn recreate_swapchain(&self, client: &mut AvyClient, rebuilt: Result<usize, Error>) -> (step:
        Result<RenderStep, Error>)
        requires
            old(client).wf(),
        ensures
            (final(client)@, step) == old(client)@.recreate_swapchain(self.id, rebuilt),
            final(client).wf(),
    {
        match client.take_record(self.id) {
            None => Err(Error::UnknownSurface),
            Some(mut record) => {
                let step = record.recreate_swapchain(rebuilt);
                client.put_record(self.id, record);
                assert(client@.surfaces =~= old(client)@.surfaces.insert(self.id, record@));
                step
            },
        }
    }

    /// Hands on the report of the acquisition that the call asked for.
    pub fn image_acquired(&self, client: &mut AvyClient, acquired: Acquired) -> (step: Result<
        RenderStep,
        Error,
    >)
        requires
            old(client).wf(),
        ensures
            (final(client)@, step) == old(client)@.image_acquired(self.id, acquired),
            final(client).wf(),
    {
        match client.take_record(self.id) {
            None => Err(Error::UnknownSurface),
            Some(mut record) => {
                let step = record.image_acquired(acquired);
                client.put_record(self.id, record);
                assert(client@.surfaces =~= old(client)@.surfaces.insert(self.id, record@));
                step
            },
        }
    }

    /// Hands on the report of the frame that the call asked for.
    pub fn frame_presented(&self, client: &mut AvyClient, presented: Presented) -> (done: Result<
        (),
        Error,
    >)
        requires
            old(client).wf(),
        ensures
            (final(client)@, done) == old(client)@.frame_presented(self.id, presented),
            final(client).wf(),
    {
        match client.take_record(self.id) {
            None => Err(Error::UnknownSurface),
            Some(mut record) => {
                let done = record.frame_presented(presented);
                client.put_record(self.id, record);
                assert(client@.surfaces =~= old(client)@.surfaces.insert(self.id, record@));
                done
            },
        }
    }
}

/// A surface identity is registered once: whatever came of registering it,
/// registering it again fails with a contract violation and changes nothing.
pub proof fn lemma_second_registration_fails(
    client: Client,
    id: SurfaceId,
    first: Size,
    second: Size,
)
    ensures
        ({
            let (once, _) = client.register_surface(id, first);
            let (twice, refused) = once.register_surface(id, second);
            &&& refused == Err::<RegisteredSurface, Error>(Error::AlreadyRegistered)
            &&& Error::AlreadyRegistered.kind() == ErrorKind::ContractViolation
            &&& twice == once
        }),
{
}

/// A touch point belongs to the surface it went down on, whatever happens
/// to other touch points: it is routed there after it went down, a point of
/// another number that goes down or is lifted does not change where it is
/// routed, and lifting it takes away this point and no other.
pub proof fn lemma_touch_routing(client: Client, surface: SurfaceId, touch: i32, other: i32)
    requires
        client.surfaces.contains_key(surface),
        other != touch,
    ensures
        client.down(surface, touch).0.touch_target(touch) == Ok::<SurfaceId, Error>(surface),
        forall|elsewhere: SurfaceId|
            client.down(elsewhere, other).0.touch_target(touch) == client.touch_target(touch),
        client.up(other).0.touch_target(touch) == client.touch_target(touch),
        client.up(touch).0.touch_target(touch) == Err::<SurfaceId, Error>(Error::UnknownTouch),
        client.up(touch).0.touch_target(other) == client.touch_target(other),
{
}

/// Once the keyboard has left the surface that had the focus, no surface
/// has it: key events are dropped until the keyboard enters a surface again.
pub proof fn lemma_keys_dropped_after_leave(client: Client, surface: SurfaceId)
    requires
        client.wf(),
        client.keyboard_focus == Some(surface),
    ensures
        client.leave(surface).0.keyboard_focus is None,
        client.leave(surface).1 == Ok::<SurfaceId, Error>(surface),
{
}

/// After the keyboard has left a surface, that surface does not have the
/// focus, whichever surface had it before.
pub proof fn lemma_left_surface_has_no_focus(client: Client, surface: SurfaceId)
    requires
        client.wf(),
    ensures
        client.leave(surface).0.keyboard_focus != Some(surface),
{
}

} // verus!
