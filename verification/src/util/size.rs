//! The geometry of one surface: logical size, scale, and a change flag.

use vstd::prelude::*;
use crate::wayland::protocol::fractional_scale::{scaled, ScaleFactor};

verus! {

/// What a [`Size`] holds, as contracts see it.
pub struct Geometry {
    /// Width and height in logical units.
    pub logical: (u32, u32),
    /// The compositor's scale preference, once it has announced one.
    pub scale: Option<ScaleFactor>,
    /// Whether the geometry changed since it was last consumed.
    pub dirty: bool,
}

/// One change of geometry, as the compositor announces it.
pub enum GeometryChange {
    /// A new logical size.
    Resize((u32, u32)),
    /// A new scale preference.
    Rescale(ScaleFactor),
}

/// The physical length of a logical length under an optional scale.
pub open spec fn physical_dim(dim: u32, scale: Option<ScaleFactor>) -> int {
    match scale {
        Some(factor) => scaled(dim as int, factor.0 as int),
        None => dim as int,
    }
}

impl Geometry {
    /// Width and height in physical pixels.
    pub open spec fn physical(self) -> (int, int) {
        (physical_dim(self.logical.0, self.scale), physical_dim(self.logical.1, self.scale))
    }

    /// The geometry after one change: the value is replaced and the flag set.
    pub open spec fn apply(self, change: GeometryChange) -> Geometry {
        match change {
            GeometryChange::Resize(logical) => Geometry { logical, dirty: true, ..self },
            GeometryChange::Rescale(factor) => Geometry { scale: Some(factor), dirty: true, ..self },
        }
    }

    /// The geometry after a run of changes, applied first to last.
    pub open spec fn apply_all(self, changes: Seq<GeometryChange>) -> Geometry
        decreases changes.len(),
    {
        if changes.len() == 0 {
            self
        } else {
            self.apply_all(changes.drop_last()).apply(changes.last())
        }
    }

    /// The geometry once its changes have been consumed.
    pub open spec fn consumed(self) -> Geometry {
        Geometry { dirty: false, ..self }
    }
}

/// The logical size that stands after a run of changes: that of the last
/// resize among them, or the one before the run where it holds none.
pub open spec fn last_logical(before: (u32, u32), changes: Seq<GeometryChange>) -> (u32, u32)
    decreases changes.len(),
{
    if changes.len() == 0 {
        before
    } else {
        match changes.last() {
            GeometryChange::Resize(logical) => logical,
            GeometryChange::Rescale(_) => last_logical(before, changes.drop_last()),
        }
    }
}

/// The scale that stands after a run of changes: that of the last rescale
/// among them, or the one before the run where it holds none.
pub open spec fn last_scale(before: Option<ScaleFactor>, changes: Seq<GeometryChange>) -> Option<
    ScaleFactor,
>
    decreases changes.len(),
{
    if changes.len() == 0 {
        before
    } else {
        match changes.last() {
            GeometryChange::Rescale(factor) => Some(factor),
            GeometryChange::Resize(_) => last_scale(before, changes.drop_last()),
        }
    }
}

/// The geometry of a surface.
#[derive(Clone, Copy, Debug)]
pub struct Size {
    logical: (u32, u32),
    scale_factor: Option<ScaleFactor>,
    has_changed: bool,
}

impl View for Size {
    type V = Geometry;

    closed spec fn view(&self) -> Geometry {
        Geometry { logical: self.logical, scale: self.scale_factor, dirty: self.has_changed }
    }
}

impl Size {
    /// A geometry of the given logical size, unscaled and with nothing to consume.
    pub fn new(logical_size: (u32, u32)) -> (size: Self)
        ensures
            size@ == (Geometry { logical: logical_size, scale: None, dirty: false }),
    {
        Self { logical: logical_size, scale_factor: None, has_changed: false }
    }

    /// Width and height in logical units.
    pub fn logical_size(&self) -> (logical: (u32, u32))
        ensures
            logical == self@.logical,
    {
        self.logical
    }

    /// The scale preference, if the compositor has announced one.
    pub fn scale_factor(&self) -> (scale: Option<ScaleFactor>)
        ensures
            scale == self@.scale,
    {
        self.scale_factor
    }

    /// Whether a change is waiting to be consumed.
    pub fn has_changed(&self) -> (dirty: bool)
        ensures
            dirty == self@.dirty,
    {
        self.has_changed
    }

    /// Width and height in physical pixels: the logical size times the scale,
    /// each rounded to the nearest pixel, or the logical size itself while no
    /// scale is set.
    pub fn physical_size(&self) -> (physical: (u64, u64))
        ensures
            (physical.0 as int, physical.1 as int) == self@.physical(),
    {
        let (width, height) = self.logical;
        match self.scale_factor {
            Some(scale) => (scale.scale(width), scale.scale(height)),
            None => (width as u64, height as u64),
        }
    }

    /// Replaces the logical size and marks the geometry as changed, whether
    /// or not the size differs from the one before.
    pub fn resize(&mut self, logical_size: (u32, u32))
        ensures
            final(self)@ == old(self)@.apply(GeometryChange::Resize(logical_size)),
    {
        self.logical = logical_size;
        self.has_changed = true;
    }

    /// Replaces the scale and marks the geometry as changed.
    pub fn rescale(&mut self, scale: ScaleFactor)
        ensures
            final(self)@ == old(self)@.apply(GeometryChange::Rescale(scale)),
    {
        self.scale_factor = Some(scale);
        self.has_changed = true;
    }

    /// Hands the geometry to `handler` if it changed since the last call, and
    /// clears the flag. The handler runs at most once, on the geometry as it
    /// stands, and only where there is a change to consume; its result comes
    /// back as `Some`.
    pub fn handle_changes<R, F: FnOnce(&Size) -> R>(&mut self, handler: F) -> (seen: Option<R>)
        requires
            old(self)@.dirty ==> call_requires(handler, (&*old(self),)),
        ensures
            final(self)@ == old(self)@.consumed(),
            seen is Some <==> old(self)@.dirty,
            seen matches Some(r) ==> call_ensures(handler, (&*old(self),), r),
    {
        if self.has_changed {
            let seen = handler(&*self);
            self.has_changed = false;
            Some(seen)
        } else {
            None
        }
    }
}

/// Applying a run of changes leaves the last-announced values standing, and
/// leaves the flag set where the run holds at least one change.
pub proof fn lemma_apply_all_keeps_last(before: Geometry, changes: Seq<GeometryChange>)
    ensures
        before.apply_all(changes).logical == last_logical(before.logical, changes),
        before.apply_all(changes).scale == last_scale(before.scale, changes),
        before.apply_all(changes).dirty == (before.dirty || changes.len() > 0),
    decreases changes.len(),
{
    if changes.len() > 0 {
        lemma_apply_all_keeps_last(before, changes.drop_last());
    }
}

} // verus!
