//! Layer surfaces: surfaces that the compositor anchors to the edges of an
//! output, such as panels and docks.

use vstd::prelude::*;
use crate::app::{AvyClient, RegisteredSurface};
use crate::graphics::vulkan::Error;
use crate::util::size::Size;
use crate::wayland::surface::SurfaceId;

verus! {

/// How far from the viewer a layer lies.
#[derive(Clone, Copy, Debug, PartialEq, Eq, Structural)]
pub enum Layer {
    Background,
    Bottom,
    Top,
    Overlay,
}

/// How a layer surface takes part in keyboard focus.
#[derive(Clone, Copy, Debug, PartialEq, Eq, Structural)]
pub enum KeyboardInteractivity {
    /// The surface never has the keyboard.
    Never,
    /// The surface has the keyboard to itself.
    Exclusive,
    /// The compositor gives and takes the keyboard as it does for windows.
    OnDemand,
}

/// The bit of the top edge in an anchor.
pub const ANCHOR_TOP: u32 = 1;

/// The bit of the bottom edge in an anchor.
pub const ANCHOR_BOTTOM: u32 = 2;

/// The bit of the left edge in an anchor.
pub const ANCHOR_LEFT: u32 = 4;

/// The bit of the right edge in an anchor.
pub const ANCHOR_RIGHT: u32 = 8;

/// What a layer surface is built with.
#[derive(Clone, Copy, Debug)]
pub struct AvyLayerParams {
    /// The layer the surface lies in.
    pub layer: Layer,
    /// The edges the surface is anchored to, as a set of anchor bits.
    pub anchor: u32,
    /// The surface's geometry to begin with.
    pub size: Size,
    /// The distance to keep from the top, right, bottom and left edge, if
    /// any is to be kept.
    pub margin: Option<(i32, i32, i32, i32)>,
    /// How the surface takes part in keyboard focus.
    pub keyboard_interactivity: KeyboardInteractivity,
}

/// One request to the compositor while a layer surface is set up.
#[derive(Clone, Copy, Debug, PartialEq, Eq)]
pub enum LayerRequest {
    /// Anchor the surface to these edges.
    SetAnchor(u32),
    /// Ask for this logical size.
    SetSize { width: u32, height: u32 },
    /// Take part in keyboard focus in this way.
    SetKeyboardInteractivity(KeyboardInteractivity),
    /// Keep these distances from the edges.
    SetMargin { top: i32, right: i32, bottom: i32, left: i32 },
    /// Ask to be told the surface's fractional scale.
    FractionalScale,
    /// Make a viewport for the surface.
    Viewport,
    /// Commit the surface.
    Commit,
    /// Wait until the compositor has answered everything sent so far.
    Roundtrip,
}

/// The requests that set up a layer surface, in the order they are sent.
pub open spec fn layer_requests(params: AvyLayerParams) -> Seq<LayerRequest> {
    seq![
        LayerRequest::SetAnchor(params.anchor),
        LayerRequest::SetSize { width: params.size@.logical.0, height: params.size@.logical.1 },
        LayerRequest::SetKeyboardInteractivity(params.keyboard_interactivity),
    ] + match params.margin {
        Some((top, right, bottom, left)) => seq![
            LayerRequest::SetMargin { top, right, bottom, left },
        ],
        None => Seq::empty(),
    } + seq![
        LayerRequest::FractionalScale,
        LayerRequest::Viewport,
        LayerRequest::Commit,
        LayerRequest::Roundtrip,
    ]
}

/// A layer surface that is registered with the client.
#[derive(Debug)]
pub struct AvyLayer {
    /// The registration, which takes the backend.
    pub surface: RegisteredSurface,
    /// The layer the surface lies in.
    pub layer: Layer,
    /// The requests that set the surface up, in the order to send them. The
    /// surface's geometry is to be relied on only once the last is done.
    pub requests: Vec<LayerRequest>,
}

impl AvyLayer {
    /// Registers the surface that was created for a layer and says what to
    /// ask of the compositor to set it up: anchor, size and keyboard
    /// interactivity, the margin where there is one, fractional scaling and a
    /// viewport, and at the end a commit and a round trip. Fails with
    /// [`Error::AlreadyRegistered`] exactly where the identity is registered
    /// already, and then changes nothing.
    pub fn build(app: &mut AvyClient, id: SurfaceId, params: AvyLayerParams) -> (built: Result<
        AvyLayer,
        Error,
    >)
        requires
            old(app).wf(),
        ensures
            final(app)@ == old(app)@.register_surface(id, params.size).0,
            match built {
                Ok(layer) => {
                    &&& old(app)@.register_surface(id, params.size).1 == Ok::<
                        RegisteredSurface,
                        Error,
                    >(layer.surface)
                    &&& layer.layer == params.layer
                    &&& layer.requests@ == layer_requests(params)
                },
                Err(e) => old(app)@.register_surface(id, params.size).1 == Err::<
                    RegisteredSurface,
                    Error,
                >(e),
            },
            final(app).wf(),
    {
        let surface = match app.register_surface(id, params.size) {
            Ok(surface) => surface,
            Err(e) => {
                return Err(e);
            },
        };
        let (width, height) = params.size.logical_size();
        let mut requests: Vec<LayerRequest> = Vec::new();
        requests.push(LayerRequest::SetAnchor(params.anchor));
        requests.push(LayerRequest::SetSize { width, height });
        requests.push(LayerRequest::SetKeyboardInteractivity(params.keyboard_interactivity));
        match params.margin {
            Some((top, right, bottom, left)) => {
                requests.push(LayerRequest::SetMargin { top, right, bottom, left });
            },
            None => {},
        }
        requests.push(LayerRequest::FractionalScale);
        requests.push(LayerRequest::Viewport);
        requests.push(LayerRequest::Commit);
        requests.push(LayerRequest::Roundtrip);
        assert(requests@ =~= layer_requests(params));
        Ok(AvyLayer { surface, layer: params.layer, requests })
    }
}

} // verus!
