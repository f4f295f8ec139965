use avy_render::app::{AvyClient, AvySurfaceHandle, Capability, RegisteredSurface};
use avy_render::graphics::vulkan::{Acquired, Error, ErrorKind, Phase, Presented, Release, RenderStep};
use avy_render::util::size::Size;
use avy_render::wayland::protocol::fractional_scale::ScaleFactor;
use avy_render::wayland::protocol::viewporter::Viewport;
use avy_render::wayland::surface::layer::{
    AvyLayer, AvyLayerParams, KeyboardInteractivity, Layer, LayerRequest, ANCHOR_BOTTOM,
    ANCHOR_LEFT, ANCHOR_RIGHT, ANCHOR_TOP,
};
use avy_render::{ENGINE_NAME, ENGINE_VERSION, MAX_VK_API_VERSION};

const A: u32 = 11;
const B: u32 = 22;
const C: u32 = 33;

fn client_with(ids: &[u32]) -> AvyClient {
    let mut client = AvyClient::new();
    for id in ids {
        assert_eq!(
            client.register_surface(*id, Size::new((1920, 60))),
            Ok(RegisteredSurface(*id))
        );
    }
    client
}

fn sorted(mut list: Vec<u32>) -> Vec<u32> {
    list.sort();
    list
}

#[test]
fn engine_constants() {
    assert_eq!(ENGINE_NAME, "Avy (Skia)");
    assert_eq!(ENGINE_VERSION, (0, 1));
    assert_eq!(MAX_VK_API_VERSION, (1, 3));
}

#[test]
fn new_client_is_empty() {
    let client = AvyClient::new();
    assert!(client.lookup(A).is_none());
    assert_eq!(client.keyboard_focus(), None);
    assert_eq!(client.press_key(), None);
    assert_eq!(client.motion(0), Err(Error::UnknownTouch));
}

#[test]
fn registered_surface_can_be_looked_up() {
    let mut client = AvyClient::new();
    assert_eq!(client.register_surface(A, Size::new((1920, 60))), Ok(RegisteredSurface(A)));
    let record = client.lookup(A).unwrap();
    assert_eq!(record.id(), A);
    assert_eq!(record.size().logical_size(), (1920, 60));
    assert_eq!(record.size().physical_size(), (1920, 60));
    assert!(!record.size().has_changed());
    assert_eq!(record.viewport(), None);
    assert!(record.backend().is_none());
    assert!(client.lookup(B).is_none());
}

#[test]
fn registering_twice_fails_and_changes_nothing() {
    let mut client = AvyClient::new();
    client.register_surface(A, Size::new((1920, 60))).unwrap();
    client.configure(A, (800, 40)).unwrap();
    let refused = client.register_surface(A, Size::new((1, 1)));
    assert_eq!(refused, Err(Error::AlreadyRegistered));
    assert_eq!(Error::AlreadyRegistered.kind(), ErrorKind::ContractViolation);
    let record = client.lookup(A).unwrap();
    assert_eq!(record.size().logical_size(), (800, 40));
    assert_eq!(record.viewport(), Some(Viewport { source: (800, 40), destination: (800, 40) }));
    assert!(client.lookup(B).is_none());
}

#[test]
fn configure_resizes_and_sets_the_viewport() {
    let mut client = client_with(&[A, B]);
    assert_eq!(
        client.configure(A, (1920, 40)),
        Ok(Viewport { source: (1920, 40), destination: (1920, 40) })
    );
    let record = client.lookup(A).unwrap();
    assert_eq!(record.size().logical_size(), (1920, 40));
    assert!(record.size().has_changed());
    assert_eq!(record.viewport(), Some(Viewport { source: (1920, 40), destination: (1920, 40) }));
    // the other surface is untouched
    let other = client.lookup(B).unwrap();
    assert_eq!(other.size().logical_size(), (1920, 60));
    assert!(!other.size().has_changed());
    assert_eq!(other.viewport(), None);
}

#[test]
fn scale_change_keeps_the_destination_and_scales_the_source() {
    let mut client = client_with(&[A]);
    assert_eq!(
        client.scale_factor_changed(A, ScaleFactor::new(150)),
        Ok(Viewport { source: (2400, 75), destination: (1920, 60) })
    );
    assert_eq!(
        client.configure(A, (1000, 61)),
        Ok(Viewport { source: (1250, 76), destination: (1000, 61) })
    );
    let record = client.lookup(A).unwrap();
    assert_eq!(record.size().scale_factor(), Some(ScaleFactor::new(150)));
    assert!(record.size().has_changed());
}

#[test]
fn geometry_events_for_unknown_surfaces_fail() {
    let mut client = client_with(&[A]);
    assert_eq!(client.configure(B, (1, 1)), Err(Error::UnknownSurface));
    assert_eq!(client.scale_factor_changed(B, ScaleFactor::new(120)), Err(Error::UnknownSurface));
    assert_eq!(client.lookup(A).unwrap().size().logical_size(), (1920, 60));
}

#[test]
fn backend_renders_through_the_handle() {
    let mut client = AvyClient::new();
    let registered = client.register_surface(A, Size::new((1920, 60))).unwrap();
    let handle = registered.make_backend(&mut client, 3).unwrap();
    assert_eq!(handle, AvySurfaceHandle { id: A });
    {
        let engine = client.lookup(A).unwrap().backend().unwrap();
        assert_eq!(engine.phase(), Phase::Ready);
        assert_eq!(engine.extent(), (1920, 60));
        assert_eq!(engine.image_count(), 3);
    }

    assert_eq!(handle.render(&mut client), Ok(RenderStep::Acquire { fence: 0 }));
    assert_eq!(
        handle.image_acquired(&mut client, Acquired::Image { index: 2, suboptimal: false }),
        Ok(RenderStep::Draw { image: 2, wait: None, signal: 0, scale: None })
    );
    assert_eq!(handle.frame_presented(&mut client, Presented::Done), Ok(()));

    // a configure between frames: one rebuild, nothing presented in that call
    client.configure(A, (1920, 40)).unwrap();
    client.scale_factor_changed(A, ScaleFactor::new(180)).unwrap();
    assert_eq!(handle.render(&mut client), Ok(RenderStep::Rebuild { width: 2880, height: 60 }));
    assert_eq!(handle.recreate_swapchain(&mut client, Ok(3)), Ok(RenderStep::Skip));
    assert!(!client.lookup(A).unwrap().size().has_changed());
    assert_eq!(handle.render(&mut client), Ok(RenderStep::Acquire { fence: 0 }));
    assert_eq!(
        handle.image_acquired(&mut client, Acquired::Image { index: 0, suboptimal: false }),
        Ok(RenderStep::Draw {
            image: 0,
            wait: None,
            signal: 0,
            scale: Some(ScaleFactor::new(180))
        })
    );
    assert_eq!(handle.frame_presented(&mut client, Presented::Done), Ok(()));
    assert_eq!(client.lookup(A).unwrap().backend().unwrap().extent(), (2880, 60));
}

#[test]
fn backend_is_attached_once() {
    let mut client = client_with(&[A]);
    assert!(RegisteredSurface(A).make_backend(&mut client, 2).is_ok());
    assert_eq!(RegisteredSurface(A).make_backend(&mut client, 4), Err(Error::OutOfOrder));
    assert_eq!(client.lookup(A).unwrap().backend().unwrap().image_count(), 2);
    assert_eq!(RegisteredSurface(B).make_backend(&mut client, 2), Err(Error::UnknownSurface));
}

#[test]
fn backend_without_images_is_not_attached() {
    let mut client = client_with(&[A]);
    assert_eq!(RegisteredSurface(A).make_backend(&mut client, 0), Err(Error::EmptySwapchain));
    assert!(client.lookup(A).unwrap().backend().is_none());
    assert_eq!(AvySurfaceHandle { id: A }.render(&mut client), Err(Error::NotAttached));
}

#[test]
fn rendering_unknown_or_unattached_surfaces_fails() {
    let mut client = client_with(&[A]);
    let stray = AvySurfaceHandle { id: B };
    assert_eq!(stray.render(&mut client), Err(Error::UnknownSurface));
    assert_eq!(stray.recreate_swapchain(&mut client, Ok(2)), Err(Error::UnknownSurface));
    assert_eq!(stray.image_acquired(&mut client, Acquired::OutOfDate), Err(Error::UnknownSurface));
    assert_eq!(stray.frame_presented(&mut client, Presented::Done), Err(Error::UnknownSurface));
    let bare = AvySurfaceHandle { id: A };
    assert_eq!(bare.render(&mut client), Err(Error::NotAttached));
    assert_eq!(bare.recreate_swapchain(&mut client, Ok(2)), Err(Error::NotAttached));
    assert_eq!(bare.image_acquired(&mut client, Acquired::OutOfDate), Err(Error::NotAttached));
    assert_eq!(bare.frame_presented(&mut client, Presented::Done), Err(Error::NotAttached));
}

#[test]
fn unregister_detaches_the_engine_first() {
    let mut client = client_with(&[A, B]);
    RegisteredSurface(A).make_backend(&mut client, 2).unwrap();
    assert_eq!(
        client.unregister(A),
        Ok(vec![Release::WaitIdle, Release::Element(0), Release::Element(1), Release::Swapchain])
    );
    assert!(client.lookup(A).is_none());
    assert!(client.lookup(B).is_some());
    assert_eq!(client.unregister(A), Err(Error::UnknownSurface));
    // a surface without an engine has nothing to take down
    assert_eq!(client.unregister(B), Ok(vec![]));
}

#[test]
fn unregister_takes_focus_and_touches_along() {
    let mut client = client_with(&[A, B]);
    client.enter(A).unwrap();
    client.down(A, 1).unwrap();
    client.down(B, 2).unwrap();
    client.down(A, 3).unwrap();
    client.unregister(A).unwrap();
    assert_eq!(client.keyboard_focus(), None);
    assert_eq!(client.motion(1), Err(Error::UnknownTouch));
    assert_eq!(client.motion(3), Err(Error::UnknownTouch));
    assert_eq!(client.motion(2), Ok(B));
    // the identity is free again
    assert_eq!(client.register_surface(A, Size::new((1, 1))), Ok(RegisteredSurface(A)));
}

#[test]
fn unregister_of_another_surface_keeps_the_focus() {
    let mut client = client_with(&[A, B]);
    client.enter(A).unwrap();
    client.down(A, 1).unwrap();
    client.unregister(B).unwrap();
    assert_eq!(client.keyboard_focus(), Some(A));
    assert_eq!(client.motion(1), Ok(A));
}

#[test]
fn closed_unregisters() {
    let mut client = client_with(&[A]);
    RegisteredSurface(A).make_backend(&mut client, 1).unwrap();
    assert_eq!(
        client.closed(A),
        Ok(vec![Release::WaitIdle, Release::Element(0), Release::Swapchain])
    );
    assert!(client.lookup(A).is_none());
    assert_eq!(client.closed(A), Err(Error::UnknownSurface));
}

#[test]
fn keys_go_to_the_focused_surface() {
    let mut client = client_with(&[A, B]);
    assert_eq!(client.press_key(), None);
    assert_eq!(client.enter(A), Ok(A));
    assert_eq!(client.keyboard_focus(), Some(A));
    assert_eq!(client.press_key(), Some(A));
    assert_eq!(client.release_key(), Some(A));
    assert_eq!(client.update_modifiers(), Some(A));
    assert_eq!(client.enter(B), Ok(B));
    assert_eq!(client.press_key(), Some(B));
}

#[test]
fn keys_after_leave_are_dropped() {
    let mut client = client_with(&[A, B]);
    client.enter(A).unwrap();
    assert_eq!(client.leave(A), Ok(A));
    assert_eq!(client.keyboard_focus(), None);
    assert_eq!(client.press_key(), None);
    assert_eq!(client.release_key(), None);
    assert_eq!(client.update_modifiers(), None);
    // until the keyboard enters again
    client.enter(B).unwrap();
    assert_eq!(client.press_key(), Some(B));
}

#[test]
fn leave_of_another_surface_keeps_the_focus() {
    let mut client = client_with(&[A, B]);
    client.enter(A).unwrap();
    assert_eq!(client.leave(B), Ok(B));
    assert_eq!(client.keyboard_focus(), Some(A));
    assert_eq!(client.press_key(), Some(A));
}

#[test]
fn keyboard_events_for_unknown_surfaces_fail() {
    let mut client = client_with(&[A]);
    client.enter(A).unwrap();
    assert_eq!(client.enter(B), Err(Error::UnknownSurface));
    assert_eq!(client.keyboard_focus(), Some(A));
    assert_eq!(client.leave(B), Err(Error::UnknownSurface));
    assert_eq!(client.keyboard_focus(), Some(A));
}

#[test]
fn touch_is_routed_to_the_surface_it_went_down_on() {
    let mut client = client_with(&[A, B, C]);
    assert_eq!(client.down(B, 3), Ok(B));
    assert_eq!(client.down(A, 7), Ok(A));
    assert_eq!(client.down(C, 9), Ok(C));
    assert_eq!(client.motion(7), Ok(A));
    assert_eq!(client.shape(7), Ok(A));
    assert_eq!(client.orientation(7), Ok(A));
    assert_eq!(client.motion(3), Ok(B));
    assert_eq!(client.motion(9), Ok(C));
    // lifting 7 removes 7 only
    assert_eq!(client.up(7), Ok(A));
    assert_eq!(client.motion(7), Err(Error::UnknownTouch));
    assert_eq!(client.motion(3), Ok(B));
    assert_eq!(client.motion(9), Ok(C));
}

#[test]
fn unknown_touch_points_are_violations() {
    let mut client = client_with(&[A]);
    client.down(A, 1).unwrap();
    assert_eq!(client.up(2), Err(Error::UnknownTouch));
    assert_eq!(client.motion(2), Err(Error::UnknownTouch));
    assert_eq!(client.shape(2), Err(Error::UnknownTouch));
    assert_eq!(client.orientation(2), Err(Error::UnknownTouch));
    assert_eq!(Error::UnknownTouch.kind(), ErrorKind::ContractViolation);
    assert_eq!(client.motion(1), Ok(A));
    assert_eq!(client.up(1), Ok(A));
    assert_eq!(client.up(1), Err(Error::UnknownTouch));
}

#[test]
fn touch_down_on_unknown_surface_fails() {
    let mut client = client_with(&[A]);
    assert_eq!(client.down(B, 1), Err(Error::UnknownSurface));
    assert_eq!(client.motion(1), Err(Error::UnknownTouch));
}

#[test]
fn touch_down_again_moves_the_point() {
    let mut client = client_with(&[A, B]);
    client.down(A, 1).unwrap();
    client.down(B, 1).unwrap();
    assert_eq!(client.motion(1), Ok(B));
    assert_eq!(client.cancel(), vec![B]);
}

#[test]
fn cancel_notifies_every_owner_once() {
    let mut client = client_with(&[A, B, C]);
    client.down(A, 1).unwrap();
    client.down(B, 2).unwrap();
    client.down(A, 3).unwrap();
    client.down(B, 4).unwrap();
    assert_eq!(sorted(client.cancel()), vec![A, B]);
    assert_eq!(client.motion(1), Err(Error::UnknownTouch));
    assert_eq!(client.motion(2), Err(Error::UnknownTouch));
    assert_eq!(client.motion(3), Err(Error::UnknownTouch));
    assert_eq!(client.motion(4), Err(Error::UnknownTouch));
    // nothing is left to cancel
    assert_eq!(client.cancel(), vec![]);
}

#[test]
fn cancel_without_touches_notifies_nobody() {
    let mut client = client_with(&[A]);
    assert_eq!(client.cancel(), vec![]);
}

#[test]
fn pointer_events_go_to_the_surface_they_name() {
    let client = client_with(&[A, B]);
    assert_eq!(
        client.pointer_frame(&vec![A, C, B, A]),
        vec![Some(A), None, Some(B), Some(A)]
    );
    assert_eq!(client.pointer_frame(&Vec::new()), vec![]);
}

#[test]
fn seat_devices_are_taken_once() {
    let mut client = AvyClient::new();
    assert!(client.new_capability(Capability::Pointer));
    assert!(!client.new_capability(Capability::Pointer));
    assert!(client.new_capability(Capability::Keyboard));
    assert!(!client.new_capability(Capability::Keyboard));
    // a touch device is taken anew each time
    assert!(client.new_capability(Capability::Touch));
    assert!(client.new_capability(Capability::Touch));
    client.remove_capability(Capability::Pointer);
    assert!(client.new_capability(Capability::Pointer));
    assert!(!client.new_capability(Capability::Keyboard));
    client.remove_capability(Capability::Keyboard);
    assert!(client.new_capability(Capability::Keyboard));
    client.remove_capability(Capability::Touch);
    assert!(client.new_capability(Capability::Touch));
}

#[test]
fn removing_the_seat_gives_up_keyboard_and_pointer() {
    let mut client = AvyClient::new();
    client.new_capability(Capability::Pointer);
    client.new_capability(Capability::Keyboard);
    client.remove_seat();
    assert!(client.new_capability(Capability::Pointer));
    assert!(client.new_capability(Capability::Keyboard));
}

#[test]
fn layer_is_registered_with_its_requests() {
    let mut client = AvyClient::new();
    let params = AvyLayerParams {
        layer: Layer::Top,
        anchor: ANCHOR_BOTTOM,
        size: Size::new((1920, 60)),
        margin: None,
        keyboard_interactivity: KeyboardInteractivity::OnDemand,
    };
    let layer = AvyLayer::build(&mut client, A, params).unwrap();
    assert_eq!(layer.surface, RegisteredSurface(A));
    assert_eq!(layer.layer, Layer::Top);
    assert_eq!(
        layer.requests,
        vec![
            LayerRequest::SetAnchor(2),
            LayerRequest::SetSize { width: 1920, height: 60 },
            LayerRequest::SetKeyboardInteractivity(KeyboardInteractivity::OnDemand),
            LayerRequest::FractionalScale,
            LayerRequest::Viewport,
            LayerRequest::Commit,
            LayerRequest::Roundtrip,
        ]
    );
    assert_eq!(client.lookup(A).unwrap().size().logical_size(), (1920, 60));
}

#[test]
fn layer_with_margin_sets_it_after_the_interactivity() {
    let mut client = AvyClient::new();
    let params = AvyLayerParams {
        layer: Layer::Overlay,
        anchor: ANCHOR_TOP | ANCHOR_LEFT | ANCHOR_RIGHT,
        size: Size::new((0, 32)),
        margin: Some((1, -2, 3, 4)),
        keyboard_interactivity: KeyboardInteractivity::Never,
    };
    let layer = AvyLayer::build(&mut client, B, params).unwrap();
    assert_eq!(
        layer.requests,
        vec![
            LayerRequest::SetAnchor(13),
            LayerRequest::SetSize { width: 0, height: 32 },
            LayerRequest::SetKeyboardInteractivity(KeyboardInteractivity::Never),
            LayerRequest::SetMargin { top: 1, right: -2, bottom: 3, left: 4 },
            LayerRequest::FractionalScale,
            LayerRequest::Viewport,
            LayerRequest::Commit,
            LayerRequest::Roundtrip,
        ]
    );
}

#[test]
fn layer_on_a_taken_identity_fails() {
    let mut client = client_with(&[A]);
    client.configure(A, (5, 5)).unwrap();
    let params = AvyLayerParams {
        layer: Layer::Bottom,
        anchor: ANCHOR_TOP,
        size: Size::new((1, 1)),
        margin: None,
        keyboard_interactivity: KeyboardInteractivity::Exclusive,
    };
    assert!(matches!(AvyLayer::build(&mut client, A, params), Err(Error::AlreadyRegistered)));
    assert_eq!(client.lookup(A).unwrap().size().logical_size(), (5, 5));
}
