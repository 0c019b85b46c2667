use vst3_view::geometry::ViewRect;
use vst3_view::keys::{Modifiers, VirtualKeyCode, VirtualKeyEvent};
use vst3_view::platform::{fid_matches, ParentWindowHandle, Platform, WindowType};
use vst3_view::result::TResult;
use vst3_view::run_loop::{FdAction, FdEvent, Notification, RunLoopEventHandler};
use vst3_view::view::WrapperView;

const X11: &[u8] = b"X11EmbedWindowID";
const NS_VIEW: &[u8] = b"NSView";
const HWND: &[u8] = b"HWND";
const PLATFORMS: [Platform; 4] =
    [Platform::Linux, Platform::OtherUnix, Platform::MacOs, Platform::Windows];

type View = WrapperView<&'static str, &'static str>;

fn view(platform: Platform) -> View {
    WrapperView::new(platform)
}

/// A handler that is registered at this address and has sockets of its own.
fn handler(event_handler: usize, capacity: usize) -> RunLoopEventHandler {
    let fd = event_handler as i32;
    let mut handler = RunLoopEventHandler::new([fd + 3, fd + 4], capacity);
    handler.register(event_handler);
    handler
}

/// Advances a call after which no handler has to be taken down.
fn step(view: &mut View, event_handler: usize, event: FdEvent) -> FdAction {
    let (action, released) = view.on_fd_is_set(event_handler, event);
    assert!(released.is_none());
    action
}

fn set_frame(
    view: &mut View,
    frame: Option<(&'static str, Option<RunLoopEventHandler>)>,
) -> Option<RunLoopEventHandler> {
    let (answer, replaced) = view.set_frame(frame);
    assert_eq!(answer, TResult::ResultOk);
    replaced
}

fn rect(left: i32, top: i32, right: i32, bottom: i32) -> Option<ViewRect> {
    Some(ViewRect { left, top, right, bottom })
}

#[test]
fn each_platform_supports_its_own_windows() {
    let supported = [X11, X11, NS_VIEW, HWND];
    for (platform, own) in PLATFORMS.iter().zip(supported) {
        for type_id in [X11, NS_VIEW, HWND, b"UIView", b"", b"HWND "] {
            let expected = if type_id == own { TResult::ResultOk } else { TResult::ResultFalse };
            assert_eq!(view(*platform).is_platform_type_supported(type_id), expected);
        }
    }
}

#[test]
fn identifiers_are_compared_byte_by_byte() {
    assert!(fid_matches(b"", b""));
    assert!(fid_matches(b"HWND", b"HWND"));
    assert!(!fid_matches(b"HWND", b"HWNE"));
    assert!(!fid_matches(b"HWND", b"HWN"));
    assert_eq!(WindowType::from_id(b"NSView"), Some(WindowType::NsView));
    assert_eq!(WindowType::from_id(b"nsview"), None);
}

#[test]
fn attaching_yields_the_parent_window() {
    let view = view(Platform::Linux);
    assert_eq!(view.attached(0x1234, X11), Ok(ParentWindowHandle::X11Window(0x1234)));
    assert_eq!(view.attached(0x1234, NS_VIEW), Ok(ParentWindowHandle::AppKitNsView(0x1234)));
    assert_eq!(view.attached(0x1234, HWND), Ok(ParentWindowHandle::Win32Hwnd(0x1234)));
    assert_eq!(view.attached(0x1234, b"HIView"), Err(TResult::InvalidArgument));
}

#[test]
fn x11_windows_have_32_bit_ids() {
    let view = view(Platform::Linux);
    let parent = usize::MAX - 1;
    assert_eq!(view.attached(parent, X11), Ok(ParentWindowHandle::X11Window(u32::MAX - 1)));
    assert_eq!(view.attached(parent, NS_VIEW), Ok(ParentWindowHandle::AppKitNsView(parent)));
}

#[test]
fn supported_windows_can_be_attached() {
    for platform in PLATFORMS {
        for type_id in [X11, NS_VIEW, HWND] {
            if view(platform).is_platform_type_supported(type_id) == TResult::ResultOk {
                assert!(view(platform).attached(1, type_id).is_ok());
            }
        }
    }
}

#[test]
fn a_view_is_attached_once() {
    let mut view = view(Platform::Linux);
    view.set_com_self(Some(77));
    assert_eq!(view.plug_view(), None);
    assert_eq!(view.editor_spawned("editor"), TResult::ResultOk);
    assert_eq!(view.plug_view(), Some(77));
    assert_eq!(view.attached(1, X11), Err(TResult::ResultFalse));
    assert_eq!(view.attached(1, b"HIView"), Err(TResult::ResultFalse));
}

#[test]
fn removing_undoes_attaching() {
    let mut view = view(Platform::Linux);
    view.set_com_self(Some(77));
    assert_eq!(view.removed(), Err(TResult::ResultFalse));
    view.editor_spawned("editor");
    assert_eq!(view.removed(), Ok("editor"));
    assert_eq!(view.plug_view(), None);
    assert_eq!(view.removed(), Err(TResult::ResultFalse));
    assert_eq!(view.attached(5, X11), Ok(ParentWindowHandle::X11Window(5)));
}

#[test]
fn an_unknown_view_is_not_published() {
    let mut view = view(Platform::Windows);
    view.editor_spawned("editor");
    assert_eq!(view.plug_view(), None);
}

#[test]
fn events_that_are_left_to_the_window_system() {
    let view = view(Platform::MacOs);
    assert_eq!(view.on_wheel(), TResult::NotImplemented);
    assert_eq!(view.on_focus(), TResult::NotImplemented);
    assert_eq!(view.can_resize(), TResult::ResultFalse);
}

#[test]
fn virtual_keys_go_to_the_editor() {
    let view = view(Platform::MacOs);
    let event = VirtualKeyEvent {
        key_code: VirtualKeyCode::Space,
        is_down: true,
        modifiers: Modifiers { shift: true, alternate: false, command: false, control: false },
    };
    assert_eq!(view.on_key_down(7, 0x31), Ok(event));
    assert_eq!(view.on_key_up(7, 0x31), Ok(VirtualKeyEvent { is_down: false, ..event }));
    assert_eq!(view.dispatch_virtual_key(7, true, 1), Ok(event));
    assert_eq!(view.virtual_key_handled(true), TResult::ResultOk);
    assert_eq!(view.virtual_key_handled(false), TResult::ResultFalse);
}

#[test]
fn text_does_not_go_to_the_editor() {
    let view = view(Platform::MacOs);
    for key_code in [0, -3, 78, 128, 128 + 65] {
        assert_eq!(view.on_key_down(key_code, 0), Err(TResult::ResultFalse));
        assert_eq!(view.on_key_up(key_code, 0), Err(TResult::ResultFalse));
        assert_eq!(view.dispatch_virtual_key(key_code, true, 0), Err(TResult::ResultFalse));
    }
}

#[test]
fn the_size_is_that_of_the_editor() {
    let view = view(Platform::Linux);
    assert_eq!(view.get_size(true), Ok(1.0f32.to_bits()));
    let (size, answer) = view.size_reported(640, 480);
    assert_eq!(Some(size), rect(0, 0, 640, 480));
    assert_eq!(answer, TResult::ResultOk);
}

#[test]
fn missing_rectangles_are_refused_before_the_editor_is_asked() {
    let view = view(Platform::Linux);
    assert_eq!(view.get_size(false), Err(TResult::InvalidArgument));
    assert_eq!(view.on_size(None), Err(TResult::InvalidArgument));
    assert_eq!(view.check_size_constraint(None), TResult::InvalidArgument);
}

#[test]
fn only_the_size_of_the_editor_is_accepted() {
    let view = view(Platform::Linux);
    let answer = |new_size: Option<ViewRect>| match view.on_size(new_size) {
        Ok((rect, factor)) => {
            assert_eq!(Some(rect), new_size);
            assert_eq!(factor, 1.0f32.to_bits());
            view.size_compared(rect, 640, 480)
        }
        Err(answer) => answer,
    };
    assert_eq!(answer(rect(0, 0, 640, 480)), TResult::ResultOk);
    assert_eq!(answer(rect(-5, 7, 635, 487)), TResult::ResultOk);
    assert_eq!(answer(rect(0, 0, 641, 480)), TResult::ResultFalse);
    assert_eq!(answer(rect(0, 0, 640, 479)), TResult::ResultFalse);
    assert_eq!(answer(None), TResult::InvalidArgument);
    assert_eq!(answer(Some(view.size_reported(640, 480).0)), TResult::ResultOk);
    assert_eq!(answer(Some(view.size_reported(640, 481).0)), TResult::ResultFalse);
}

#[test]
fn empty_sizes_are_refused() {
    let view = view(Platform::Linux);
    assert_eq!(view.check_size_constraint(rect(0, 0, 1, 1)), TResult::ResultOk);
    assert_eq!(view.check_size_constraint(rect(-9, -9, 9, 9)), TResult::ResultOk);
    assert_eq!(view.check_size_constraint(rect(0, 0, 0, 1)), TResult::ResultFalse);
    assert_eq!(view.check_size_constraint(rect(0, 0, 1, 0)), TResult::ResultFalse);
    assert_eq!(view.check_size_constraint(rect(5, 0, 1, 1)), TResult::ResultFalse);
    assert_eq!(
        view.check_size_constraint(rect(0, i32::MIN, 0, i32::MAX)),
        TResult::ResultFalse
    );
    assert_eq!(view.check_size_constraint(None), TResult::InvalidArgument);
}

#[test]
fn rectangles_are_measured() {
    let rect = ViewRect::from_size(12, 34);
    assert_eq!((rect.left, rect.top, rect.right, rect.bottom), (0, 0, 12, 34));
    assert_eq!((rect.width(), rect.height()), (12, 34));
}

#[test]
fn accepted_scaling_factors_are_used() {
    for platform in [Platform::Linux, Platform::OtherUnix, Platform::Windows] {
        let mut view = view(platform);
        let factor = 1.5f32.to_bits();
        assert_eq!(f32::from_bits(view.scaling_factor()), 1.0);
        assert_eq!(view.set_content_scale_factor(factor), Ok(factor));
        assert_eq!(view.scale_factor_offered(factor, false), TResult::ResultFalse);
        assert_eq!(f32::from_bits(view.scaling_factor()), 1.0);
        assert_eq!(view.scale_factor_offered(factor, true), TResult::ResultOk);
        assert_eq!(f32::from_bits(view.scaling_factor()), 1.5);
    }
}

#[test]
fn sizes_go_by_the_accepted_factor() {
    let mut view = view(Platform::Windows);
    let factor = 1.25f32.to_bits();
    view.scale_factor_offered(factor, true);
    view.set_com_self(Some(1));
    view.editor_spawned("editor");
    assert!(set_frame(&mut view, Some(("frame", None))).is_none());
    view.scale_factor_offered(3.0f32.to_bits(), false);
    assert_eq!(view.get_size(true), Ok(factor));
    assert_eq!(view.on_size(rect(0, 0, 5, 5)).map(|request| request.1), Ok(factor));
    assert_eq!(view.request_resize(true, true), Some((&"frame", factor)));
}

#[test]
fn macos_scales_by_itself() {
    let view = view(Platform::MacOs);
    assert_eq!(view.set_content_scale_factor(2.0f32.to_bits()), Err(TResult::ResultFalse));
    assert_eq!(f32::from_bits(view.scaling_factor()), 1.0);
}

#[test]
fn a_resize_needs_an_editor_a_frame_and_a_com_object() {
    let mut view = view(Platform::Linux);
    assert_eq!(view.request_resize(true, true), None);
    view.editor_spawned("editor");
    assert_eq!(view.request_resize(true, true), None);
    view.set_com_self(Some(1));
    assert_eq!(view.request_resize(true, true), None);
    assert!(set_frame(&mut view, Some(("frame", None))).is_none());
    assert_eq!(view.request_resize(true, true), Some((&"frame", 1.0f32.to_bits())));
    assert_eq!(view.request_resize(false, true), None);
    assert_eq!(view.request_resize(true, false), None);
    view.set_com_self(None);
    assert_eq!(view.request_resize(true, true), None);
    view.set_com_self(Some(1));
    assert_eq!(view.removed(), Ok("editor"));
    assert_eq!(view.request_resize(true, true), None);
    view.editor_spawned("editor");
    assert!(set_frame(&mut view, None).is_none());
    assert_eq!(view.request_resize(true, true), None);
}

#[test]
fn a_resize_asks_for_the_reported_size() {
    let view = view(Platform::Windows);
    assert_eq!(view.resize_rect(800, 600), view.size_reported(800, 600).0);
    assert!(view.resize_answered(TResult::ResultOk));
    assert!(!view.resize_answered(TResult::ResultFalse));
    assert!(!view.resize_answered(TResult::InvalidArgument));
    assert!(!view.resize_answered(TResult::NotImplemented));
}

#[test]
fn only_linux_uses_a_run_loop() {
    for platform in PLATFORMS {
        assert_eq!(view(platform).uses_run_loop(), platform == Platform::Linux);
    }
}

#[test]
fn tasks_come_back_without_a_run_loop() {
    for platform in PLATFORMS {
        let mut view = view(platform);
        assert_eq!(view.do_maybe_in_run_loop(5), Err(5));
        assert!(set_frame(&mut view, Some(("frame", None))).is_none());
        assert_eq!(view.do_maybe_in_run_loop(5), Err(5));
        assert_eq!(step(&mut view, 0, FdEvent::Ready), FdAction::Finish);
        assert_eq!(step(&mut view, 100, FdEvent::Ready), FdAction::Finish);
    }
}

#[test]
fn tasks_run_in_the_host_s_loop() {
    let mut view = view(Platform::Linux);
    assert!(set_frame(&mut view, Some(("frame", Some(handler(100, 2))))).is_none());
    assert_eq!(view.do_maybe_in_run_loop(5), Ok(Notification { fd: 104, value: 1, size: 1 }));
    assert_eq!(view.do_maybe_in_run_loop(6), Ok(Notification { fd: 104, value: 1, size: 1 }));
    assert_eq!(view.do_maybe_in_run_loop(7), Err(7));
    assert_eq!(
        step(&mut view, 100, FdEvent::Ready),
        FdAction::ReadSocket { fd: 103, size: 128 }
    );
    assert_eq!(step(&mut view, 100, FdEvent::SocketRead(-1)), FdAction::Execute(5));
    assert_eq!(step(&mut view, 100, FdEvent::TaskExecuted), FdAction::Execute(6));
    assert_eq!(step(&mut view, 100, FdEvent::TaskExecuted), FdAction::Finish);
}

#[test]
fn a_replaced_handler_keeps_its_tasks() {
    let mut view = view(Platform::Linux);
    assert!(set_frame(&mut view, Some(("frame", Some(handler(100, 2))))).is_none());
    assert!(view.do_maybe_in_run_loop(5).is_ok());
    let mut replaced = set_frame(&mut view, Some(("other", Some(handler(200, 1))))).unwrap();
    assert_eq!(replaced.drain_tasks(), vec![5]);
    assert!(view.do_maybe_in_run_loop(6).is_ok());
    let mut replaced = set_frame(&mut view, None).unwrap();
    assert_eq!(replaced.event_handler(), 200);
    assert_eq!(replaced.drain_tasks(), vec![6]);
    assert_eq!(view.do_maybe_in_run_loop(7), Err(7));
    assert!(set_frame(&mut view, None).is_none());
}

#[test]
fn a_call_goes_on_with_its_own_tasks_in_another_frame() {
    let mut view = view(Platform::Linux);
    assert!(set_frame(&mut view, Some(("frame", Some(handler(100, 4))))).is_none());
    for task in [1, 2, 3] {
        assert!(view.do_maybe_in_run_loop(task).is_ok());
    }
    step(&mut view, 100, FdEvent::Ready);
    assert_eq!(step(&mut view, 100, FdEvent::SocketRead(-1)), FdAction::Execute(1));

    // The first task makes the host set another frame, with a run loop of its own
    assert!(set_frame(&mut view, Some(("other", Some(handler(200, 4))))).is_none());
    assert_eq!(view.do_maybe_in_run_loop(4), Ok(Notification { fd: 204, value: 1, size: 1 }));
    assert_eq!(step(&mut view, 100, FdEvent::TaskExecuted), FdAction::Execute(2));

    // The second one makes it remove the frame altogether
    let mut replaced = set_frame(&mut view, None).unwrap();
    assert_eq!(replaced.event_handler(), 200);
    assert_eq!(replaced.drain_tasks(), vec![4]);
    assert_eq!(view.do_maybe_in_run_loop(5), Err(5));
    assert_eq!(step(&mut view, 100, FdEvent::TaskExecuted), FdAction::Execute(3));

    // Once the call returns, the handler has to be taken down
    let (action, released) = view.on_fd_is_set(100, FdEvent::TaskExecuted);
    let mut released = released.unwrap();
    assert_eq!(action, FdAction::Finish);
    assert_eq!(released.event_handler(), 100);
    assert!(!released.is_in_call());
    assert_eq!(released.drain_tasks(), Vec::<u64>::new());
    assert_eq!(step(&mut view, 100, FdEvent::Ready), FdAction::Finish);
}

#[test]
fn a_replaced_handler_outlives_nested_calls() {
    let mut view = view(Platform::Linux);
    assert!(set_frame(&mut view, Some(("frame", Some(handler(100, 4))))).is_none());
    assert!(view.do_maybe_in_run_loop(1).is_ok());
    assert!(view.do_maybe_in_run_loop(2).is_ok());
    step(&mut view, 100, FdEvent::Ready);
    assert_eq!(step(&mut view, 100, FdEvent::SocketRead(-1)), FdAction::Execute(1));

    // The first task makes the host set another frame and then call the handler again
    assert!(set_frame(&mut view, Some(("other", None))).is_none());
    assert_eq!(
        step(&mut view, 100, FdEvent::Ready),
        FdAction::ReadSocket { fd: 103, size: 128 }
    );
    assert_eq!(step(&mut view, 100, FdEvent::SocketRead(-1)), FdAction::Execute(2));
    assert_eq!(step(&mut view, 100, FdEvent::TaskExecuted), FdAction::Finish);

    let (action, released) = view.on_fd_is_set(100, FdEvent::TaskExecuted);
    assert_eq!(action, FdAction::Finish);
    assert_eq!(released.unwrap().event_handler(), 100);
}

#[test]
fn several_replaced_handlers_are_told_apart() {
    let mut view = view(Platform::Linux);
    for event_handler in [100, 200, 300] {
        let frame = Some(("frame", Some(handler(event_handler, 4))));
        assert!(set_frame(&mut view, frame).is_none());
        for task in 1..=2 {
            assert!(view.do_maybe_in_run_loop(event_handler as u64 + task).is_ok());
        }
        step(&mut view, event_handler, FdEvent::Ready);
        assert_eq!(
            step(&mut view, event_handler, FdEvent::SocketRead(0)),
            FdAction::Execute(event_handler as u64 + 1)
        );
    }
    for event_handler in [200, 100] {
        assert_eq!(
            step(&mut view, event_handler, FdEvent::TaskExecuted),
            FdAction::Execute(event_handler as u64 + 2)
        );
        let (action, released) = view.on_fd_is_set(event_handler, FdEvent::TaskExecuted);
        assert_eq!(action, FdAction::Finish);
        assert_eq!(released.unwrap().event_handler(), event_handler);
    }
    assert_eq!(step(&mut view, 300, FdEvent::TaskExecuted), FdAction::Execute(302));
    assert_eq!(step(&mut view, 300, FdEvent::TaskExecuted), FdAction::Finish);
    assert_eq!(set_frame(&mut view, None).unwrap().event_handler(), 300);
}

#[test]
fn no_work_is_lost_over_several_frames() {
    let mut view = view(Platform::Linux);
    let (mut accepted, mut executed, mut handed_out) = (vec![], vec![], vec![]);
    let mut post = |view: &mut View, tasks: std::ops::Range<u64>| {
        for task in tasks {
            if view.do_maybe_in_run_loop(task).is_ok() {
                accepted.push(task);
            }
        }
    };

    post(&mut view, 0..2);
    assert!(set_frame(&mut view, Some(("one", Some(handler(100, 3))))).is_none());
    post(&mut view, 10..15);
    step(&mut view, 100, FdEvent::Ready);
    let mut action = step(&mut view, 100, FdEvent::SocketRead(-1));

    // The first frame's handler is being called, so it stays; the second one leaves at once
    assert!(set_frame(&mut view, Some(("two", Some(handler(200, 2))))).is_none());
    post(&mut view, 20..25);
    handed_out.extend(set_frame(&mut view, None).unwrap().drain_tasks());
    while let FdAction::Execute(task) = action {
        executed.push(task);
        let (next, released) = view.on_fd_is_set(100, FdEvent::TaskExecuted);
        action = next;
        if let Some(mut released) = released {
            handed_out.extend(released.drain_tasks());
        }
    }

    assert_eq!(accepted, vec![10, 11, 12, 20, 21]);
    assert_eq!(executed, vec![10, 11, 12]);
    assert_eq!(handed_out, vec![20, 21]);
}
