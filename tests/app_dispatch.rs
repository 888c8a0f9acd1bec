use sokol::app::ffi::{
    cleanup_userdata_cb, event_userdata_cb, fail_userdata_cb, frame_userdata_cb, init_userdata_cb,
    sapp_make_desc, stream_userdata_cb, SAppEvent as RawEvent,
};
use sokol::app::{
    fill_silence, SApp, SAppCall, SAppDesc, SAppEvent, SAppEventType, SAppIconDesc, SAppImpl, SAppKeycode,
    SAppModifier, SAppMouseButton, SAppTouchPoint,
};
use sokol::marshal::MarshalError;

#[derive(Default)]
struct Recorder {
    calls: Vec<String>,
    events: Vec<SAppEvent>,
    failures: Vec<String>,
}

impl SApp for Recorder {
    fn sapp_init(&mut self) {
        self.calls.push("init".to_string());
    }

    fn sapp_frame(&mut self) {
        self.calls.push("frame".to_string());
    }

    fn sapp_cleanup(&mut self) {
        self.calls.push("cleanup".to_string());
    }

    fn sapp_event(&mut self, event: SAppEvent) {
        self.calls.push("event".to_string());
        self.events.push(event);
    }

    fn sapp_note(&mut self, _call: SAppCall) {
        self.calls.push("note".to_string());
    }

    fn sapp_fail(&mut self, msg: &str) {
        self.calls.push("fail".to_string());
        self.failures.push(msg.to_string());
    }
}

#[derive(Default)]
struct Quiet {
    notes: Vec<String>,
}

impl SApp for Quiet {
    fn sapp_init(&mut self) {}
    fn sapp_frame(&mut self) {}
    fn sapp_cleanup(&mut self) {}
    fn sapp_event(&mut self, _event: SAppEvent) {}

    fn sapp_note(&mut self, call: SAppCall) {
        let name = match call {
            SAppCall::Fail(_) => "fail",
            SAppCall::Stream { num_frames, num_channels } if num_frames == 3 && num_channels == 2 => "stream 3x2",
            SAppCall::Stream { .. } => "stream",
            _ => "other",
        };
        self.notes.push(name.to_string());
    }
}

fn sample_event() -> SAppEvent {
    let mut touches = [SAppTouchPoint::default(); 8];
    touches[0] = SAppTouchPoint { identifier: 11, pos_x: 3.5f32.to_bits(), pos_y: 4.0f32.to_bits(), changed: true };
    touches[1] = SAppTouchPoint { identifier: 12, pos_x: 1.0f32.to_bits(), pos_y: 2.0f32.to_bits(), changed: false };
    SAppEvent {
        frame_count: 42,
        event_type: SAppEventType::KeyDown,
        key_code: SAppKeycode::KeyA,
        char_code: 97,
        key_repeat: true,
        modifiers: SAppModifier::from_bits(SAppModifier::SHIFT | SAppModifier::ALT),
        mouse_button: SAppMouseButton::Right,
        mouse_x: 10.25f32.to_bits(),
        mouse_y: 20.5f32.to_bits(),
        scroll_x: 0,
        scroll_y: (-1.0f32).to_bits(),
        num_touches: 2,
        touches,
        window_width: 800,
        window_height: 600,
        framebuffer_width: 1600,
        framebuffer_height: 1200,
    }
}

#[test]
fn callbacks_reach_the_handler_once_each_in_order() {
    let mut app = SAppImpl::new(Recorder::default(), SAppDesc::default());
    init_userdata_cb(&mut app);
    frame_userdata_cb(&mut app);
    frame_userdata_cb(&mut app);
    let raw = RawEvent::translate(&sample_event());
    event_userdata_cb(&raw, &mut app);
    fail_userdata_cb("shader failed", &mut app);
    cleanup_userdata_cb(&mut app);
    assert_eq!(app.callbacks.calls, vec!["init", "frame", "frame", "event", "fail", "cleanup"]);
    assert_eq!(app.callbacks.events, vec![sample_event()]);
    assert_eq!(app.callbacks.failures, vec!["shader failed".to_string()]);
}

#[test]
fn native_event_carries_every_field() {
    let e = sample_event();
    let raw = RawEvent::translate(&e);
    assert_eq!(raw.frame_count, 42);
    assert_eq!(raw.event_type, 1);
    assert_eq!(raw.key_code, 65);
    assert_eq!(raw.char_code, 97);
    assert!(raw.key_repeat);
    assert_eq!(raw.modifiers, 0x05);
    assert_eq!(raw.mouse_button, 1);
    assert_eq!(raw.mouse_x, 10.25f32.to_bits());
    assert_eq!(raw.scroll_y, (-1.0f32).to_bits());
    assert_eq!(raw.num_touches, 2);
    assert_eq!(raw.touches[0].identifier, 11);
    assert_eq!(raw.touches[1].pos_y, 2.0f32.to_bits());
    assert_eq!(raw.framebuffer_height, 1200);
    assert_eq!(raw.to_app_event(), e);
}

#[test]
fn unknown_native_numbers_become_invalid() {
    let mut raw = RawEvent::translate(&sample_event());
    raw.event_type = 99;
    raw.key_code = 1;
    raw.mouse_button = 7;
    let e = raw.to_app_event();
    assert_eq!(e.event_type, SAppEventType::Invalid);
    assert_eq!(e.key_code, SAppKeycode::KeyInvalid);
    assert_eq!(e.mouse_button, SAppMouseButton::Invalid);
    raw.mouse_button = -1;
    assert_eq!(raw.to_app_event().mouse_button, SAppMouseButton::Invalid);
    raw.key_code = 348;
    assert_eq!(raw.to_app_event().key_code, SAppKeycode::KeyMenu);
}

#[test]
fn keycodes_use_the_native_numbers() {
    assert_eq!(SAppKeycode::KeySpace.raw(), 32);
    assert_eq!(SAppKeycode::KeyEscape.raw(), 256);
    assert_eq!(SAppKeycode::KeyKPEqual.raw(), 336);
    assert_eq!(SAppKeycode::from_raw(290), Some(SAppKeycode::KeyF1));
    assert_eq!(SAppKeycode::from_raw(33), None);
    assert_eq!(SAppMouseButton::Invalid.raw(), -1);
    assert_eq!(SAppEventType::from_raw(20), Some(SAppEventType::QuitRequested));
    assert_eq!(SAppEventType::from_raw(21), None);
}

#[test]
fn default_audio_stream_writes_silence() {
    let mut app = SAppImpl::new(Quiet::default(), SAppDesc::default());
    let mut buffer = vec![7u32; 10];
    stream_userdata_cb(&mut buffer, 3, 2, &mut app);
    assert_eq!(buffer, vec![0, 0, 0, 0, 0, 0, 7, 7, 7, 7]);
    assert_eq!(app.callbacks.notes, vec!["stream 3x2".to_string()]);
}

#[test]
fn default_fail_notes_the_call_once() {
    let mut app = SAppImpl::new(Quiet::default(), SAppDesc::default());
    fail_userdata_cb("lost device\n", &mut app);
    assert_eq!(app.callbacks.notes, vec!["fail".to_string()]);
}

#[test]
fn silence_never_runs_past_the_buffer() {
    let mut buffer = vec![5u32; 4];
    fill_silence(&mut buffer, 4, 2);
    assert_eq!(buffer, vec![0, 0, 0, 0]);
    let mut buffer = vec![5u32; 4];
    fill_silence(&mut buffer, -1, 2);
    assert_eq!(buffer, vec![5, 5, 5, 5]);
}

#[test]
fn app_desc_strings_become_native_strings() {
    let desc = SAppDesc {
        width: 800,
        height: 600,
        window_title: "clear-sapp".to_string(),
        html5_canvas_name: "canvas".to_string(),
        high_dpi: true,
        ..Default::default()
    };
    let app = SAppImpl::new(Quiet::default(), desc);
    let raw = sapp_make_desc(&app).unwrap();
    assert_eq!(raw.width, 800);
    assert_eq!(raw.height, 600);
    assert!(raw.high_dpi);
    assert_eq!(raw.window_title, b"clear-sapp\0".to_vec());
    assert_eq!(raw.html5_canvas_name, b"canvas\0".to_vec());
    assert!(raw.icon.sokol_default);
}

#[test]
fn app_desc_with_nul_in_title_is_refused() {
    let desc = SAppDesc { window_title: "bad\0title".to_string(), ..Default::default() };
    let app = SAppImpl::new(Quiet::default(), desc);
    assert_eq!(sapp_make_desc(&app).unwrap_err(), MarshalError::InteriorNul);
}

#[test]
fn default_icon_is_the_library_icon() {
    let icon = SAppIconDesc::default();
    assert!(icon.sokol_default);
    assert!(icon.images.iter().all(|i| i.width == 0 && i.height == 0 && i.pixels.ptr == 0));
}
