//! The application library's side of events, settings and callbacks: events
//! in the form the native library delivers them, settings in the form it
//! reads them, and the entry points that forward its callbacks to a
//! registered application.
use vstd::prelude::*;

use crate::marshal::{c_string, c_string_of, fits_c_string, MarshalError};

use super::{
    SApp, SAppCall, SAppEventType, SAppIconDesc, SAppImpl, SAppKeycode, SAppModifier,
    SAppMouseButton, SAppTouchPoint,
};

verus! {

/// The most touch points that one event carries.
pub const SAPP_MAX_TOUCHPOINTS: usize = 8;

/// The most mouse buttons that events tell apart.
pub const SAPP_MAX_MOUSEBUTTONS: usize = 3;

/// The most images that a window icon can have.
pub const SAPP_MAX_ICONIMAGES: usize = 8;

/// An event as the native library delivers it: enumerations and modifier
/// bits as the native library numbers them.
#[derive(Copy, Clone, Debug, PartialEq, Eq)]
pub struct SAppEvent {
    pub frame_count: u64,
    pub event_type: i32,
    pub key_code: i32,
    pub char_code: u32,
    pub key_repeat: bool,
    pub modifiers: u32,
    pub mouse_button: i32,
    pub mouse_x: u32,
    pub mouse_y: u32,
    pub scroll_x: u32,
    pub scroll_y: u32,
    pub num_touches: i32,
    pub touches: [SAppTouchPoint; 8],
    pub window_width: i32,
    pub window_height: i32,
    pub framebuffer_width: i32,
    pub framebuffer_height: i32,
}

/// Whether `t` is what the native event type `v` stands for: the type with
/// that number, or `Invalid` where there is none.
pub open spec fn decodes_event_type(t: SAppEventType, v: i32) -> bool {
    if exists|x: SAppEventType| x.spec_raw() == v {
        t.spec_raw() == v
    } else {
        t == SAppEventType::Invalid
    }
}

/// Whether `k` is what the native key code `v` stands for: the key with
/// that number, or `KeyInvalid` where there is none.
pub open spec fn decodes_keycode(k: SAppKeycode, v: i32) -> bool {
    if exists|x: SAppKeycode| x.spec_raw() == v {
        k.spec_raw() == v
    } else {
        k == SAppKeycode::KeyInvalid
    }
}

/// Whether `b` is what the native mouse button `v` stands for: the button
/// with that number, or `Invalid` where there is none.
pub open spec fn decodes_mouse_button(b: SAppMouseButton, v: i32) -> bool {
    if exists|x: SAppMouseButton| x.spec_raw() == v {
        b.spec_raw() == v
    } else {
        b == SAppMouseButton::Invalid
    }
}

/// Whether the native event `n` carries every field of the event `e`
/// unchanged, enumerations as their native numbers.
pub open spec fn native_event_of(n: SAppEvent, e: super::SAppEvent) -> bool {
    &&& n.frame_count == e.frame_count
    &&& n.event_type == e.event_type.spec_raw()
    &&& n.key_code == e.key_code.spec_raw()
    &&& n.char_code == e.char_code
    &&& n.key_repeat == e.key_repeat
    &&& n.modifiers == e.modifiers.bits
    &&& n.mouse_button == e.mouse_button.spec_raw()
    &&& n.mouse_x == e.mouse_x
    &&& n.mouse_y == e.mouse_y
    &&& n.scroll_x == e.scroll_x
    &&& n.scroll_y == e.scroll_y
    &&& n.num_touches == e.num_touches
    &&& n.touches == e.touches
    &&& n.window_width == e.window_width
    &&& n.window_height == e.window_height
    &&& n.framebuffer_width == e.framebuffer_width
    &&& n.framebuffer_height == e.framebuffer_height
}

/// Whether the event `e` carries every field of the native event `n`
/// unchanged, native numbers decoded.
pub open spec fn app_event_of(e: super::SAppEvent, n: SAppEvent) -> bool {
    &&& e.frame_count == n.frame_count
    &&& decodes_event_type(e.event_type, n.event_type)
    &&& decodes_keycode(e.key_code, n.key_code)
    &&& e.char_code == n.char_code
    &&& e.key_repeat == n.key_repeat
    &&& e.modifiers.bits == n.modifiers
    &&& decodes_mouse_button(e.mouse_button, n.mouse_button)
    &&& e.mouse_x == n.mouse_x
    &&& e.mouse_y == n.mouse_y
    &&& e.scroll_x == n.scroll_x
    &&& e.scroll_y == n.scroll_y
    &&& e.num_touches == n.num_touches
    &&& e.touches == n.touches
    &&& e.window_width == n.window_width
    &&& e.window_height == n.window_height
    &&& e.framebuffer_width == n.framebuffer_width
    &&& e.framebuffer_height == n.framebuffer_height
}

fn decode_event_type(v: i32) -> (t: SAppEventType)
    ensures
        decodes_event_type(t, v),
{
    match SAppEventType::from_raw(v) {
        Some(t) => t,
        None => SAppEventType::Invalid,
    }
}

fn decode_keycode(v: i32) -> (k: SAppKeycode)
    ensures
        decodes_keycode(k, v),
{
    match SAppKeycode::from_raw(v) {
        Some(k) => k,
        None => SAppKeycode::KeyInvalid,
    }
}

fn decode_mouse_button(v: i32) -> (b: SAppMouseButton)
    ensures
        decodes_mouse_button(b, v),
{
    match SAppMouseButton::from_raw(v) {
        Some(b) => b,
        None => SAppMouseButton::Invalid,
    }
}

impl SAppEvent {
    /// The native form of `event`.
    pub fn translate(event: &super::SAppEvent) -> (r: Self)
        ensures
            native_event_of(r, *event),
    {
        SAppEvent {
            frame_count: event.frame_count,
            event_type: event.event_type.raw(),
            key_code: event.key_code.raw(),
            char_code: event.char_code,
            key_repeat: event.key_repeat,
            modifiers: event.modifiers.bits,
            mouse_button: event.mouse_button.raw(),
            mouse_x: event.mouse_x,
            mouse_y: event.mouse_y,
            scroll_x: event.scroll_x,
            scroll_y: event.scroll_y,
            num_touches: event.num_touches,
            touches: event.touches,
            window_width: event.window_width,
            window_height: event.window_height,
            framebuffer_width: event.framebuffer_width,
            framebuffer_height: event.framebuffer_height,
        }
    }

    /// The event that this native event stands for. A number that names no
    /// event type, key or button becomes the corresponding invalid variant.
    pub fn to_app_event(&self) -> (r: super::SAppEvent)
        ensures
            app_event_of(r, *self),
    {
        super::SAppEvent {
            frame_count: self.frame_count,
            event_type: decode_event_type(self.event_type),
            key_code: decode_keycode(self.key_code),
            char_code: self.char_code,
            key_repeat: self.key_repeat,
            modifiers: SAppModifier { bits: self.modifiers },
            mouse_button: decode_mouse_button(self.mouse_button),
            mouse_x: self.mouse_x,
            mouse_y: self.mouse_y,
            scroll_x: self.scroll_x,
            scroll_y: self.scroll_y,
            num_touches: self.num_touches,
            touches: self.touches,
            window_width: self.window_width,
            window_height: self.window_height,
            framebuffer_width: self.framebuffer_width,
            framebuffer_height: self.framebuffer_height,
        }
    }
}

/// The application settings as the native library reads them. The callback
/// entry points, the handle of the application, the allocator and the
/// logger, which only the native side can fill, come in at the native call.
#[derive(Debug)]
pub struct SAppDesc {
    pub width: i32,
    pub height: i32,
    pub sample_count: i32,
    pub swap_interval: i32,
    pub high_dpi: bool,
    pub fullscreen: bool,
    pub alpha: bool,
    pub window_title: Vec<u8>,
    pub enable_clipboard: bool,
    pub clipboard_size: i32,
    pub enable_dragndrop: bool,
    pub max_dropped_files: i32,
    pub max_dropped_file_path_length: i32,
    pub icon: SAppIconDesc,
    pub gl_force_gles2: bool,
    pub gl_major_version: i32,
    pub gl_minor_version: i32,
    pub win32_console_utf8: bool,
    pub win32_console_create: bool,
    pub win32_console_attach: bool,
    pub html5_canvas_name: Vec<u8>,
    pub html5_canvas_resize: bool,
    pub html5_preserve_drawing_buffer: bool,
    pub html5_premultiplied_alpha: bool,
    pub html5_ask_leave_site: bool,
    pub ios_keyboard_resizes_canvas: bool,
}

/// Whether `d` carries every setting of `desc`, strings in the native form.
pub open spec fn app_desc_kept(d: SAppDesc, desc: super::SAppDesc) -> bool {
    &&& d.width == desc.width
    &&& d.height == desc.height
    &&& d.sample_count == desc.sample_count
    &&& d.swap_interval == desc.swap_interval
    &&& d.high_dpi == desc.high_dpi
    &&& d.fullscreen == desc.fullscreen
    &&& d.alpha == desc.alpha
    &&& d.window_title@ == c_string_of(desc.window_title@)
    &&& d.enable_clipboard == desc.enable_clipboard
    &&& d.clipboard_size == desc.clipboard_size
    &&& d.enable_dragndrop == desc.enable_dragndrop
    &&& d.max_dropped_files == desc.max_dropped_files
    &&& d.max_dropped_file_path_length == desc.max_dropped_file_path_length
    &&& d.icon == desc.icon
    &&& d.gl_force_gles2 == desc.gl_force_gles2
    &&& d.gl_major_version == desc.gl_major_version
    &&& d.gl_minor_version == desc.gl_minor_version
    &&& d.win32_console_utf8 == desc.win32_console_utf8
    &&& d.win32_console_create == desc.win32_console_create
    &&& d.win32_console_attach == desc.win32_console_attach
    &&& d.html5_canvas_name@ == c_string_of(desc.html5_canvas_name@)
    &&& d.html5_canvas_resize == desc.html5_canvas_resize
    &&& d.html5_preserve_drawing_buffer == desc.html5_preserve_drawing_buffer
    &&& d.html5_premultiplied_alpha == desc.html5_premultiplied_alpha
    &&& d.html5_ask_leave_site == desc.html5_ask_leave_site
    &&& d.ios_keyboard_resizes_canvas == desc.ios_keyboard_resizes_canvas
}

/// Lays out the settings of `app`. Fails where the window title or the
/// canvas name holds a NUL.
pub fn sapp_make_desc<S: SApp>(app: &SAppImpl<S>) -> (r: Result<SAppDesc, MarshalError>)
    ensures
        r is Ok <==> fits_c_string(app.desc.window_title@) && fits_c_string(
            app.desc.html5_canvas_name@,
        ),
        match r {
            Ok(d) => app_desc_kept(d, app.desc),
            Err(e) => e == MarshalError::InteriorNul,
        },
{
    let desc = &app.desc;
    let window_title = c_string(desc.window_title.as_str())?;
    let html5_canvas_name = c_string(desc.html5_canvas_name.as_str())?;
    Ok(
        SAppDesc {
            width: desc.width,
            height: desc.height,
            sample_count: desc.sample_count,
            swap_interval: desc.swap_interval,
            high_dpi: desc.high_dpi,
            fullscreen: desc.fullscreen,
            alpha: desc.alpha,
            window_title,
            enable_clipboard: desc.enable_clipboard,
            clipboard_size: desc.clipboard_size,
            enable_dragndrop: desc.enable_dragndrop,
            max_dropped_files: desc.max_dropped_files,
            max_dropped_file_path_length: desc.max_dropped_file_path_length,
            icon: desc.icon,
            gl_force_gles2: desc.gl_force_gles2,
            gl_major_version: desc.gl_major_version,
            gl_minor_version: desc.gl_minor_version,
            win32_console_utf8: desc.win32_console_utf8,
            win32_console_create: desc.win32_console_create,
            win32_console_attach: desc.win32_console_attach,
            html5_canvas_name,
            html5_canvas_resize: desc.html5_canvas_resize,
            html5_preserve_drawing_buffer: desc.html5_preserve_drawing_buffer,
            html5_premultiplied_alpha: desc.html5_premultiplied_alpha,
            html5_ask_leave_site: desc.html5_ask_leave_site,
            ios_keyboard_resizes_canvas: desc.ios_keyboard_resizes_canvas,
        },
    )
}

/// The native init callback: hands it to the application's handler, once.
pub fn init_userdata_cb<S: SApp>(app: &mut SAppImpl<S>)
    ensures
        final(app).callbacks.received() == old(app).callbacks.received().push(SAppCall::Init),
        final(app).desc == old(app).desc,
{
    app.init_cb();
}

/// The native frame callback: hands it to the application's handler, once.
pub fn frame_userdata_cb<S: SApp>(app: &mut SAppImpl<S>)
    ensures
        final(app).callbacks.received() == old(app).callbacks.received().push(SAppCall::Frame),
        final(app).desc == old(app).desc,
{
    app.frame_cb();
}

/// The native cleanup callback: hands it to the application's handler, once.
pub fn cleanup_userdata_cb<S: SApp>(app: &mut SAppImpl<S>)
    ensures
        final(app).callbacks.received() == old(app).callbacks.received().push(SAppCall::Cleanup),
        final(app).desc == old(app).desc,
{
    app.cleanup_cb();
}

/// The native event callback: hands the event that `event` stands for to
/// the application's handler, once.
pub fn event_userdata_cb<S: SApp>(event: &SAppEvent, app: &mut SAppImpl<S>)
    ensures
        exists|e: super::SAppEvent|
            #![trigger app_event_of(e, *event)]
            app_event_of(e, *event) && final(app).callbacks.received() == old(app).callbacks.received().push(
                SAppCall::Event(e),
            ),
        final(app).desc == old(app).desc,
{
    let e = event.to_app_event();
    app.event_cb(e);
    assert(app_event_of(e, *event) && app.callbacks.received() == old(
        app,
    ).callbacks.received().push(SAppCall::Event(e)));
}

/// The native error callback: hands the message to the application's
/// handler, once.
pub fn fail_userdata_cb<S: SApp>(message: &str, app: &mut SAppImpl<S>)
    ensures
        final(app).callbacks.received() == old(app).callbacks.received().push(SAppCall::Fail(Ghost(message@))),
        final(app).desc == old(app).desc,
{
    app.fail_cb(message);
}

/// The native audio callback: hands the buffer to the application's
/// handler, once.
pub fn stream_userdata_cb<S: SApp>(
    buffer: &mut [u32],
    num_frames: i32,
    num_channels: i32,
    app: &mut SAppImpl<S>,
)
    ensures
        final(app).callbacks.received() == old(app).callbacks.received().push(SAppCall::Stream { num_frames, num_channels }),
        final(app).desc == old(app).desc,
{
    app.stream_cb(buffer, num_frames, num_channels);
}

/// No two event types share a native number.
pub proof fn lemma_event_type_raw_injective(a: SAppEventType, b: SAppEventType)
    requires
        a.spec_raw() == b.spec_raw(),
    ensures
        a == b,
{
}

/// No two keys share a native number.
pub proof fn lemma_keycode_raw_injective(a: SAppKeycode, b: SAppKeycode)
    requires
        a.spec_raw() == b.spec_raw(),
    ensures
        a == b,
{
}

/// No two mouse buttons share a native number.
pub proof fn lemma_mouse_button_raw_injective(a: SAppMouseButton, b: SAppMouseButton)
    requires
        a.spec_raw() == b.spec_raw(),
    ensures
        a == b,
{
}

/// An event handed to the native library and delivered back is the same
/// event, field for field.
pub proof fn lemma_event_round_trip(e: super::SAppEvent, n: SAppEvent, back: super::SAppEvent)
    requires
        native_event_of(n, e),
        app_event_of(back, n),
    ensures
        back == e,
{
    lemma_event_type_raw_injective(back.event_type, e.event_type);
    lemma_keycode_raw_injective(back.key_code, e.key_code);
    lemma_mouse_button_raw_injective(back.mouse_button, e.mouse_button);
}

} // verus!
