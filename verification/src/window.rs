//! The window handle: the client size it was created with, the native
//! handle, and the state that the window procedure updates.

use vstd::prelude::*;

use crate::error::WindowError;
use crate::event::Event;
use crate::geometry::{clamp_client_size, clamped, Rect};
use crate::message::Notification;
use crate::registry::ClassRegistry;
use crate::router::{reply_to, Reply, WindowData, WindowState};
use crate::style::{
    get_window_style, style_flags, style_supported, Style, StyleError, StyleRequest,
};
use crate::text::{wide_string, wide_title};

verus! {

/// A window as a mathematical value.
pub struct WindowView {
    /// Width of the client area, as asked for at creation.
    pub client_width: i32,
    /// Height of the client area, as asked for at creation.
    pub client_height: i32,
    /// The native window handle; never zero.
    pub handle: usize,
    /// The close flag and the current batch of events.
    pub state: WindowState,
}

/// The style that a window is created with.
pub const DEFAULT_STYLE: Style = Style::Regular;

/// What creating a window asks of the platform, as far as it is known
/// before the platform is asked anything: the client rectangle to grow by
/// the decorations, the style bits, and the title.
#[derive(Debug, PartialEq, Eq)]
pub struct CreateParams {
    pub client: Rect,
    pub style: u32,
    pub title: Vec<u16>,
}

impl CreateParams {
    /// Prepares the creation of a window with a client area of `width` by
    /// `height` under the given title.
    ///
    /// Each dimension is limited to what a window coordinate can hold, the
    /// style is the default one, and the title is encoded as
    /// null-terminated UTF-16.
    pub fn new(width: u32, height: u32, title: &str) -> (params: CreateParams)
        ensures
            params.client == (Rect {
                left: 0,
                top: 0,
                right: clamped(width as int, 0, i32::MAX as int) as i32,
                bottom: clamped(height as int, 0, i32::MAX as int) as i32,
            }),
            params.style == style_flags(DEFAULT_STYLE),
            params.title@ == wide_string(title@),
    {
        let client: Rect = Rect::client(clamp_client_size(width), clamp_client_size(height));
        let style: u32 = match get_window_style(DEFAULT_STYLE) {
            Ok(flags) => flags,
            Err(_) => unreached(),
        };
        CreateParams { client, style, title: wide_title(title) }
    }
}

/// The handle of a native window. It is never zero.
#[derive(Clone, Copy, Debug)]
pub struct NativeHandle {
    raw: usize,
}

impl View for NativeHandle {
    type V = usize;

    closed spec fn view(&self) -> usize {
        self.raw
    }
}

impl NativeHandle {
    #[verifier::type_invariant]
    closed spec fn inv(self) -> bool {
        self.raw != 0
    }

    /// Wraps what the platform returned as a window handle; zero is no
    /// handle.
    pub fn new(raw: usize) -> (handle: Option<NativeHandle>)
        ensures
            raw == 0 <==> handle is None,
            handle matches Some(h) ==> h@ == raw,
    {
        if raw == 0 {
            None
        } else {
            Some(NativeHandle { raw })
        }
    }

    /// The handle as the platform knows it.
    pub fn get(&self) -> (raw: usize)
        ensures
            raw == self@,
            raw != 0,
    {
        proof {
            use_type_invariant(self);
        }
        self.raw
    }
}

/// One native window: its client size, its handle and its event state.
#[derive(Debug)]
pub struct WindowImpl {
    client_width: i32,
    client_height: i32,
    extra: WindowData,
    hwnd: NativeHandle,
}

impl View for WindowImpl {
    type V = WindowView;

    closed spec fn view(&self) -> WindowView {
        WindowView {
            client_width: self.client_width,
            client_height: self.client_height,
            handle: self.hwnd@,
            state: self.extra@,
        }
    }
}

impl WindowImpl {
    /// Completes the creation of a window from what the platform answered:
    /// `handle` is the native handle it returned, zero for none, and `code`
    /// the error code to report in that case.
    ///
    /// With a handle, the window starts with the requested client size (each
    /// dimension limited to what a window coordinate can hold), no events and
    /// no close request, and it is counted in the registry. Without one, the
    /// creation fails with the code and the registry is left alone.
    pub fn new(
        width: u32,
        height: u32,
        handle: usize,
        code: u32,
        registry: &mut ClassRegistry,
    ) -> (window: Result<WindowImpl, WindowError>)
        requires
            handle != 0 ==> old(registry)@.class is Some && old(registry)@.live < usize::MAX,
        ensures
            handle == 0 ==> window == Err::<WindowImpl, WindowError>(
                WindowError::WindowCreationFailed(code),
            ) && final(registry)@ == old(registry)@,
            handle != 0 ==> window is Ok && window->Ok_0@ == (WindowView {
                client_width: clamped(width as int, 0, i32::MAX as int) as i32,
                client_height: clamped(height as int, 0, i32::MAX as int) as i32,
                handle: handle,
                state: WindowState::fresh(),
            }) && final(registry)@ == old(registry)@.add_window() && final(registry)@.wf(),
    {
        match NativeHandle::new(handle) {
            None => Err(WindowError::WindowCreationFailed(code)),
            Some(hwnd) => {
                let client_width: i32 = clamp_client_size(width);
                let client_height: i32 = clamp_client_size(height);
                registry.add_window();
                Ok(WindowImpl { client_width, client_height, extra: WindowData::default(), hwnd })
            },
        }
    }

    /// The native window handle, for whoever attaches a surface to it.
    pub fn handle(&self) -> (handle: usize)
        ensures
            handle == self@.handle,
            handle != 0,
    {
        self.hwnd.get()
    }

    /// The size of the client area, whatever the decorations add around it.
    pub fn client_size(&self) -> (size: (i32, i32))
        ensures
            size.0 == self@.client_width,
            size.1 == self@.client_height,
    {
        (self.client_width, self.client_height)
    }

    /// Whether closing the window was requested.
    pub fn close_requested(&self) -> (requested: bool)
        ensures
            requested == self@.state.close_requested,
    {
        self.extra.close_requested()
    }

    /// Requests closing on behalf of the application. Only the flag changes:
    /// no event is queued.
    pub fn request_close(&mut self)
        ensures
            final(self)@ == (WindowView { state: old(self)@.state.request_close(), ..old(self)@ }),
    {
        self.extra.request_close();
    }

    /// The events gathered since the current poll began, oldest first.
    pub fn events(&self) -> (events: &Vec<Event>)
        ensures
            events@ == self@.state.events,
    {
        self.extra.events()
    }

    /// Starts a poll: the batch of the previous poll is dropped.
    pub fn begin_poll(&mut self)
        ensures
            final(self)@ == (WindowView { state: old(self)@.state.begin_poll(), ..old(self)@ }),
    {
        self.extra.begin_poll();
    }

    /// Handles one notification that the platform delivered to this window.
    pub fn route(&mut self, note: Notification) -> (reply: Reply)
        ensures
            final(self)@ == (WindowView { state: old(self)@.state.route(note), ..old(self)@ }),
            reply == reply_to(note),
    {
        self.extra.route(note)
    }

    /// Runs one whole poll over the notifications that are pending: drops the
    /// previous batch, routes each notification in order, and returns the
    /// answers owed to the platform, one per notification.
    ///
    /// The batch is then read with `events`.
    pub fn process_events(&mut self, pending: &[Notification]) -> (replies: Vec<Reply>)
        ensures
            final(self)@ == (WindowView { state: old(self)@.state.poll(pending@), ..old(self)@ }),
            replies@ == pending@.map_values(|note: Notification| reply_to(note)),
    {
        self.begin_poll();
        let mut replies: Vec<Reply> = Vec::new();
        let mut i: usize = 0;
        while i < pending.len()
            invariant
                i <= pending.len(),
                self@ == (WindowView {
                    state: old(self)@.state.begin_poll().route_all(pending@.take(i as int)),
                    ..old(self)@
                }),
                replies@ == pending@.take(i as int).map_values(|note: Notification| reply_to(note)),
            decreases pending.len() - i,
        {
            let reply: Reply = self.route(pending[i]);
            replies.push(reply);
            proof {
                assert(pending@.take(i + 1).drop_last() =~= pending@.take(i as int));
                assert(pending@.take(i + 1).last() == pending@[i as int]);
                assert(pending@.take(i + 1).map_values(|note: Notification| reply_to(note))
                    =~= pending@.take(i as int).map_values(|note: Notification| reply_to(note)).push(
                    reply_to(pending@[i as int]),
                ));
            }
            i = i + 1;
        }
        proof {
            assert(pending@.take(pending.len() as int) =~= pending@);
        }
        replies
    }

    /// The rectangle of the client area, with its corner at the origin.
    pub fn client_rect(&self) -> (rect: Rect)
        ensures
            rect == (Rect {
                left: 0,
                top: 0,
                right: self@.client_width,
                bottom: self@.client_height,
            }),
    {
        Rect::client(self.client_width, self.client_height)
    }

    /// Works out what restyling the window asks of the platform: the bits of
    /// the new style, and the client rectangle to grow by the new
    /// decorations. The window itself does not change. A style without an
    /// implementation is refused.
    pub fn style_request(&self, style: Style) -> (request: Result<StyleRequest, StyleError>)
        ensures
            style_supported(style) ==> request == Ok::<StyleRequest, StyleError>(
                StyleRequest {
                    flags: style_flags(style),
                    client: Rect {
                        left: 0,
                        top: 0,
                        right: self@.client_width,
                        bottom: self@.client_height,
                    },
                },
            ),
            !style_supported(style) ==> request == Err::<StyleRequest, StyleError>(
                StyleError::Unsupported,
            ),
    {
        match get_window_style(style) {
            Ok(flags) => Ok(StyleRequest { flags, client: self.client_rect() }),
            Err(error) => Err(error),
        }
    }

    /// Ends the life of the window: takes it off the registry's count.
    ///
    /// Returns the atom of the class to unregister exactly when this was the
    /// last window that the registry counted. The native window must be gone
    /// before the state handed in here is dropped.
    pub fn destroy(self, registry: &mut ClassRegistry) -> (unregister: Option<u16>)
        ensures
            final(registry)@ == old(registry)@.release(),
            final(registry)@.wf(),
            unregister is Some <==> old(registry)@.releases_last(),
            unregister is Some ==> unregister == old(registry)@.class,
    {
        registry.release()
    }
}

} // verus!
