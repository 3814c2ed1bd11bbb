//! The session plan: everything the host needs to build the native window —
//! the pass-through window configuration, the content shown first (splash if
//! configured, main otherwise), whether the bootstrap script is injected, and
//! a dispatcher wired to the resolved main content. Constructing the real
//! window is the host's job; every decision about what goes into it is here.

use vstd::prelude::*;

use crate::content::ContentSource;
use crate::content::content_href;
use crate::content::spec_content_href;
use crate::dispatch::Dispatcher;

verus! {

/// Window geometry and chrome, read from configuration and passed through
/// unchanged to the native window capability.
pub struct WindowConfig {
    pub width: i32,
    pub height: i32,
    pub resizable: bool,
    pub fullscreen: bool,
    pub title: String,
    pub debug: bool,
}

/// The fully planned session: what the window is built with, what it shows
/// first, whether the bootstrap script is scheduled, and the message handler
/// that serves it for its whole life.
pub struct SessionPlan {
    pub window: WindowConfig,
    pub initial_content: ContentSource,
    pub inject_bootstrap: bool,
    pub dispatcher: Dispatcher,
}

/// Plans the session around the resolved main content: with splash markup
/// the window opens on the splash document and schedules the bootstrap
/// script, without it the main content shows immediately; either way the
/// dispatcher knows the main content's address and starts in the right
/// splash state.
pub fn build_webview_plan(
    window: WindowConfig,
    content: ContentSource,
    splashscreen_html: Option<String>,
) -> (p: SessionPlan)
    ensures
        p.window == window,
        p.dispatcher.wf(),
        p.dispatcher.has_splashscreen == splashscreen_html is Some,
        p.dispatcher.main_href@ == spec_content_href(content),
        splashscreen_html is Some ==> p.dispatcher.state is AwaitingInit,
        splashscreen_html is None ==> p.dispatcher.state is ShowingMain,
        p.inject_bootstrap == splashscreen_html is Some,
        splashscreen_html matches Some(h) ==> (p.initial_content matches
            ContentSource::InlineDocument(d) && d@ == h@),
        splashscreen_html is None ==> p.initial_content == content,
{
    let href = content_href(&content).clone();
    let has_splashscreen = splashscreen_html.is_some();
    let dispatcher = Dispatcher::new(has_splashscreen, href);
    match splashscreen_html {
        Some(h) => SessionPlan {
            window,
            initial_content: ContentSource::InlineDocument(h),
            inject_bootstrap: true,
            dispatcher,
        },
        None => SessionPlan {
            window,
            initial_content: content,
            inject_bootstrap: false,
            dispatcher,
        },
    }
}

} // verus!
