//! How the shell reacts to what the user and the pages do.

use crate::refresh_state::{RefreshEvent, RefreshTarget};
use crate::refresh_url::refresh_token;
#[allow(unused_imports)]
use crate::refresh_url;
use crate::text::same_text;
#[allow(unused_imports)]
use crate::url_query;
use crate::url_size::is_supported;
use crate::window::WindowSlot;
use url::Url;
use vstd::prelude::*;

verus! {

/// Whether the application starts in glance mode, in which clicks pass through.
pub const GLANCE_AT_START: bool = false;

/// The identifier of the menu entry that quits.
pub const QUIT_ID: &'static str = "quit";

/// What a key event of the shortcut changes.
#[derive(Debug)]
pub struct GlanceChange {
    /// Whether glance mode is on afterwards.
    pub glance: bool,
    /// The windows to be told, each with whether clicks are to pass through it.
    pub updates: Vec<(WindowSlot, bool)>,
}

/// What the end of a page load calls for.
#[derive(Clone, Copy, Debug, PartialEq, Eq, Structural)]
pub struct PageLoad {
    /// Whether the page is to be given the script for moving the window.
    pub install_script: bool,
    /// The event to be sent to the coordinator.
    pub event: Option<RefreshEvent>,
}

/// Whether glance mode is on after a key event of the shortcut.
pub open spec fn toggled(glance: bool, pressed: bool) -> bool {
    if pressed {
        !glance
    } else {
        glance
    }
}

/// The event for a page that has loaded in the window with the given label, under a
/// URL with the given token.
pub open spec fn event_for(label: Seq<char>, token: Option<u64>) -> Option<RefreshEvent> {
    match (WindowSlot::labelled(label), token) {
        (Some(window), Some(token)) => Some(RefreshEvent { window, token }),
        _ => None,
    }
}

/// Whether a page load event calls for reading the page's URL.
pub open spec fn reads_url(finished: bool, label: Seq<char>) -> bool {
    finished && WindowSlot::labelled(label) is Some
}

/// What a page load event calls for.
pub open spec fn page_load_of(finished: bool, label: Seq<char>, url: Url) -> PageLoad {
    PageLoad {
        install_script: finished,
        event: if finished {
            event_for(label, refresh_url::pairs_token(url_query::url_pairs(url)))
        } else {
            None
        },
    }
}

/// Reacts to the shortcut: pressing it toggles glance mode and tells both windows,
/// releasing it changes nothing.
pub fn toggle_glance(glance: bool, pressed: bool) -> (change: GlanceChange)
    ensures
        change.glance == toggled(glance, pressed),
        change.updates@ == (if pressed {
            seq![(WindowSlot::Primary, !glance), (WindowSlot::Buffer, !glance)]
        } else {
            Seq::<(WindowSlot, bool)>::empty()
        }),
{
    let mut updates: Vec<(WindowSlot, bool)> = Vec::new();
    if !pressed {
        return GlanceChange { glance, updates };
    }
    let now = !glance;
    updates.push((WindowSlot::Primary, now));
    updates.push((WindowSlot::Buffer, now));
    GlanceChange { glance: now, updates }
}

/// Returns the event for a page that has loaded, if its window is one of the two and
/// its URL carries a token.
pub fn load_event(label: &str, token: Option<u64>) -> (event: Option<RefreshEvent>)
    ensures
        event == event_for(label@, token),
{
    match (WindowSlot::from_label(label), token) {
        (Some(window), Some(token)) => Some(RefreshEvent { window, token }),
        _ => None,
    }
}

/// Reacts to a page load event of a window: once the load has finished, the script is
/// installed and the coordinator told, if the page belongs to an attempt.
pub fn page_load(finished: bool, label: &str, url: &Url) -> (load: PageLoad)
    requires
        reads_url(finished, label@) ==> url_query::url_supported(*url),
    ensures
        load == page_load_of(finished, label@, *url),
{
    if !finished {
        return PageLoad { install_script: false, event: None };
    }
    match WindowSlot::from_label(label) {
        Some(_) => {
            let token = refresh_token(url);
            PageLoad { install_script: true, event: load_event(label, token) }
        },
        None => PageLoad { install_script: true, event: None },
    }
}

/// Reacts to a page load event of a window, unless its URL has to be read and is too
/// long for that.
pub fn checked_page_load(finished: bool, label: &str, url: &Url) -> (load: Option<PageLoad>)
    ensures
        load is Some == (reads_url(finished, label@) ==> url_query::url_supported(*url)),
        load is Some ==> load->0 == page_load_of(finished, label@, *url),
{
    if finished && WindowSlot::from_label(label).is_some() && !is_supported(url) {
        None
    } else {
        Some(page_load(finished, label, url))
    }
}

/// Tells whether choosing a menu entry quits the application.
pub fn menu_entry_quits(id: &str) -> (quits: bool)
    ensures
        quits == (id@ == QUIT_ID@),
{
    same_text(id, QUIT_ID)
}

/// Toggling twice leaves glance mode as it was.
pub proof fn law_toggling_twice_changes_nothing(glance: bool)
    ensures
        toggled(toggled(glance, true), true) == glance,
        toggled(glance, true) != glance,
{
}

/// The page that an attempt loads reports exactly that attempt: when the refreshed URL
/// of an attempt has loaded in its window, the event is the one the attempt awaits.
pub proof fn law_loaded_page_reports_its_attempt(base: Url, target: RefreshTarget, url: Url)
    requires
        refresh_url::is_refreshed(base, target.token, url),
    ensures
        event_for(
            target.window.label_text(),
            refresh_url::pairs_token(url_query::url_pairs(url)),
        ) == Some(target.loaded()),
{
    refresh_url::law_refreshed_url_carries_token(base, target.token, url);
    crate::window::law_labels_find_their_windows(target.window.label_text(), target.window);
}

/// Releasing the shortcut leaves glance mode as it is.
pub proof fn law_releasing_changes_nothing(glance: bool)
    ensures
        toggled(glance, false) == glance,
{
}

/// An event is told exactly when the label is that of a window and the URL carries a
/// token, any token, and it tells that window and that token.
pub proof fn law_event_tells_window_and_token(
    label: Seq<char>,
    token: Option<u64>,
    event: RefreshEvent,
)
    ensures
        event_for(label, token) == Some(event) <==> label == event.window.label_text() && token
            == Some(event.token),
{
    crate::window::law_labels_find_their_windows(label, event.window);
}

/// A page load event installs the script exactly when the load has finished. It sends an
/// event exactly when, besides, the label is that of a window and the page's URL carries
/// a token, any token, and the event tells that window and that token.
pub proof fn law_finished_loads_are_reported(
    finished: bool,
    label: Seq<char>,
    url: Url,
    event: RefreshEvent,
)
    ensures
        page_load_of(finished, label, url).install_script == finished,
        page_load_of(finished, label, url).event == Some(event) <==> finished && label
            == event.window.label_text() && refresh_url::pairs_token(url_query::url_pairs(url))
            == Some(event.token),
{
    crate::window::law_labels_find_their_windows(label, event.window);
}

/// A URL needs to be read exactly when a load has finished in one of the two windows.
pub proof fn law_urls_are_read_for_finished_loads_of_the_windows(finished: bool, label: Seq<char>)
    ensures
        reads_url(finished, label) <==> finished && (label == "gcal"@ || label == "gcal-buffer"@),
{
}

/// When the refreshed URL of an attempt has finished loading in its window, what is sent
/// is the event that the attempt awaits, and nothing is sent before that.
pub proof fn law_page_load_reports_the_attempt(base: Url, target: RefreshTarget, url: Url)
    requires
        refresh_url::is_refreshed(base, target.token, url),
    ensures
        page_load_of(true, target.window.label_text(), url).event == Some(target.loaded()),
        page_load_of(false, target.window.label_text(), url).event is None,
        target.loaded().window == target.window,
        target.loaded().token == target.token,
{
    refresh_url::law_refreshed_url_carries_token(base, target.token, url);
    crate::window::law_labels_find_their_windows(target.window.label_text(), target.window);
}

} // verus!
