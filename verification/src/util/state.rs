//! The record that is kept of each window pair and its snapshot, the
//! persisted configuration, and the state that holds them together.

use vstd::prelude::*;
use vstd::string::*;
use crate::conf::{AppConfig, AppConfigBuilder, EmptyConfig};
use crate::error::Error;
use crate::registry::{added, has_label, record, registry_wf, removed, Registry};
use crate::view::event::UpdateState;

verus! {

/// The name of the configuration file.
pub const CONFIGFILE_NAME: &'static str = "relaisrc.toml";

/// The smallest zoom, in percent.
pub const ZOOM_MIN: u32 = 20;

/// The largest zoom, in percent.
pub const ZOOM_MAX: u32 = 500;

/// The zoom of a new content window, in percent.
pub const ZOOM_DEFAULT: u32 = 100;

/// The alpha that a new record remembers for its overlay mode.
pub const ALPHA_DEFAULT: u8 = 127;

/// The alpha at which a window is opaque: overlay mode is off.
pub const ALPHA_OPAQUE: u8 = 255;

/// What the style of a content window shows: overlay flag and alpha, pin,
/// pointer passthrough, mobile user agent.
pub type Status = ((bool, u8), bool, bool, bool);

/// A record of a window pair as plain values: the model of both
/// [`WindowData`] and [`SWindowData`].
pub ghost struct WindowView {
    pub title: Seq<char>,
    pub label: Seq<char>,
    pub url: Seq<char>,
    pub pointer_ignore: bool,
    pub mobile_mode: bool,
    pub transparent: (bool, u8),
    pub pin: bool,
    pub zoom: u32,
}

impl WindowView {
    /// The record of a pair that was just created.
    pub open spec fn fresh(title: Seq<char>, label: Seq<char>, url: Seq<char>) -> WindowView {
        WindowView {
            title,
            label,
            url,
            pointer_ignore: false,
            mobile_mode: false,
            transparent: (false, ALPHA_DEFAULT),
            pin: false,
            zoom: ZOOM_DEFAULT,
        }
    }

    /// The zoom lies within its bounds.
    pub open spec fn wf(self) -> bool {
        ZOOM_MIN <= self.zoom <= ZOOM_MAX
    }

    /// The four style states that the control window shows.
    pub open spec fn status(self) -> Status {
        (self.transparent, self.pin, self.pointer_ignore, self.mobile_mode)
    }
}

/// The live record of one window pair.
///
/// The label names the content window and never changes. Each style state
/// is changed on its own, and only to a value that the window already
/// shows. The zoom always lies within [`ZOOM_MIN`] and [`ZOOM_MAX`].
#[derive(Debug)]
pub struct WindowData {
    pub(crate) title: String,
    pub(crate) label: String,
    pub(crate) url: String,
    pub(crate) pointer_ignore: bool,
    pub(crate) mobile_mode: bool,
    pub(crate) transparent: (bool, u8),
    pub(crate) pin: bool,
    pub(crate) zoom: u32,
}

impl View for WindowData {
    type V = WindowView;

    closed spec fn view(&self) -> WindowView {
        WindowView {
            title: self.title@,
            label: self.label@,
            url: self.url@,
            pointer_ignore: self.pointer_ignore,
            mobile_mode: self.mobile_mode,
            transparent: self.transparent,
            pin: self.pin,
            zoom: self.zoom,
        }
    }
}

impl WindowData {
    #[verifier::type_invariant]
    pub(crate) closed spec fn inv(self) -> bool {
        ZOOM_MIN <= self.zoom <= ZOOM_MAX
    }

    /// The guarantee of the type, said of the model.
    pub(crate) proof fn lemma_inv(self)
        requires
            self.inv(),
        ensures
            self@.wf(),
    {
    }

    /// The record of a new pair: no style set, zoom at 100 percent.
    pub fn new(title: String, label: String, url: String) -> (r: Self)
        ensures
            r@ == WindowView::fresh(title@, label@, url@),
    {
        WindowData {
            title,
            label,
            url,
            pointer_ignore: false,
            mobile_mode: false,
            transparent: (false, ALPHA_DEFAULT),
            pin: false,
            zoom: ZOOM_DEFAULT,
        }
    }

    /// The title of the content window.
    pub fn title(&self) -> (r: &String)
        ensures
            r@ == self@.title,
    {
        &self.title
    }

    /// The label of the content window.
    pub fn label(&self) -> (r: &String)
        ensures
            r@ == self@.label,
    {
        &self.label
    }

    /// The address that the content window was opened on.
    pub fn url(&self) -> (r: &String)
        ensures
            r@ == self@.url,
    {
        &self.url
    }

    /// Whether the content window lets pointer input pass through.
    pub fn pointer_ignore(&self) -> (r: bool)
        ensures
            r == self@.pointer_ignore,
    {
        self.pointer_ignore
    }

    /// Whether the content window presents the mobile user agent.
    pub fn mobile_mode(&self) -> (r: bool)
        ensures
            r == self@.mobile_mode,
    {
        self.mobile_mode
    }

    /// Whether overlay mode is on, and the alpha last used for it.
    pub fn transparent(&self) -> (r: (bool, u8))
        ensures
            r == self@.transparent,
    {
        self.transparent
    }

    /// Whether the content window stays on top.
    pub fn pin(&self) -> (r: bool)
        ensures
            r == self@.pin,
    {
        self.pin
    }

    /// The zoom in percent.
    pub fn zoom(&self) -> (r: u32)
        ensures
            r == self@.zoom,
            self@.wf(),
    {
        proof {
            use_type_invariant(self);
        }
        self.zoom
    }
}

impl WindowData {
    /// The same record with the pin set to `value`.
    pub(crate) fn with_pin(self, value: bool) -> (r: Self)
        ensures
            r@ == (WindowView { pin: value, ..self@ }),
    {
        proof {
            use_type_invariant(&self);
        }
        WindowData { pin: value, ..self }
    }

    /// The same record with pointer passthrough set to `value`.
    pub(crate) fn with_pointer_ignore(self, value: bool) -> (r: Self)
        ensures
            r@ == (WindowView { pointer_ignore: value, ..self@ }),
    {
        proof {
            use_type_invariant(&self);
        }
        WindowData { pointer_ignore: value, ..self }
    }

    /// The same record with the mobile user agent switched to `value`.
    pub(crate) fn with_mobile_mode(self, value: bool) -> (r: Self)
        ensures
            r@ == (WindowView { mobile_mode: value, ..self@ }),
    {
        proof {
            use_type_invariant(&self);
        }
        WindowData { mobile_mode: value, ..self }
    }

    /// The same record with overlay mode and its alpha set to `value`.
    pub(crate) fn with_transparent(self, value: (bool, u8)) -> (r: Self)
        ensures
            r@ == (WindowView { transparent: value, ..self@ }),
    {
        proof {
            use_type_invariant(&self);
        }
        WindowData { transparent: value, ..self }
    }

    /// The same record with the zoom set to `value`.
    pub(crate) fn with_zoom(self, value: u32) -> (r: Self)
        requires
            ZOOM_MIN <= value <= ZOOM_MAX,
        ensures
            r@ == (WindowView { zoom: value, ..self@ }),
    {
        WindowData { zoom: value, ..self }
    }
}

impl Clone for WindowData {
    fn clone(&self) -> (r: Self)
        ensures
            r@ == self@,
    {
        proof {
            use_type_invariant(self);
        }
        WindowData {
            title: self.title.clone(),
            label: self.label.clone(),
            url: self.url.clone(),
            pointer_ignore: self.pointer_ignore,
            mobile_mode: self.mobile_mode,
            transparent: self.transparent,
            pin: self.pin,
            zoom: self.zoom,
        }
    }
}

/// The snapshot of a record: what is persisted and what the user interface
/// is sent.
#[derive(Debug)]
pub struct SWindowData {
    pub title: String,
    pub label: String,
    pub url: String,
    pub pointer_ignore: bool,
    pub mobile_mode: bool,
    pub transparent: (bool, u8),
    pub pin: bool,
    pub zoom: u32,
}

impl View for SWindowData {
    type V = WindowView;

    open spec fn view(&self) -> WindowView {
        WindowView {
            title: self.title@,
            label: self.label@,
            url: self.url@,
            pointer_ignore: self.pointer_ignore,
            mobile_mode: self.mobile_mode,
            transparent: self.transparent,
            pin: self.pin,
            zoom: self.zoom,
        }
    }
}

impl Clone for SWindowData {
    fn clone(&self) -> (r: Self)
        ensures
            r@ == self@,
    {
        SWindowData {
            title: self.title.clone(),
            label: self.label.clone(),
            url: self.url.clone(),
            pointer_ignore: self.pointer_ignore,
            mobile_mode: self.mobile_mode,
            transparent: self.transparent,
            pin: self.pin,
            zoom: self.zoom,
        }
    }
}

impl WindowData {
    /// The snapshot of the record as it stands.
    pub fn snapshot(&self) -> (r: SWindowData)
        ensures
            r@ == self@,
    {
        SWindowData::from(self)
    }
}

impl<'a> From<&'a WindowData> for SWindowData {
    fn from(v: &'a WindowData) -> (r: SWindowData)
        ensures
            r@ == v@,
    {
        SWindowData {
            title: v.title.clone(),
            label: v.label.clone(),
            url: v.url.clone(),
            pointer_ignore: v.pointer_ignore,
            mobile_mode: v.mobile_mode,
            transparent: v.transparent,
            pin: v.pin,
            zoom: v.zoom,
        }
    }
}

impl<'a> vstd::std_specs::convert::FromSpecImpl<&'a WindowData> for SWindowData {
    open spec fn obeys_from_spec() -> bool {
        true
    }

    closed spec fn from_spec(v: &'a WindowData) -> SWindowData {
        SWindowData {
            title: v.title,
            label: v.label,
            url: v.url,
            pointer_ignore: v.pointer_ignore,
            mobile_mode: v.mobile_mode,
            transparent: v.transparent,
            pin: v.pin,
            zoom: v.zoom,
        }
    }
}

/// The models of a list of snapshots.
pub open spec fn snapshot_views(v: Seq<SWindowData>) -> Seq<WindowView> {
    Seq::new(v.len(), |i: int| v[i]@)
}

/// The shortcut that a configuration starts with.
pub const SHORTCUT_DEFAULT: &'static str = "ctrl+alt+r";

/// The persisted configuration: the global settings and the window pairs
/// that were open.
#[derive(Debug)]
pub struct Conf {
    pub agent_desktop: String,
    pub agent_mobile: String,
    pub shortcut_key: String,
    pub windows: Vec<SWindowData>,
}

/// A configuration as plain values.
pub ghost struct ConfView {
    pub agent_desktop: Seq<char>,
    pub agent_mobile: Seq<char>,
    pub shortcut_key: Seq<char>,
    pub windows: Seq<WindowView>,
}

impl View for Conf {
    type V = ConfView;

    open spec fn view(&self) -> ConfView {
        ConfView {
            agent_desktop: self.agent_desktop@,
            agent_mobile: self.agent_mobile@,
            shortcut_key: self.shortcut_key@,
            windows: snapshot_views(self.windows@),
        }
    }
}

impl ConfView {
    /// The configuration of a first run.
    pub open spec fn initial() -> ConfView {
        ConfView {
            agent_desktop: Seq::empty(),
            agent_mobile: Seq::empty(),
            shortcut_key: SHORTCUT_DEFAULT@,
            windows: Seq::empty(),
        }
    }
}

impl Conf {
    /// The configuration of a first run: no user agent known yet, the
    /// default shortcut, no window pair.
    pub fn new() -> (r: Self)
        ensures
            r@ == ConfView::initial(),
    {
        let r = Conf {
            agent_desktop: String::new(),
            agent_mobile: String::new(),
            shortcut_key: String::from_str(SHORTCUT_DEFAULT),
            windows: Vec::new(),
        };
        assert(snapshot_views(r.windows@) =~= Seq::<WindowView>::empty());
        r
    }
}

impl Default for Conf {
    fn default() -> (r: Self)
        ensures
            r@ == ConfView::initial(),
    {
        Conf::new()
    }
}

/// The state of the shell: the configuration store and the registry of the
/// window pairs.
#[derive(Debug)]
pub struct AppState<T = Conf> {
    pub config: AppConfig<T>,
    pub windows: Registry,
}

impl<T> AppState<T> {
    /// The state at start: the store that `f` makes of a fresh builder for
    /// the file at `config_path`, and no window pair.
    pub fn new<F: FnOnce(AppConfigBuilder<EmptyConfig>) -> AppConfigBuilder<T>>(
        config_path: &str,
        f: F,
    ) -> (r: Self)
        requires
            forall|b: AppConfigBuilder<EmptyConfig>| call_requires(f, (b,)),
        ensures
            r.windows@ == Seq::<WindowView>::empty(),
            exists|b: AppConfigBuilder<EmptyConfig>, made: AppConfigBuilder<T>|
                b.path() == config_path@ && call_ensures(f, (b,), made) && r.config.path()
                    == made.path() && r.config.document() == made.document(),
    {
        let b = AppConfig::<T>::open(config_path);
        let made = f(b);
        AppState { config: made.build(), windows: Registry::new() }
    }

    /// Enters the record of a new pair; `DuplicateLabel` where the label is
    /// taken, and nothing changes.
    pub fn add_window(&mut self, window: WindowData) -> (r: Result<(), Error>)
        ensures
            final(self).windows@ == added(old(self).windows@, window@),
            final(self).config == old(self).config,
            r == if has_label(old(self).windows@, window@.label) {
                Err::<(), Error>(Error::DuplicateLabel)
            } else {
                Ok::<(), Error>(())
            },
            registry_wf(final(self).windows@),
    {
        self.windows.add(window)
    }

    /// Takes the record with the label out; `NotFound` where no pair has
    /// the label, and nothing changes.
    pub fn remove_window(&mut self, label: &str) -> (r: Result<(), Error>)
        ensures
            final(self).windows@ == removed(old(self).windows@, label@),
            final(self).config == old(self).config,
            r == if has_label(old(self).windows@, label@) {
                Ok::<(), Error>(())
            } else {
                Err::<(), Error>(Error::NotFound)
            },
            registry_wf(final(self).windows@),
    {
        self.windows.remove(label)
    }

    /// A copy of the record with the label as it stands now, if a pair has
    /// the label.
    pub fn get_window_data(&self, label: &str) -> (r: Option<WindowData>)
        ensures
            match r {
                Some(w) => has_label(self.windows@, label@) && w@ == record(self.windows@, label@)
                    && w@.wf(),
                None => !has_label(self.windows@, label@),
            },
            registry_wf(self.windows@),
    {
        self.windows.get(label)
    }

    /// The snapshot of every record, in the order of the registry.
    pub fn get_windows(&self) -> (r: Vec<SWindowData>)
        ensures
            snapshot_views(r@) == self.windows@,
            registry_wf(self.windows@),
    {
        self.windows.snapshot()
    }

    /// The notification that goes out when the registry has changed.
    pub fn emit_windows(&self) -> (r: UpdateState)
        ensures
            snapshot_views(r.0@) == self.windows@,
    {
        UpdateState(self.windows.snapshot())
    }
}

impl AppState<Conf> {
    /// Brings the window list of the configuration up to the registry. The
    /// global settings stay.
    pub fn write_conf(&mut self)
        ensures
            final(self).config.document()@ == (ConfView {
                windows: old(self).windows@,
                ..old(self).config.document()@
            }),
            final(self).config.path() == old(self).config.path(),
            final(self).windows == old(self).windows,
    {
        let windows = self.windows.snapshot();
        let held = self.config.get();
        let next = Conf {
            agent_desktop: held.agent_desktop.clone(),
            agent_mobile: held.agent_mobile.clone(),
            shortcut_key: held.shortcut_key.clone(),
            windows,
        };
        self.config.set(next);
    }
}

/// The state as the user interface is sent it.
#[derive(Debug)]
pub struct SAppState {
    pub config: String,
    pub windows: Vec<SWindowData>,
}

impl SAppState {
    /// The state as the user interface is sent it: the snapshot of every
    /// record. The configuration is not part of it, and its place is empty.
    pub fn try_from<T>(state: &AppState<T>) -> (r: Result<SAppState, Error>)
        ensures
            r matches Ok(s) && s.config@ == Seq::<char>::empty() && snapshot_views(s.windows@)
                == state.windows@,
    {
        Ok(SAppState { config: String::new(), windows: state.get_windows() })
    }
}

} // verus!
