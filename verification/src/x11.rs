//! The windowing probe: which properties to ask the server for, in which
//! order, and what the replies mean.
//!
//! The probe does not talk to the server itself. It hands out one
//! [`PropertyQuery`] at a time and is told the reply; the caller owns the
//! connection and performs the round trips.

use vstd::prelude::*;
use crate::clock::{is_utc_stamp, now_rfc3339};
use crate::sampler::{OsContextState, OsContextStateView};
use crate::text::{decode_lossy, fill_unknown, lossy_text, or_unknown, unknown};
use crate::wm_class::{app_name_bytes, class_segment, lemma_class_segment_is_last_run};

verus! {

/// The protocol identifiers that the probe resolves once, when it is built.
#[derive(Debug, Clone, Copy, PartialEq, Eq, Structural)]
pub enum Atom {
    NetActiveWindow,
    NetWmName,
    WmName,
    WmClass,
    Utf8String,
}

impl Atom {
    /// The name under which the server knows this identifier.
    pub open spec fn spec_name(self) -> Seq<char> {
        match self {
            Atom::NetActiveWindow => "_NET_ACTIVE_WINDOW"@,
            Atom::NetWmName => "_NET_WM_NAME"@,
            Atom::WmName => "WM_NAME"@,
            Atom::WmClass => "WM_CLASS"@,
            Atom::Utf8String => "UTF8_STRING"@,
        }
    }

    /// The name to intern for this identifier.
    pub fn name(self) -> (text: &'static str)
        ensures
            text@ == self.spec_name(),
    {
        match self {
            Atom::NetActiveWindow => "_NET_ACTIVE_WINDOW",
            Atom::NetWmName => "_NET_WM_NAME",
            Atom::WmName => "WM_NAME",
            Atom::WmClass => "WM_CLASS",
            Atom::Utf8String => "UTF8_STRING",
        }
    }
}

/// The type that a property is asked for.
#[derive(Debug, Clone, Copy, PartialEq, Eq, Structural)]
pub enum PropertyType {
    /// Whatever type the property has.
    Any,
    /// The predefined string type.
    String,
    /// The predefined window type.
    Window,
    /// A type that was interned, given by its identifier.
    Interned(u32),
}

/// One property request: the arguments of a get-property round trip. The
/// property is never deleted by the request.
#[derive(Debug, Clone, Copy, PartialEq, Eq, Structural)]
pub struct PropertyQuery {
    pub window: u32,
    pub property: u32,
    pub kind: PropertyType,
    pub long_offset: u32,
    pub long_length: u32,
}

/// What a successful get-property round trip returned.
#[derive(Debug, Clone)]
pub struct PropertyReply {
    /// The raw bytes of the property's value.
    pub value: Vec<u8>,
    /// The first item of the value when it is a list of 32-bit items.
    pub first_value32: Option<u32>,
}

/// The application name that a window-class value gives: the text of its
/// last segment that is not empty, or nothing when it has no such segment.
pub open spec fn class_app(class: Seq<u8>) -> Seq<char> {
    if class_segment(class).len() > 0 {
        lossy_text(class_segment(class))
    } else {
        Seq::<char>::empty()
    }
}

/// The window title that the two name properties give: the UTF-8 name if it
/// has a value, else the legacy name if it has one, else nothing.
pub open spec fn resolved_title(utf8_name: Seq<u8>, legacy_name: Seq<u8>) -> Seq<char> {
    if utf8_name.len() > 0 {
        lossy_text(utf8_name)
    } else if legacy_name.len() > 0 {
        lossy_text(legacy_name)
    } else {
        Seq::<char>::empty()
    }
}

/// The bytes of a reply; a failed round trip counts as no bytes.
pub open spec fn reply_value(reply: Option<PropertyReply>) -> Seq<u8> {
    match reply {
        Some(r) => r.value@,
        None => Seq::<u8>::empty(),
    }
}

/// The window that a reply names; a failed round trip names none.
pub open spec fn reply_window(reply: Option<PropertyReply>) -> Option<u32> {
    match reply {
        Some(r) => r.first_value32,
        None => None,
    }
}

/// Where a conversation with the server stands.
#[derive(Debug, Clone)]
pub enum Stage {
    /// Waiting for the root window's active-window property.
    ActiveWindow,
    /// Waiting for the UTF-8 name of `window`.
    Utf8Name { window: u32 },
    /// Waiting for the legacy name of `window`.
    LegacyName { window: u32 },
    /// Waiting for the class of `window`; the title is settled.
    Class { window: u32, title: String },
    /// Nothing left to ask. Either field may be empty.
    Done { app: String, title: String },
}

/// The mathematical content of a [`Stage`].
pub enum StageView {
    ActiveWindow,
    Utf8Name { window: u32 },
    LegacyName { window: u32 },
    Class { window: u32, title: Seq<char> },
    Done { app: Seq<char>, title: Seq<char> },
}

impl View for Stage {
    type V = StageView;

    open spec fn view(&self) -> StageView {
        match *self {
            Stage::ActiveWindow => StageView::ActiveWindow,
            Stage::Utf8Name { window } => StageView::Utf8Name { window },
            Stage::LegacyName { window } => StageView::LegacyName { window },
            Stage::Class { window, title } => StageView::Class { window, title: title@ },
            Stage::Done { app, title } => StageView::Done { app: app@, title: title@ },
        }
    }
}

impl StageView {
    /// The stage that follows `self` once the pending request was answered
    /// with the bytes `value`, naming the window `window`.
    pub open spec fn next(self, value: Seq<u8>, window: Option<u32>) -> StageView {
        match self {
            StageView::ActiveWindow => match window {
                Some(w) => StageView::Utf8Name { window: w },
                None => StageView::Done { app: Seq::<char>::empty(), title: Seq::<char>::empty() },
            },
            StageView::Utf8Name { window: w } => if value.len() > 0 {
                StageView::Class { window: w, title: lossy_text(value) }
            } else {
                StageView::LegacyName { window: w }
            },
            StageView::LegacyName { window: w } => if value.len() > 0 {
                StageView::Class { window: w, title: lossy_text(value) }
            } else {
                StageView::Class { window: w, title: Seq::<char>::empty() }
            },
            StageView::Class { window: _, title } => StageView::Done {
                app: class_app(value),
                title,
            },
            StageView::Done { app, title } => StageView::Done { app, title },
        }
    }

    /// How many replies the conversation can still take.
    pub open spec fn steps_left(self) -> nat {
        match self {
            StageView::ActiveWindow => 4,
            StageView::Utf8Name { .. } => 3,
            StageView::LegacyName { .. } => 2,
            StageView::Class { .. } => 1,
            StageView::Done { .. } => 0,
        }
    }

    /// The window title as far as it is known at this stage.
    pub open spec fn title(self) -> Seq<char> {
        match self {
            StageView::Class { window: _, title } => title,
            StageView::Done { app: _, title } => title,
            _ => Seq::<char>::empty(),
        }
    }

    /// The application name as far as it is known at this stage.
    pub open spec fn app(self) -> Seq<char> {
        match self {
            StageView::Done { app, title: _ } => app,
            _ => Seq::<char>::empty(),
        }
    }
}

/// A conversation in progress: the moment it began and its stage.
#[derive(Debug, Clone)]
pub struct Probing {
    pub ts: String,
    pub stage: Stage,
}

/// The mathematical content of a [`Probing`].
pub struct ProbingView {
    pub ts: Seq<char>,
    pub stage: StageView,
}

impl View for Probing {
    type V = ProbingView;

    open spec fn view(&self) -> ProbingView {
        ProbingView { ts: self.ts@, stage: self.stage@ }
    }
}

/// The windowing probe: the root window and the five identifiers that were
/// resolved when the connection was opened.
#[derive(Debug, Clone, Copy, PartialEq, Eq, Structural)]
pub struct X11Sampler {
    pub root: u32,
    pub atom_net_active_window: u32,
    pub atom_net_wm_name: u32,
    pub atom_wm_name: u32,
    pub atom_wm_class: u32,
    pub atom_utf8_string: u32,
}

/// The first identifier, in the order of interning, that was not resolved.
pub open spec fn first_unresolved(
    net_active_window: Option<u32>,
    net_wm_name: Option<u32>,
    wm_name: Option<u32>,
    wm_class: Option<u32>,
    utf8_string: Option<u32>,
) -> Option<Atom> {
    if net_active_window is None {
        Some(Atom::NetActiveWindow)
    } else if net_wm_name is None {
        Some(Atom::NetWmName)
    } else if wm_name is None {
        Some(Atom::WmName)
    } else if wm_class is None {
        Some(Atom::WmClass)
    } else if utf8_string is None {
        Some(Atom::Utf8String)
    } else {
        None
    }
}

impl X11Sampler {
    /// The request that is pending at `stage`, or `None` once the
    /// conversation is over.
    pub open spec fn pending(self, stage: StageView) -> Option<PropertyQuery> {
        match stage {
            StageView::ActiveWindow => Some(
                PropertyQuery {
                    window: self.root,
                    property: self.atom_net_active_window,
                    kind: PropertyType::Window,
                    long_offset: 0,
                    long_length: 1,
                },
            ),
            StageView::Utf8Name { window } => Some(
                PropertyQuery {
                    window,
                    property: self.atom_net_wm_name,
                    kind: PropertyType::Interned(self.atom_utf8_string),
                    long_offset: 0,
                    long_length: 1024,
                },
            ),
            StageView::LegacyName { window } => Some(
                PropertyQuery {
                    window,
                    property: self.atom_wm_name,
                    kind: PropertyType::Any,
                    long_offset: 0,
                    long_length: 1024,
                },
            ),
            StageView::Class { window, title: _ } => Some(
                PropertyQuery {
                    window,
                    property: self.atom_wm_class,
                    kind: PropertyType::String,
                    long_offset: 0,
                    long_length: 1024,
                },
            ),
            StageView::Done { .. } => None,
        }
    }

    /// Builds the probe from the root window and the outcome of interning
    /// the five identifiers; `None` stands for an identifier that the server
    /// did not resolve. Fails with the first such identifier.
    pub fn new(
        root: u32,
        net_active_window: Option<u32>,
        net_wm_name: Option<u32>,
        wm_name: Option<u32>,
        wm_class: Option<u32>,
        utf8_string: Option<u32>,
    ) -> (built: Result<X11Sampler, Atom>)
        ensures
            match first_unresolved(net_active_window, net_wm_name, wm_name, wm_class, utf8_string) {
                Some(atom) => built == Err::<X11Sampler, Atom>(atom),
                None => built == Ok::<X11Sampler, Atom>(
                    X11Sampler {
                        root,
                        atom_net_active_window: net_active_window->0,
                        atom_net_wm_name: net_wm_name->0,
                        atom_wm_name: wm_name->0,
                        atom_wm_class: wm_class->0,
                        atom_utf8_string: utf8_string->0,
                    },
                ),
            },
    {
        let atom_net_active_window = match net_active_window {
            Some(atom) => atom,
            None => { return Err(Atom::NetActiveWindow); },
        };
        let atom_net_wm_name = match net_wm_name {
            Some(atom) => atom,
            None => { return Err(Atom::NetWmName); },
        };
        let atom_wm_name = match wm_name {
            Some(atom) => atom,
            None => { return Err(Atom::WmName); },
        };
        let atom_wm_class = match wm_class {
            Some(atom) => atom,
            None => { return Err(Atom::WmClass); },
        };
        let atom_utf8_string = match utf8_string {
            Some(atom) => atom,
            None => { return Err(Atom::Utf8String); },
        };
        Ok(
            X11Sampler {
                root,
                atom_net_active_window,
                atom_net_wm_name,
                atom_wm_name,
                atom_wm_class,
                atom_utf8_string,
            },
        )
    }

    /// Opens a conversation for one tick. The timestamp is the wall clock at
    /// the moment of the call, and the first thing to ask for is the active
    /// window.
    pub fn begin(&self) -> (probing: Probing)
        ensures
            probing@.stage == StageView::ActiveWindow,
            probing@.ts.len() > 0,
            is_utc_stamp(probing@.ts),
    {
        Probing { ts: now_rfc3339(), stage: Stage::ActiveWindow }
    }

    /// The request to send next, or `None` once the conversation is over.
    pub fn request(&self, probing: &Probing) -> (query: Option<PropertyQuery>)
        ensures
            query == self.pending(probing@.stage),
    {
        match &probing.stage {
            Stage::ActiveWindow => Some(
                PropertyQuery {
                    window: self.root,
                    property: self.atom_net_active_window,
                    kind: PropertyType::Window,
                    long_offset: 0,
                    long_length: 1,
                },
            ),
            Stage::Utf8Name { window } => Some(
                PropertyQuery {
                    window: *window,
                    property: self.atom_net_wm_name,
                    kind: PropertyType::Interned(self.atom_utf8_string),
                    long_offset: 0,
                    long_length: 1024,
                },
            ),
            Stage::LegacyName { window } => Some(
                PropertyQuery {
                    window: *window,
                    property: self.atom_wm_name,
                    kind: PropertyType::Any,
                    long_offset: 0,
                    long_length: 1024,
                },
            ),
            Stage::Class { window, title: _ } => Some(
                PropertyQuery {
                    window: *window,
                    property: self.atom_wm_class,
                    kind: PropertyType::String,
                    long_offset: 0,
                    long_length: 1024,
                },
            ),
            Stage::Done { .. } => None,
        }
    }

    /// Takes the reply to the pending request and moves to the next stage.
    /// `None` stands for a round trip that failed: it counts as a property
    /// without a value, and the conversation goes on.
    pub fn receive(&self, probing: Probing, reply: Option<PropertyReply>) -> (next: Probing)
        ensures
            next@.ts == probing@.ts,
            next@.stage == probing@.stage.next(reply_value(reply), reply_window(reply)),
    {
        let Probing { ts, stage } = probing;
        let stage = match stage {
            Stage::ActiveWindow => {
                let active = match reply {
                    Some(r) => r.first_value32,
                    None => None,
                };
                match active {
                    Some(window) => Stage::Utf8Name { window },
                    None => Stage::Done { app: String::new(), title: String::new() },
                }
            },
            Stage::Utf8Name { window } => {
                match reply {
                    Some(r) => {
                        if r.value.len() > 0 {
                            Stage::Class { window, title: decode_lossy(r.value.as_slice()) }
                        } else {
                            Stage::LegacyName { window }
                        }
                    },
                    None => Stage::LegacyName { window },
                }
            },
            Stage::LegacyName { window } => {
                match reply {
                    Some(r) => {
                        if r.value.len() > 0 {
                            Stage::Class { window, title: decode_lossy(r.value.as_slice()) }
                        } else {
                            Stage::Class { window, title: String::new() }
                        }
                    },
                    None => Stage::Class { window, title: String::new() },
                }
            },
            Stage::Class { window: _, title } => {
                let app = match reply {
                    Some(r) => class_app_name(r.value.as_slice()),
                    None => class_app_name(Vec::new().as_slice()),
                };
                Stage::Done { app, title }
            },
            Stage::Done { app, title } => Stage::Done { app, title },
        };
        Probing { ts, stage }
    }

    /// The record that a conversation yields: its timestamp, the application
    /// and the title it found, each replaced by `"Unknown"` where it is
    /// empty, and no clipboard text.
    pub fn get_state(&self, probing: Probing) -> (state: OsContextState)
        ensures
            state@ == (OsContextStateView {
                ts: probing@.ts,
                app: or_unknown(probing@.stage.app()),
                window: or_unknown(probing@.stage.title()),
                clipboard: None,
            }),
            probing@.ts.len() > 0 ==> state@.well_formed(),
    {
        let Probing { ts, stage } = probing;
        let (app, title) = match stage {
            Stage::Class { window: _, title } => (String::new(), title),
            Stage::Done { app, title } => (app, title),
            _ => (String::new(), String::new()),
        };
        OsContextState { ts, app: fill_unknown(app), window: fill_unknown(title), clipboard: None }
    }
}

/// The application name that a window-class value gives: the text of its
/// last segment that is not empty, or the empty string when every segment
/// is empty.
pub fn class_app_name(class: &[u8]) -> (name: String)
    ensures
        name@ == class_app(class@),
{
    let segment = app_name_bytes(class);
    if segment.len() > 0 {
        decode_lossy(segment.as_slice())
    } else {
        String::new()
    }
}

/// Every reply moves a conversation that is not over one stage closer to its
/// end, and a request is pending exactly while it is not over. So a
/// conversation takes at most four round trips.
pub proof fn lemma_conversation_ends(
    sampler: X11Sampler,
    stage: StageView,
    value: Seq<u8>,
    window: Option<u32>,
)
    ensures
        stage.steps_left() <= 4,
        sampler.pending(stage) is None <==> stage.steps_left() == 0,
        stage.steps_left() > 0 ==> stage.next(value, window).steps_left() < stage.steps_left(),
        stage.steps_left() == 0 ==> stage.next(value, window) == stage,
{
}

/// Without an active window the conversation ends after the first reply,
/// with neither field found.
pub proof fn lemma_no_active_window(value: Seq<u8>)
    ensures
        StageView::ActiveWindow.next(value, None) == (StageView::Done {
            app: Seq::<char>::empty(),
            title: Seq::<char>::empty(),
        }),
{
}

/// With the active window `window`, the conversation asks for the UTF-8
/// name, for the legacy name only if the UTF-8 name has no value, and then
/// for the class. It ends with the title that [`resolved_title`] gives and
/// the application name that [`class_app`] gives.
pub proof fn lemma_conversation_outcome(
    sampler: X11Sampler,
    root_value: Seq<u8>,
    window: u32,
    utf8_name: Seq<u8>,
    legacy_name: Seq<u8>,
    class: Seq<u8>,
    aside: Option<u32>,
)
    ensures
        ({
            let named = StageView::ActiveWindow.next(root_value, Some(window)).next(
                utf8_name,
                aside,
            );
            let titled = if utf8_name.len() > 0 {
                named
            } else {
                named.next(legacy_name, aside)
            };
            &&& sampler.pending(StageView::ActiveWindow.next(root_value, Some(window)))
                == Some(
                PropertyQuery {
                    window,
                    property: sampler.atom_net_wm_name,
                    kind: PropertyType::Interned(sampler.atom_utf8_string),
                    long_offset: 0,
                    long_length: 1024,
                },
            )
            &&& utf8_name.len() == 0 ==> sampler.pending(named) == Some(
                PropertyQuery {
                    window,
                    property: sampler.atom_wm_name,
                    kind: PropertyType::Any,
                    long_offset: 0,
                    long_length: 1024,
                },
            )
            &&& sampler.pending(titled) == Some(
                PropertyQuery {
                    window,
                    property: sampler.atom_wm_class,
                    kind: PropertyType::String,
                    long_offset: 0,
                    long_length: 1024,
                },
            )
            &&& titled.next(class, aside) == (StageView::Done {
                app: class_app(class),
                title: resolved_title(utf8_name, legacy_name),
            })
        }),
{
}

/// A class value without a non-zero byte, as a failed or empty reply gives
/// it, names no application, and a conversation without a name value finds
/// no title: both fields then read `"Unknown"`.
pub proof fn lemma_missing_values_read_unknown(class: Seq<u8>)
    requires
        forall|i: int| 0 <= i < class.len() ==> class[i] == 0u8,
    ensures
        or_unknown(class_app(class)) == unknown(),
        or_unknown(resolved_title(Seq::<u8>::empty(), Seq::<u8>::empty())) == unknown(),
{
    lemma_class_segment_is_last_run(class);
}

/// Whatever the stage, the record made from it names an application and a
/// window: a field that was not found reads `"Unknown"`.
pub proof fn lemma_fields_never_empty(stage: StageView)
    ensures
        or_unknown(stage.app()).len() > 0,
        or_unknown(stage.title()).len() > 0,
{
    crate::text::lemma_or_unknown_non_empty(stage.app());
    crate::text::lemma_or_unknown_non_empty(stage.title());
}

} // verus!
