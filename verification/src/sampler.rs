//! Sample records and the synthetic probe.

use vstd::prelude::*;
use crate::clock::{is_utc_stamp, now_rfc3339};
use crate::text::{fill_unknown, or_unknown};

verus! {

/// One snapshot of the desktop: when it was taken, which application and
/// window had focus, and the clipboard text if it was read.
#[derive(Debug, Clone)]
pub struct OsContextState {
    pub ts: String,
    pub app: String,
    pub window: String,
    pub clipboard: Option<String>,
}

/// The mathematical content of an [`OsContextState`].
pub struct OsContextStateView {
    pub ts: Seq<char>,
    pub app: Seq<char>,
    pub window: Seq<char>,
    pub clipboard: Option<Seq<char>>,
}

impl View for OsContextState {
    type V = OsContextStateView;

    open spec fn view(&self) -> OsContextStateView {
        OsContextStateView {
            ts: self.ts@,
            app: self.app@,
            window: self.window@,
            clipboard: match self.clipboard {
                Some(text) => Some(text@),
                None => None,
            },
        }
    }
}

impl OsContextStateView {
    /// A record is well formed when its timestamp, application and window
    /// title each hold at least one character.
    pub open spec fn well_formed(self) -> bool {
        &&& self.ts.len() > 0
        &&& self.app.len() > 0
        &&& self.window.len() > 0
    }
}

impl OsContextState {
    /// Fills what is missing: an empty application or window title becomes
    /// `"Unknown"`, and a record without a timestamp is stamped with the
    /// wall clock at the moment of the call. A well-formed record comes
    /// back as it is.
    pub fn filled(self) -> (state: OsContextState)
        ensures
            state@.well_formed(),
            state@.app == or_unknown(self@.app),
            state@.window == or_unknown(self@.window),
            state@.clipboard == self@.clipboard,
            self@.ts.len() > 0 ==> state@.ts == self@.ts,
            self@.ts.len() == 0 ==> is_utc_stamp(state@.ts),
            self@.well_formed() ==> state@ == self@,
    {
        let OsContextState { ts, app, window, clipboard } = self;
        let ts = if ts.as_str().is_empty() {
            now_rfc3339()
        } else {
            ts
        };
        OsContextState { ts, app: fill_unknown(app), window: fill_unknown(window), clipboard }
    }
}

/// A record on its way from a worker to a poll. Only well-formed records
/// are sealed, so whatever a channel of samples hands out is well formed.
pub struct Sample {
    state: OsContextState,
}

impl View for Sample {
    type V = OsContextStateView;

    closed spec fn view(&self) -> OsContextStateView {
        self.state@
    }
}

impl Sample {
    #[verifier::type_invariant]
    closed spec fn sealed_well_formed(&self) -> bool {
        self.state@.well_formed()
    }

    /// Seals a well-formed record.
    pub(crate) fn seal(state: OsContextState) -> (sample: Sample)
        requires
            state@.well_formed(),
        ensures
            sample@ == state@,
    {
        Sample { state }
    }

    /// Takes the record out again.
    pub(crate) fn open(self) -> (state: OsContextState)
        ensures
            state@ == self@,
            state@.well_formed(),
    {
        proof {
            use_type_invariant(&self);
        }
        self.state
    }
}

/// The application that the synthetic probe reports at tick `counter`.
pub open spec fn stub_app(counter: u64) -> Seq<char> {
    if counter % 3 == 0 {
        "firefox"@
    } else {
        "vscode"@
    }
}

/// The window title that the synthetic probe reports at tick `counter`.
pub open spec fn stub_window(counter: u64) -> Seq<char> {
    if counter % 5 == 0 {
        "README.md"@
    } else {
        "Editor"@
    }
}

/// The synthetic names are never empty.
pub proof fn lemma_stub_names_non_empty(counter: u64)
    ensures
        stub_app(counter).len() > 0,
        stub_window(counter).len() > 0,
{
    reveal_strlit("firefox");
    reveal_strlit("vscode");
    reveal_strlit("README.md");
    reveal_strlit("Editor");
}

/// The record of the synthetic probe for tick `counter`, stamped with `ts`.
pub fn stub_state(counter: u64, ts: String) -> (state: OsContextState)
    ensures
        state@ == (OsContextStateView {
            ts: ts@,
            app: stub_app(counter),
            window: stub_window(counter),
            clipboard: None,
        }),
        ts@.len() > 0 ==> state@.well_formed(),
{
    proof {
        lemma_stub_names_non_empty(counter);
    }
    let app = if counter % 3 == 0 {
        "firefox"
    } else {
        "vscode"
    };
    let window = if counter % 5 == 0 {
        "README.md"
    } else {
        "Editor"
    };
    OsContextState { ts, app: app.to_owned(), window: window.to_owned(), clipboard: None }
}

/// A probe that needs no desktop: it cycles through fixed names by the tick
/// counter and never reads the clipboard.
#[derive(Debug, Clone, Copy)]
pub struct StubSampler;

impl StubSampler {
    /// Samples at tick `counter`. The timestamp is the wall clock at the
    /// moment of the call; everything else is determined by `counter`.
    pub fn probe(&mut self, counter: u64) -> (state: OsContextState)
        ensures
            state@.app == stub_app(counter),
            state@.window == stub_window(counter),
            state@.clipboard == None::<Seq<char>>,
            state@.well_formed(),
            is_utc_stamp(state@.ts),
    {
        let ts = now_rfc3339();
        stub_state(counter, ts)
    }
}

/// The probe of one worker, chosen once when the worker starts.
#[derive(Debug, Clone)]
pub enum Probe<W> {
    /// The synthetic probe.
    Stub(StubSampler),
    /// A probe that asks the windowing server.
    Windowing(W),
}

impl<W> Probe<W> {
    /// Chooses the probe for a worker from the outcome of opening the
    /// windowing probe: that probe if it could be opened, and the synthetic
    /// one for the rest of the worker's life if it could not.
    pub fn select(windowing: Option<W>) -> (probe: Probe<W>)
        ensures
            match windowing {
                Some(opened) => probe == Probe::Windowing(opened),
                None => probe == Probe::<W>::Stub(StubSampler),
            },
    {
        match windowing {
            Some(opened) => Probe::Windowing(opened),
            None => Probe::Stub(StubSampler),
        }
    }
}

} // verus!
