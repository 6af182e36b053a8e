//! State kept by a small desktop front end: the exclusive selection behind a
//! sidebar's row of buttons, and the plain data of its views.
use vstd::prelude::*;

pub mod components;
pub mod note;

verus! {

/// The top-level application: it is either still loading or has its data.
pub struct LocalNative {
    state: State,
}

/// Where the application stands.
pub enum State {
    Loading,
    Loaded(Data),
}

/// What the application holds once loaded.
pub struct Data {}

/// Events delivered to the top-level application.
#[derive(Debug)]
pub enum Message {
    Loading(()),
}

impl LocalNative {
    /// The application as it starts: loading.
    pub fn new() -> (r: LocalNative)
        ensures
            r.is_loading(),
    {
        LocalNative { state: State::Loading }
    }

    /// The application has not loaded its data yet.
    pub closed spec fn is_loading(&self) -> bool {
        self.state is Loading
    }

    /// Whether the application is still loading.
    pub fn loading(&self) -> (r: bool)
        ensures
            r == self.is_loading(),
    {
        match self.state {
            State::Loading => true,
            State::Loaded(_) => false,
        }
    }

    /// The window title.
    pub fn title(&self) -> (r: String)
        ensures
            r@ == "ln-iced"@,
    {
        "ln-iced".to_owned()
    }
}

} // verus!
