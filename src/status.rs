use vstd::prelude::*;

verus! {

/// Status of webview.
#[derive(Clone, Copy, Debug, PartialEq, Eq, Structural)]
pub enum Status {
    /// Nothing has happened to this webview yet.
    Initial,
    /// Loading of the webview has started.
    LoadStart,
    /// Loading of the webview has completed.
    LoadComplete,
    /// The shell has shut down.
    Shutdown,
}

impl Default for Status {
    fn default() -> (r: Status)
        ensures
            r == Status::Initial,
    {
        Status::Initial
    }
}

} // verus!
