//! What a page of the dashboard is told by its caller.

use vstd::prelude::*;
use vstd::string::StringExecFns;

verus! {

/// Whether the page was asked to refresh itself: the form sends `on` for a
/// ticked box and nothing for an empty one.
pub fn refresh_requested(refresh: Option<&str>) -> (on: bool)
    ensures
        on == (refresh matches Some(text) && text@ == "on"@),
{
    match refresh {
        Some(text) => {
            let sent = String::from_str(text);
            let ticked = String::from_str("on");
            sent == ticked
        },
        None => false,
    }
}

/// Settings of the page frame.
#[derive(Clone, Copy, Debug, PartialEq, Eq, Structural)]
pub struct BaseContext {
    pub refresh_every_minute: bool,
}

/// Settings of the page head.
#[derive(Clone, Copy, Debug, PartialEq, Eq, Structural)]
pub struct HeadContext {
    pub refresh_every_minute: bool,
}

/// Collects the settings of a `BaseContext`.
#[derive(Clone, Copy, Debug, PartialEq, Eq, Structural)]
pub struct BaseContextBuilder {
    pub refresh_every_minute: bool,
}

/// Collects the settings of a `HeadContext`.
#[derive(Clone, Copy, Debug, PartialEq, Eq, Structural)]
pub struct HeadContextBuilder {
    pub refresh_every_minute: bool,
}

impl Default for BaseContext {
    fn default() -> (context: BaseContext)
        ensures
            !context.refresh_every_minute,
    {
        BaseContext { refresh_every_minute: false }
    }
}

impl BaseContext {
    /// A builder in which the page does not refresh itself.
    pub fn builder() -> (b: BaseContextBuilder)
        ensures
            !b.refresh_every_minute,
    {
        BaseContextBuilder { refresh_every_minute: false }
    }
}

impl BaseContextBuilder {
    pub fn refresh_every_minute(self, refresh: bool) -> (b: BaseContextBuilder)
        ensures
            b.refresh_every_minute == refresh,
    {
        BaseContextBuilder { refresh_every_minute: refresh }
    }

    pub fn build(self) -> (context: BaseContext)
        ensures
            context.refresh_every_minute == self.refresh_every_minute,
    {
        BaseContext { refresh_every_minute: self.refresh_every_minute }
    }
}

impl HeadContext {
    /// A builder in which the page does not refresh itself.
    pub fn builder() -> (b: HeadContextBuilder)
        ensures
            !b.refresh_every_minute,
    {
        HeadContextBuilder { refresh_every_minute: false }
    }

    /// The head of the page framed by `base`.
    pub fn of_base(base: &BaseContext) -> (context: HeadContext)
        ensures
            context.refresh_every_minute == base.refresh_every_minute,
    {
        HeadContext::builder().refresh_every_minute(base.refresh_every_minute).build()
    }
}

impl HeadContextBuilder {
    pub fn refresh_every_minute(self, refresh: bool) -> (b: HeadContextBuilder)
        ensures
            b.refresh_every_minute == refresh,
    {
        HeadContextBuilder { refresh_every_minute: refresh }
    }

    pub fn build(self) -> (context: HeadContext)
        ensures
            context.refresh_every_minute == self.refresh_every_minute,
    {
        HeadContext { refresh_every_minute: self.refresh_every_minute }
    }
}

} // verus!
