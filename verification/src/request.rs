//! The calls a host makes into a plugin's parameter table, and what comes
//! back from them.

use vstd::prelude::*;

verus! {

/// One call into the parameter table, with its arguments as they go over
/// the boundary. The instance and, for a flush, the event lists are the
/// caller's to supply.
#[derive(Clone, Debug, PartialEq, Eq)]
pub enum Request {
    /// Ask how many parameters there are.
    Count,
    /// Ask for the metadata of the parameter at an index.
    GetInfo { param_index: u32 },
    /// Ask for the current value of a parameter.
    GetValue { param_id: u32 },
    /// Ask for a value's display text, to be written into a buffer that
    /// holds `capacity` bytes.
    ValueToText { param_id: u32, value: u64, capacity: u32 },
    /// Ask for the value that a display text stands for. `display` ends
    /// with its terminator.
    TextToValue { param_id: u32, display: Vec<u8> },
    /// Hand over a batch of parameter events.
    Flush,
}

/// A `Request` as a mathematical value.
pub enum RequestView {
    Count,
    GetInfo { param_index: u32 },
    GetValue { param_id: u32 },
    ValueToText { param_id: u32, value: u64, capacity: u32 },
    TextToValue { param_id: u32, display: Seq<u8> },
    Flush,
}

impl DeepView for Request {
    type V = RequestView;

    open spec fn deep_view(&self) -> RequestView {
        match *self {
            Request::Count => RequestView::Count,
            Request::GetInfo { param_index } => RequestView::GetInfo { param_index },
            Request::GetValue { param_id } => RequestView::GetValue { param_id },
            Request::ValueToText { param_id, value, capacity } => RequestView::ValueToText {
                param_id,
                value,
                capacity,
            },
            Request::TextToValue { param_id, display } => RequestView::TextToValue {
                param_id,
                display: display@,
            },
            Request::Flush => RequestView::Flush,
        }
    }
}

/// What an entry point hands back: whether it succeeded, and the
/// out-parameter it was given to fill. The out-parameter means nothing
/// unless `valid` is set.
#[derive(Clone, Copy, Debug, PartialEq, Eq)]
pub struct Reply<T> {
    pub valid: bool,
    pub value: T,
}

/// What reaches a host that makes exactly the calls it is asked to make:
/// the remote's answer where a call was requested, nothing where none was.
pub open spec fn delivered<T>(request: Option<RequestView>, answer: T) -> Option<T> {
    match request {
        Some(_) => Some(answer),
        None => None,
    }
}

} // verus!
