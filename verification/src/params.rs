//! The parameter capability of a plugin, seen from the host.
//!
//! Every operation comes in two parts. The part named `.._request` says
//! which call the host makes into the plugin, if any. The part that carries
//! the operation's own name says what the operation yields, given what came
//! back from that call. Between the two the caller performs the call.
//! An entry point that the plugin left out is never called, and the
//! operation then yields its absent value.

use crate::extension::{
    ext_params_identifier, lemma_params_identifier, params_identifier, ExtensionSide,
};
use crate::info::ParamInfo;
use crate::instance::{InstanceState, PluginInstance, StoppedPluginAudioProcessor};
use crate::request::{Reply, Request, RequestView};
use crate::text::{is_c_string, is_text_of, text_of, written_text, DisplayText};
use vstd::prelude::*;

verus! {

/// Which entry points a parameter table holds. Each one is present or
/// absent on its own.
#[derive(Clone, Copy, PartialEq, Eq, Debug, Structural)]
pub struct EntryPoints {
    pub count: bool,
    pub get_info: bool,
    pub get_value: bool,
    pub value_to_text: bool,
    pub text_to_value: bool,
    pub flush: bool,
}

impl EntryPoints {
    /// The table without any entry point.
    pub open spec fn none() -> EntryPoints {
        EntryPoints {
            count: false,
            get_info: false,
            get_value: false,
            value_to_text: false,
            text_to_value: false,
            flush: false,
        }
    }
}

/// The capacity that goes over the boundary for a buffer of `capacity`
/// bytes: its low 32 bits. It never exceeds the buffer.
pub open spec fn wire_capacity(capacity: usize) -> u32 {
    (capacity as int % 0x1_0000_0000) as u32
}

/// What a host takes from an answer: the out-parameter, where the entry
/// point is present, was called, and reported success.
pub open spec fn accepted<T>(present: bool, reply: Option<Reply<T>>) -> Option<T> {
    match reply {
        Some(r) => if present && r.valid {
            Some(r.value)
        } else {
            None
        },
        None => None,
    }
}

fn accept<T>(present: bool, reply: Option<Reply<T>>) -> (r: Option<T>)
    ensures
        r == accepted(present, reply),
{
    match reply {
        Some(answer) => if present && answer.valid {
            Some(answer.value)
        } else {
            None
        },
        None => None,
    }
}

/// A plugin's parameter table, as negotiation found it. It is read, never
/// changed, and there is no way to it but `negotiate` and `unsupported`.
#[derive(Debug)]
pub struct PluginParams {
    entries: EntryPoints,
}

impl View for PluginParams {
    type V = EntryPoints;

    closed spec fn view(&self) -> EntryPoints {
        self.entries
    }
}

impl PluginParams {
    /// The key under which a host asks a plugin for this capability.
    pub fn identifier() -> (id: Vec<u8>)
        ensures
            id@ == params_identifier(),
            is_c_string(id@),
    {
        proof {
            lemma_params_identifier();
        }
        ext_params_identifier()
    }

    /// The capability is implemented by the plugin and called by the host.
    pub open spec fn spec_side() -> ExtensionSide {
        ExtensionSide::Plugin
    }

    #[verifier::when_used_as_spec(spec_side)]
    pub fn side() -> (side: ExtensionSide)
        ensures
            side == ExtensionSide::Plugin,
    {
        ExtensionSide::Plugin
    }

    /// Takes what negotiation found: the table of a plugin that implements
    /// the capability, or nothing for a plugin that does not.
    pub fn negotiate(found: Option<EntryPoints>) -> (r: Option<PluginParams>)
        ensures
            match found {
                Some(entries) => r matches Some(params) && params@ == entries,
                None => r is None,
            },
    {
        match found {
            Some(entries) => Some(PluginParams { entries }),
            None => None,
        }
    }

    /// What a host holds of a plugin that does not implement the
    /// capability: a table without entry points.
    pub fn unsupported() -> (params: PluginParams)
        ensures
            params@ == EntryPoints::none(),
    {
        PluginParams {
            entries: EntryPoints {
                count: false,
                get_info: false,
                get_value: false,
                value_to_text: false,
                text_to_value: false,
                flush: false,
            },
        }
    }

    /// The entry points that this table holds.
    pub fn entry_points(&self) -> (entries: EntryPoints)
        ensures
            entries == self@,
    {
        self.entries
    }

    pub open spec fn spec_count_request(&self) -> Option<RequestView> {
        if self@.count {
            Some(RequestView::Count)
        } else {
            None
        }
    }

    /// The call that `count` makes: none when the entry point is absent.
    pub fn count_request(&self) -> (r: Option<Request>)
        ensures
            r.deep_view() == self.spec_count_request(),
    {
        if self.entries.count {
            Some(Request::Count)
        } else {
            None
        }
    }

    pub open spec fn spec_count(&self, reply: Option<u32>) -> u32 {
        match reply {
            Some(n) => if self@.count {
                n
            } else {
                0
            },
            None => 0,
        }
    }

    /// The number of parameters: what the plugin answered, and zero when
    /// the entry point is absent or was not called.
    pub fn count(&self, reply: Option<u32>) -> (n: u32)
        ensures
            n == self.spec_count(reply),
    {
        match reply {
            Some(n) => if self.entries.count {
                n
            } else {
                0
            },
            None => 0,
        }
    }

    pub open spec fn spec_get_info_request(&self, param_index: u32) -> Option<RequestView> {
        if self@.get_info {
            Some(RequestView::GetInfo { param_index })
        } else {
            None
        }
    }

    /// The call that `get_info` makes for the parameter at `param_index`.
    /// The index is handed on as it is: whether it is in range is for the
    /// plugin to say.
    pub fn get_info_request(&self, param_index: u32) -> (r: Option<Request>)
        ensures
            r.deep_view() == self.spec_get_info_request(param_index),
    {
        if self.entries.get_info {
            Some(Request::GetInfo { param_index })
        } else {
            None
        }
    }

    pub open spec fn spec_get_info(&self, reply: Option<Reply<ParamInfo>>) -> Option<ParamInfo> {
        accepted(self@.get_info, reply)
    }

    /// The record that the plugin filled in. There is none when the entry
    /// point is absent, was not called, or reported the index as invalid;
    /// the three cannot be told apart.
    pub fn get_info(&self, reply: Option<Reply<ParamInfo>>) -> (r: Option<ParamInfo>)
        ensures
            r == self.spec_get_info(reply),
    {
        accept(self.entries.get_info, reply)
    }

    pub open spec fn spec_get_value_request(&self, param_id: u32) -> Option<RequestView> {
        if self@.get_value {
            Some(RequestView::GetValue { param_id })
        } else {
            None
        }
    }

    /// The call that `get_value` makes for the parameter `param_id`.
    pub fn get_value_request(&self, param_id: u32) -> (r: Option<Request>)
        ensures
            r.deep_view() == self.spec_get_value_request(param_id),
    {
        if self.entries.get_value {
            Some(Request::GetValue { param_id })
        } else {
            None
        }
    }

    pub open spec fn spec_get_value(&self, reply: Option<Reply<u64>>) -> Option<u64> {
        accepted(self@.get_value, reply)
    }

    /// The value that the plugin reported. There is none when the entry
    /// point is absent, was not called, or reported the identifier as
    /// invalid.
    pub fn get_value(&self, reply: Option<Reply<u64>>) -> (r: Option<u64>)
        ensures
            r == self.spec_get_value(reply),
    {
        accept(self.entries.get_value, reply)
    }

    pub open spec fn spec_value_to_text_request(
        &self,
        param_id: u32,
        value: u64,
        capacity: usize,
    ) -> Option<RequestView> {
        if self@.value_to_text {
            Some(RequestView::ValueToText { param_id, value, capacity: wire_capacity(capacity) })
        } else {
            None
        }
    }

    /// The call that `value_to_text` makes to have `value` written out
    /// into a buffer of `capacity` bytes. The capacity goes over the
    /// boundary in 32 bits, and a larger one is cut to its low 32 bits, so
    /// that the plugin is never told of more room than there is.
    pub fn value_to_text_request(&self, param_id: u32, value: u64, capacity: usize) -> (r: Option<
        Request,
    >)
        ensures
            r.deep_view() == self.spec_value_to_text_request(param_id, value, capacity),
            r matches Some(Request::ValueToText { capacity: sent, .. }) ==> sent <= capacity,
    {
        if self.entries.value_to_text {
            let low: u64 = capacity as u64 % 0x1_0000_0000u64;
            Some(Request::ValueToText { param_id, value, capacity: low as u32 })
        } else {
            None
        }
    }

    pub open spec fn spec_value_to_text(&self, buffer: Seq<u8>, reply: Option<bool>) -> Option<
        Seq<u8>,
    > {
        if self@.value_to_text && reply == Some(true) {
            Some(text_of(buffer))
        } else {
            None
        }
    }

    /// The text that the plugin wrote into `buffer`: the bytes before the
    /// first terminator, and the whole buffer when the plugin wrote no
    /// terminator. `reply` is the plugin's word on whether it succeeded.
    /// There is no text when the entry point is absent, was not called, or
    /// reported failure.
    pub fn value_to_text<'b>(&self, buffer: &'b [u8], reply: Option<bool>) -> (r: Option<&'b [u8]>)
        ensures
            match self.spec_value_to_text(buffer@, reply) {
                Some(text) => r matches Some(written) && written@ == text,
                None => r is None,
            },
            r matches Some(written) ==> is_text_of(buffer@, written@),
    {
        match reply {
            Some(valid) => if self.entries.value_to_text && valid {
                Some(written_text(buffer))
            } else {
                None
            },
            None => None,
        }
    }

    pub open spec fn spec_text_to_value_request(&self, param_id: u32, display: Seq<u8>) -> Option<
        RequestView,
    > {
        if self@.text_to_value {
            Some(RequestView::TextToValue { param_id, display: display.push(0) })
        } else {
            None
        }
    }

    /// The call that `text_to_value` makes to have `display` read as a
    /// value of the parameter `param_id`. The text goes over the boundary
    /// with its terminator behind it.
    pub fn text_to_value_request(&self, param_id: u32, display: &DisplayText) -> (r: Option<
        Request,
    >)
        ensures
            r.deep_view() == self.spec_text_to_value_request(param_id, display@),
            r matches Some(Request::TextToValue { display: sent, .. }) ==> is_c_string(sent@),
    {
        if self.entries.text_to_value {
            Some(Request::TextToValue { param_id, display: display.to_bytes_with_nul() })
        } else {
            None
        }
    }

    pub open spec fn spec_text_to_value(&self, reply: Option<Reply<u64>>) -> Option<u64> {
        accepted(self@.text_to_value, reply)
    }

    /// The value that the plugin read from the text. There is none when the
    /// entry point is absent, was not called, or could not read the text.
    pub fn text_to_value(&self, reply: Option<Reply<u64>>) -> (r: Option<u64>)
        ensures
            r == self.spec_text_to_value(reply),
    {
        accept(self.entries.text_to_value, reply)
    }

    pub open spec fn spec_flush_inactive_request(&self, plugin: PluginInstance) -> Option<
        RequestView,
    > {
        if self@.flush && plugin.spec_state() == InstanceState::Inactive {
            Some(RequestView::Flush)
        } else {
            None
        }
    }

    /// The call that `flush_inactive` makes. The state of the instance is
    /// looked at again here: on an instance that is active no call is made,
    /// whatever the caller believed.
    pub fn flush_inactive_request(&self, plugin: &mut PluginInstance) -> (r: Option<Request>)
        ensures
            *final(plugin) == *old(plugin),
            r.deep_view() == self.spec_flush_inactive_request(*old(plugin)),
    {
        if plugin.is_active() {
            None
        } else if self.entries.flush {
            Some(Request::Flush)
        } else {
            None
        }
    }

    pub open spec fn spec_flush_inactive(&self, plugin: PluginInstance, invoked: bool) -> bool {
        invoked && self.spec_flush_inactive_request(plugin) is Some
    }

    /// Whether the events were flushed: the entry point is present, the
    /// instance is inactive, and the call was made (`invoked`).
    pub fn flush_inactive(&self, plugin: &mut PluginInstance, invoked: bool) -> (flushed: bool)
        ensures
            *final(plugin) == *old(plugin),
            flushed == self.spec_flush_inactive(*old(plugin), invoked),
    {
        if plugin.is_active() {
            false
        } else {
            invoked && self.entries.flush
        }
    }

    pub open spec fn spec_flush_active(&self) -> Option<RequestView> {
        if self@.flush {
            Some(RequestView::Flush)
        } else {
            None
        }
    }

    /// The call that a flush makes on an instance that is activated and
    /// not processing, which the handle attests. Nothing comes back from
    /// it and nothing is reported: without the entry point the flush is a
    /// silent no-op.
    pub fn flush_active(&self, plugin: &mut StoppedPluginAudioProcessor) -> (r: Option<Request>)
        ensures
            *final(plugin) == *old(plugin),
            r.deep_view() == self.spec_flush_active(),
    {
        if self.entries.flush {
            Some(Request::Flush)
        } else {
            None
        }
    }
}

} // verus!
