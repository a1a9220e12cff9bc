//! What holds of whole exchanges between a host and a plugin: the host asks
//! for a call, the plugin answers, the host reads the answer.
//!
//! A plugin appears here as the answers it gives. The host is taken to make
//! exactly the calls it is asked to make (`delivered`).

use crate::info::ParamInfo;
use crate::instance::{InstanceState, PluginInstance, StoppedPluginAudioProcessor};
use crate::params::{EntryPoints, PluginParams};
use crate::request::{delivered, Reply, RequestView};
use crate::text::{lemma_terminated, lemma_text_of, nul_free, text_of};
use vstd::prelude::*;
use vstd::set_lib::{lemma_int_range, set_int_range};

verus! {

/// A plugin without the capability is never called. On the table without
/// entry points, which is what a host holds after negotiation found
/// nothing, every operation asks for no call and yields its absent value:
/// zero, nothing, or `false`, whatever is handed to it as an answer.
pub proof fn lemma_unsupported_is_silent(
    params: PluginParams,
    plugin: PluginInstance,
    param_index: u32,
    param_id: u32,
    value: u64,
    capacity: usize,
    display: Seq<u8>,
    buffer: Seq<u8>,
    counted: Option<u32>,
    described: Option<Reply<ParamInfo>>,
    measured: Option<Reply<u64>>,
    written: Option<bool>,
    invoked: bool,
)
    requires
        params@ == EntryPoints::none(),
    ensures
        params.spec_count_request() is None,
        params.spec_get_info_request(param_index) is None,
        params.spec_get_value_request(param_id) is None,
        params.spec_value_to_text_request(param_id, value, capacity) is None,
        params.spec_text_to_value_request(param_id, display) is None,
        params.spec_flush_inactive_request(plugin) is None,
        params.spec_flush_active() is None,
        params.spec_count(counted) == 0,
        params.spec_get_info(described) is None,
        params.spec_get_value(measured) is None,
        params.spec_value_to_text(buffer, written) is None,
        params.spec_text_to_value(measured) is None,
        !params.spec_flush_inactive(plugin, invoked),
{
}

/// The answers of a plugin that keeps to the protocol: it reports an
/// index as valid exactly when the index is below its count.
pub open spec fn indices_follow_count(count: u32, info: spec_fn(u32) -> Reply<ParamInfo>) -> bool {
    forall|i: u32| (#[trigger] info(i)).valid <==> i < count
}

/// The number of parameters that a host is told of.
pub open spec fn host_count(params: PluginParams, count: u32) -> u32 {
    params.spec_count(delivered(params.spec_count_request(), count))
}

/// The record that a host is given for the parameter at `param_index`.
pub open spec fn host_info(
    params: PluginParams,
    info: spec_fn(u32) -> Reply<ParamInfo>,
    param_index: u32,
) -> Option<ParamInfo> {
    params.spec_get_info(
        delivered(params.spec_get_info_request(param_index), info(param_index)),
    )
}

/// The indices for which a host is given a record.
pub open spec fn described_indices(
    params: PluginParams,
    info: spec_fn(u32) -> Reply<ParamInfo>,
) -> Set<int> {
    Set::new(|i: int| 0 <= i <= u32::MAX && host_info(params, info, i as u32) is Some)
}

/// With both entry points present and a plugin that keeps to the protocol,
/// the count that a host is told is the number of indices for which it is
/// given a record.
pub proof fn lemma_count_matches_described(
    params: PluginParams,
    count: u32,
    info: spec_fn(u32) -> Reply<ParamInfo>,
)
    requires
        params@.count,
        params@.get_info,
        indices_follow_count(count, info),
    ensures
        described_indices(params, info).finite(),
        described_indices(params, info).len() == host_count(params, count),
{
    let told = described_indices(params, info);
    assert forall|i: int| told.contains(i) <==> set_int_range(0, count as int).contains(i) by {
        if 0 <= i <= u32::MAX {
            assert(info(i as u32).valid <==> (i as u32) < count);
        }
    }
    assert(told =~= set_int_range(0, count as int));
    lemma_int_range(0, count as int);
}

/// Past the count that a host is told there is no record: for a plugin
/// that reports no index at or above its count as valid, and a table from
/// which the count can be had whenever records can.
pub proof fn lemma_no_info_past_count(
    params: PluginParams,
    count: u32,
    info: spec_fn(u32) -> Reply<ParamInfo>,
    param_index: u32,
)
    requires
        params@.count || !params@.get_info,
        forall|i: u32| i >= count ==> !(#[trigger] info(i)).valid,
        param_index >= host_count(params, count),
    ensures
        host_info(params, info, param_index) is None,
{
    if params@.get_info {
        assert(!info(param_index).valid);
    }
}

/// The guard of `flush_inactive`. On an active instance no call is asked
/// for and the flush reports `false`, whether or not a call was made. On an
/// inactive instance with the entry point present exactly the flush call is
/// asked for, and once it was made the flush reports `true`.
pub proof fn lemma_flush_inactive_guard(params: PluginParams, plugin: PluginInstance, invoked: bool)
    ensures
        plugin.spec_is_active() ==> params.spec_flush_inactive_request(plugin) is None
            && !params.spec_flush_inactive(plugin, invoked),
        !plugin.spec_is_active() && params@.flush ==> params.spec_flush_inactive_request(plugin)
            == Some(RequestView::Flush) && params.spec_flush_inactive(plugin, true),
        !plugin.spec_is_active() && !params@.flush ==> params.spec_flush_inactive_request(plugin)
            is None && !params.spec_flush_inactive(plugin, invoked),
{
}

/// A flush is asked for only in the state in which it is legal: the
/// inactive flush on an inactive instance, the active flush on one that is
/// activated and not processing. No flush is ever asked for while the
/// instance processes audio.
pub proof fn lemma_flush_follows_state(
    params: PluginParams,
    plugin: PluginInstance,
    processor: StoppedPluginAudioProcessor,
)
    ensures
        params.spec_flush_inactive_request(plugin) is Some ==> plugin.spec_state()
            == InstanceState::Inactive,
        processor.spec_state() == InstanceState::ActiveStopped,
        plugin.spec_state() == InstanceState::ActiveProcessing
            ==> params.spec_flush_inactive_request(plugin) is None,
{
}

/// The text that a host hands back to the plugin after `value_to_text`:
/// what `text_to_value_request` sends for it.
pub open spec fn returned_text(params: PluginParams, param_id: u32, text: Seq<u8>) -> Seq<u8> {
    match params.spec_text_to_value_request(param_id, text) {
        Some(RequestView::TextToValue { display, .. }) => display,
        _ => Seq::empty(),
    }
}

/// The value that a host recovers when it has `value` written out and the
/// text read back. `buffer` is what the plugin wrote, with success
/// reported; `parse` is what the plugin answers to a text.
pub open spec fn round_trip(
    params: PluginParams,
    param_id: u32,
    value: u64,
    buffer: Seq<u8>,
    parse: spec_fn(Seq<u8>) -> Reply<u64>,
) -> Option<u64> {
    let asked = params.spec_value_to_text_request(param_id, value, buffer.len() as usize);
    match params.spec_value_to_text(buffer, delivered(asked, true)) {
        Some(text) => params.spec_text_to_value(
            delivered(
                params.spec_text_to_value_request(param_id, text),
                parse(returned_text(params, param_id, text)),
            ),
        ),
        None => None,
    }
}

/// Formatting and parsing again loses nothing on the host's side. With
/// both entry points present, the text that `value_to_text` yields holds no
/// terminator, so it is accepted as a display text; it goes back to the
/// plugin as the very bytes the plugin wrote, followed by one terminator;
/// and the host reports the plugin's answer to it unchanged. A plugin that
/// reads its own text back to the value it wrote out therefore gives the
/// host that value again.
pub proof fn lemma_round_trip(
    params: PluginParams,
    param_id: u32,
    value: u64,
    buffer: Seq<u8>,
    parse: spec_fn(Seq<u8>) -> Reply<u64>,
)
    requires
        params@.value_to_text,
        params@.text_to_value,
    ensures
        nul_free(text_of(buffer)),
        returned_text(params, param_id, text_of(buffer)) == text_of(buffer).push(0),
        text_of(returned_text(params, param_id, text_of(buffer))) == text_of(buffer),
        round_trip(params, param_id, value, buffer, parse) == if parse(
            text_of(buffer).push(0),
        ).valid {
            Some(parse(text_of(buffer).push(0)).value)
        } else {
            None
        },
        parse(text_of(buffer).push(0)) == (Reply { valid: true, value }) ==> round_trip(
            params,
            param_id,
            value,
            buffer,
            parse,
        ) == Some(value),
{
    lemma_text_of(buffer);
    lemma_terminated(text_of(buffer));
}

} // verus!
