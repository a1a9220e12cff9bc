//! How a capability is named on the wire, and who implements it.

use crate::text::is_c_string;
use vstd::prelude::*;

verus! {

/// The party that implements a capability; the other party calls it.
#[derive(Clone, Copy, PartialEq, Eq, Debug, Structural)]
pub enum ExtensionSide {
    Host,
    Plugin,
}

/// The key under which the params capability is negotiated: the bytes of
/// `clap.params`, followed by the terminator.
pub open spec fn params_identifier() -> Seq<u8> {
    seq![0x63u8, 0x6c, 0x61, 0x70, 0x2e, 0x70, 0x61, 0x72, 0x61, 0x6d, 0x73, 0x00]
}

/// The negotiation key is a text of eleven bytes and its terminator.
pub proof fn lemma_params_identifier()
    ensures
        params_identifier().len() == 12,
        is_c_string(params_identifier()),
{
    let id = params_identifier();
    assert(id.last() == 0);
    assert forall|i: int| 0 <= i < id.drop_last().len() implies id.drop_last()[i] != 0 by {
        assert(id.drop_last()[i] == id[i]);
    }
}

/// Copies the constant `clap_sys::ext::params::CLAP_EXT_PARAMS`, terminator
/// included. Trusted: the constant is declared as the C string `clap.params`.
#[verifier::external_body]
pub(crate) fn ext_params_identifier() -> (id: Vec<u8>)
    ensures
        id@ == params_identifier(),
{
    clap_sys::ext::params::CLAP_EXT_PARAMS.to_bytes_with_nul().to_vec()
}

} // verus!
