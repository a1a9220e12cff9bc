//! Text that crosses the boundary as nul-terminated bytes.

use vstd::prelude::*;
use vstd::slice::{slice_subrange, slice_to_vec};

verus! {

/// No byte of `s` is the terminator.
pub open spec fn nul_free(s: Seq<u8>) -> bool {
    forall|i: int| 0 <= i < s.len() ==> s[i] != 0
}

/// `n` is where the text at the start of `buffer` ends: at its first
/// terminator, or at the end of the buffer when it holds none.
pub open spec fn is_text_end(buffer: Seq<u8>, n: int) -> bool {
    &&& 0 <= n <= buffer.len()
    &&& forall|i: int| 0 <= i < n ==> buffer[i] != 0
    &&& n < buffer.len() ==> buffer[n] == 0
}

/// `text` is the text at the start of `buffer`: the bytes before the first
/// terminator, or the whole buffer when it holds none.
pub open spec fn is_text_of(buffer: Seq<u8>, text: Seq<u8>) -> bool {
    &&& is_text_end(buffer, text.len() as int)
    &&& text == buffer.take(text.len() as int)
}

/// Length of the text at the start of `buffer`.
pub open spec fn text_len(buffer: Seq<u8>) -> int {
    match buffer.index_of_first(0u8) {
        Some(i) => i,
        None => buffer.len() as int,
    }
}

/// The text at the start of `buffer`, without its terminator.
pub open spec fn text_of(buffer: Seq<u8>) -> Seq<u8> {
    buffer.take(text_len(buffer))
}

/// `text_len` is the one position at which the text of a buffer ends.
pub proof fn lemma_text_len(buffer: Seq<u8>)
    ensures
        is_text_end(buffer, text_len(buffer)),
        forall|n: int| is_text_end(buffer, n) ==> n == text_len(buffer),
{
    buffer.index_of_first_ensures(0u8);
    let len = text_len(buffer);
    assert forall|n: int| is_text_end(buffer, n) implies n == len by {
        if n < len {
            assert(buffer[n] == 0);
        } else if len < n {
            assert(buffer[len] == 0);
        }
    }
}

/// The text of a buffer is its one prefix that ends at the first
/// terminator. It never holds a terminator, and it is the whole buffer
/// exactly when the buffer holds none.
pub proof fn lemma_text_of(buffer: Seq<u8>)
    ensures
        is_text_of(buffer, text_of(buffer)),
        forall|text: Seq<u8>| is_text_of(buffer, text) ==> text == text_of(buffer),
        nul_free(text_of(buffer)),
        text_of(buffer).len() == text_len(buffer),
        nul_free(buffer) <==> text_of(buffer) == buffer,
{
    lemma_text_len(buffer);
    let n = text_len(buffer);
    if nul_free(buffer) {
        if n < buffer.len() {
            assert(buffer[n] == 0);
        }
        assert(text_of(buffer) =~= buffer);
    }
    if text_of(buffer) == buffer {
        assert(n == buffer.len());
    }
}

/// The bytes that a remote wrote into `buffer`, up to and without the first
/// terminator; the whole buffer when it wrote none.
pub fn written_text<'b>(buffer: &'b [u8]) -> (text: &'b [u8])
    ensures
        text@ == text_of(buffer@),
        is_text_of(buffer@, text@),
        nul_free(text@),
        nul_free(buffer@) ==> text@ == buffer@,
{
    let mut n: usize = 0;
    while n < buffer.len()
        invariant
            n <= buffer@.len(),
            forall|i: int| 0 <= i < n ==> buffer@[i] != 0,
        ensures
            n < buffer@.len() ==> buffer@[n as int] == 0,
        decreases buffer@.len() - n,
    {
        if buffer[n] == 0 {
            break;
        }
        n += 1;
    }
    proof {
        lemma_text_len(buffer@);
        lemma_text_of(buffer@);
        assert(is_text_end(buffer@, n as int));
    }
    slice_subrange(buffer, 0, n)
}

/// `s` is a text followed by its terminator, and nothing more.
pub open spec fn is_c_string(s: Seq<u8>) -> bool {
    &&& s.len() > 0
    &&& s.last() == 0
    &&& nul_free(s.drop_last())
}

/// A text with its terminator added is a well-formed C string, and reading
/// it back up to the terminator gives the text again.
pub proof fn lemma_terminated(text: Seq<u8>)
    requires
        nul_free(text),
    ensures
        is_c_string(text.push(0)),
        text_of(text.push(0)) == text,
{
    let s = text.push(0);
    assert(s.drop_last() =~= text);
    assert(is_text_end(s, text.len() as int));
    lemma_text_len(s);
    assert(text_of(s) =~= text);
}

/// Text that a host hands to a remote. It holds no terminator; one is added
/// when the text is marshalled.
pub struct DisplayText {
    text: Vec<u8>,
}

impl View for DisplayText {
    type V = Seq<u8>;

    closed spec fn view(&self) -> Seq<u8> {
        self.text@
    }
}

impl DisplayText {
    #[verifier::type_invariant]
    spec fn holds_no_terminator(self) -> bool {
        nul_free(self.text@)
    }

    /// Accepts `text` exactly when it holds no terminator.
    pub fn new(text: &[u8]) -> (r: Option<DisplayText>)
        ensures
            r is Some <==> nul_free(text@),
            r matches Some(d) ==> d@ == text@,
    {
        let head = written_text(text);
        if head.len() == text.len() {
            Some(DisplayText { text: slice_to_vec(text) })
        } else {
            proof {
                lemma_text_of(text@);
            }
            None
        }
    }

    /// The text, without a terminator.
    pub fn as_bytes(&self) -> (r: &[u8])
        ensures
            r@ == self@,
            nul_free(r@),
    {
        proof {
            use_type_invariant(self);
        }
        self.text.as_slice()
    }

    /// The text as it is handed to a remote: followed by one terminator.
    pub fn to_bytes_with_nul(&self) -> (r: Vec<u8>)
        ensures
            r@ == self@.push(0),
            is_c_string(r@),
    {
        proof {
            use_type_invariant(self);
            lemma_terminated(self.text@);
        }
        let mut bytes = self.text.clone();
        bytes.push(0);
        bytes
    }
}

} // verus!
