//! Credential material: PEM text made ready for the secure transport.
use vstd::prelude::*;

verus! {

/// Whether `s` holds no NUL byte.
pub open spec fn nul_free(s: Seq<u8>) -> bool {
    forall|i: int| 0 <= i < s.len() ==> s[i] != 0
}

/// Whether `s` ends in exactly one NUL byte, its only one.
pub open spec fn is_nul_terminated(s: Seq<u8>) -> bool {
    &&& s.len() > 0
    &&& s.last() == 0
    &&& nul_free(s.drop_last())
}

/// Whether `i` is where the first NUL byte of `s` stands.
pub open spec fn is_first_nul(s: Seq<u8>, i: int) -> bool {
    &&& 0 <= i < s.len()
    &&& s[i] == 0
    &&& nul_free(s.subrange(0, i))
}

/// The length of the text in `s`: everything before its first NUL byte, or
/// all of `s` where it has none.
pub open spec fn text_len(s: Seq<u8>) -> int {
    if nul_free(s) {
        s.len() as int
    } else {
        choose|i: int| is_first_nul(s, i)
    }
}

/// Where a NUL byte stands at `j`, a first one stands at or before `j`.
proof fn lemma_first_nul_exists(s: Seq<u8>, j: int)
    requires
        0 <= j < s.len(),
        s[j] == 0,
    ensures
        exists|i: int| is_first_nul(s, i),
    decreases j,
{
    if nul_free(s.subrange(0, j)) {
        assert(is_first_nul(s, j));
    } else {
        let k = choose|k: int| 0 <= k < j && #[trigger] s.subrange(0, j)[k] == 0;
        lemma_first_nul_exists(s, k);
    }
}

/// What [`text_len`] gives: the length of a NUL-free prefix that is all of
/// `s` or is followed by a NUL byte.
pub proof fn lemma_text_len(s: Seq<u8>)
    ensures
        0 <= text_len(s) <= s.len(),
        nul_free(s.subrange(0, text_len(s))),
        text_len(s) < s.len() ==> s[text_len(s)] == 0,
{
    if nul_free(s) {
        assert(s.subrange(0, s.len() as int) == s);
    } else {
        let j = choose|j: int| 0 <= j < s.len() && s[j] == 0;
        lemma_first_nul_exists(s, j);
    }
}

/// What the transport receives for raw credential bytes `raw`: the text of
/// `raw` followed by one NUL byte.
pub open spec fn nul_terminated_of(raw: Seq<u8>) -> Seq<u8> {
    raw.subrange(0, text_len(raw)).push(0u8)
}

/// Loading text that holds no NUL byte, as PEM text never does, appends
/// exactly one NUL byte and changes nothing else.
pub proof fn lemma_load_appends_one_nul(raw: Seq<u8>)
    requires
        nul_free(raw),
    ensures
        nul_terminated_of(raw) == raw.push(0u8),
        is_nul_terminated(nul_terminated_of(raw)),
{
    assert(raw.subrange(0, raw.len() as int) == raw);
    assert(raw.push(0u8).drop_last() == raw);
}

/// Credential bytes that end in a single NUL byte.
///
/// The value owns its storage and offers no way to change it, so a view
/// taken with [`NulTerminatedCredential::as_bytes`] stays valid, at the same
/// address, for as long as the credential itself is alive.
pub struct NulTerminatedCredential {
    bytes: Vec<u8>,
}

impl View for NulTerminatedCredential {
    type V = Seq<u8>;

    closed spec fn view(&self) -> Seq<u8> {
        self.bytes@
    }
}

impl NulTerminatedCredential {
    #[verifier::type_invariant]
    spec fn terminated(&self) -> bool {
        is_nul_terminated(self.bytes@)
    }

    /// Takes ownership of `raw` and ends its text with one NUL byte.
    ///
    /// The text of `raw` is everything before its first NUL byte; the bytes
    /// from there on are dropped. PEM text holds no NUL byte, so for it the
    /// result is `raw` with one NUL byte appended. The buffer of `raw` is
    /// reused, not copied. Whether the text is PEM is not checked here.
    pub fn load(raw: Vec<u8>) -> (r: NulTerminatedCredential)
        ensures
            r@ == nul_terminated_of(raw@),
            is_nul_terminated(r@),
    {
        let mut bytes = raw;
        let n = bytes.len();
        let mut i: usize = 0;
        while i < n
            invariant
                bytes@ == raw@,
                n == raw@.len(),
                i <= n,
                nul_free(raw@.subrange(0, i as int)),
            ensures
                i <= n,
                nul_free(raw@.subrange(0, i as int)),
                i < n ==> raw@[i as int] == 0,
            decreases n - i,
        {
            if bytes[i] == 0 {
                break;
            }
            assert(raw@.subrange(0, i as int + 1) == raw@.subrange(0, i as int).push(raw@[i as int]));
            i = i + 1;
        }
        proof {
            if i < n {
                assert(is_first_nul(raw@, i as int));
                assert(!nul_free(raw@));
                let j = choose|j: int| is_first_nul(raw@, j);
                if j < i {
                    assert(raw@.subrange(0, i as int)[j] == raw@[j]);
                } else if i < j {
                    assert(raw@.subrange(0, j)[i as int] == raw@[i as int]);
                }
            } else {
                assert(raw@.subrange(0, n as int) == raw@);
            }
        }
        bytes.truncate(i);
        bytes.push(0u8);
        proof {
            assert(bytes@.drop_last() == raw@.subrange(0, i as int));
        }
        NulTerminatedCredential { bytes }
    }

    /// A read-only view of the bytes, NUL byte included.
    pub fn as_bytes(&self) -> (r: &[u8])
        ensures
            r@ == self@,
            is_nul_terminated(r@),
    {
        proof {
            use_type_invariant(self);
        }
        self.bytes.as_slice()
    }

    /// The number of bytes, NUL byte included.
    pub fn len(&self) -> (r: usize)
        ensures
            r == self@.len(),
            r > 0,
    {
        proof {
            use_type_invariant(self);
        }
        self.bytes.len()
    }
}

} // verus!
