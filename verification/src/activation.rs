//! The token that a program was started with, which lets its first window take the focus.

use vstd::prelude::*;
use crate::xstate::{find_zero, utf8_text};

verus! {

/// What comes before the token in the environment of a program.
pub open spec fn token_prefix() -> Seq<u8> {
    vstd::utf8::encode_utf8("XDG_ACTIVATION_TOKEN="@)
}

/// Whether one variable stands in a range of an environment, which separates variables by zeros.
pub open spec fn is_entry(environ: Seq<u8>, start: int, end: int) -> bool {
    &&& 0 <= start <= end <= environ.len()
    &&& start == 0 || environ[start - 1] == 0
    &&& end == environ.len() || environ[end] == 0
    &&& forall|k: int| start <= k < end ==> #[trigger] environ[k] != 0
}

/// Whether the variable in a range holds a token.
pub open spec fn is_token_entry(environ: Seq<u8>, start: int, end: int) -> bool {
    &&& is_entry(environ, start, end)
    &&& token_prefix().len() <= end - start
    &&& environ.subrange(start, start + token_prefix().len()) == token_prefix()
}

/// Whether the variable in a range is the first that holds a token.
pub open spec fn is_first_token(environ: Seq<u8>, start: int, end: int) -> bool {
    &&& is_token_entry(environ, start, end)
    &&& forall|s: int, e: int| #[trigger] is_token_entry(environ, s, e) ==> start <= s
}

/// The bytes of a token that stands in a range.
pub open spec fn token_bytes(environ: Seq<u8>, start: int, end: int) -> Seq<u8> {
    environ.subrange(start + token_prefix().len(), end)
}

/// Whether bytes that start at a place are those of a prefix.
fn starts_with(environ: &[u8], start: usize, end: usize, prefix: &[u8]) -> (r: bool)
    requires
        start <= end <= environ@.len(),
    ensures
        r == (prefix@.len() <= end - start && environ@.subrange(
            start as int,
            start + prefix@.len(),
        ) == prefix@),
{
    if end - start < prefix.len() {
        return false;
    }
    let mut i: usize = 0;
    while i < prefix.len()
        invariant
            i <= prefix@.len() <= end - start,
            end <= environ@.len(),
            forall|k: int| 0 <= k < i ==> environ@[start + k] == #[trigger] prefix@[k],
        decreases prefix.len() - i,
    {
        if environ[start + i] != prefix[i] {
            assert(environ@.subrange(start as int, start + prefix@.len())[i as int]
                != prefix@[i as int]);
            return false;
        }
        i += 1;
    }
    assert(environ@.subrange(start as int, start + prefix@.len()) =~= prefix@);
    true
}

/// The token in the environment of a program: that of the first variable that holds one, if it is
/// text.
pub fn activation_token(environ: &[u8]) -> (token: Option<String>)
    ensures
        match token {
            Some(token) => exists|s: int, e: int| #[trigger]
                is_first_token(environ@, s, e) && vstd::utf8::valid_utf8(
                    token_bytes(environ@, s, e),
                ) && token@ == vstd::utf8::decode_utf8(token_bytes(environ@, s, e)),
            None => forall|s: int, e: int| #[trigger]
                is_first_token(environ@, s, e) ==> !vstd::utf8::valid_utf8(
                    token_bytes(environ@, s, e),
                ),
        },
{
    let prefix = "XDG_ACTIVATION_TOKEN=".as_bytes();
    let len: usize = environ.len();
    let mut start: usize = 0;
    while start < len
        invariant
            len == environ@.len(),
            start <= len,
            prefix@ == token_prefix(),
            start == 0 || environ@[start - 1] == 0 || start == len,
            forall|s: int, e: int| #[trigger] is_token_entry(environ@, s, e) ==> start <= s,
        decreases len - start,
    {
        let end = match find_zero(environ, start) {
            Some(end) => end,
            None => len,
        };
        proof {
            assert forall|k: int| start <= k < end implies #[trigger] environ@[k] != 0 by {
                assert(environ@.skip(start as int)[k - start] != 0);
            }
            if end < len {
                assert(environ@.skip(start as int)[end - start] == 0);
            }
            assert(is_entry(environ@, start as int, end as int));
            assert forall|e: int| is_entry(environ@, start as int, e) implies e == end by {
                if e < end {
                    assert(environ@[e] != 0);
                }
                if e > end {
                    assert(environ@[end as int] != 0);
                }
            }
        }
        if starts_with(environ, start, end, prefix) {
            assert(is_first_token(environ@, start as int, end as int));
            let bytes = vstd::slice::slice_to_vec(
                vstd::slice::slice_subrange(environ, start + prefix.len(), end),
            );
            assert(bytes@ =~= token_bytes(environ@, start as int, end as int));
            proof {
                assert forall|s: int, e: int| #[trigger] is_first_token(environ@, s, e) implies s
                    == start && e == end by {
                    assert(is_token_entry(environ@, start as int, end as int));
                }
            }
            return utf8_text(bytes);
        }
        proof {
            assert forall|s: int, e: int| #[trigger] is_token_entry(environ@, s, e) implies end
                < s by {
                if s <= end {
                    if s > start {
                        assert(environ@[s - 1] != 0);
                    }
                    assert(is_entry(environ@, start as int, e));
                }
            }
        }
        if end == len {
            start = len;
        } else {
            start = end + 1;
        }
    }
    proof {
        assert forall|s: int, e: int| !(#[trigger] is_first_token(environ@, s, e)) by {
            if is_first_token(environ@, s, e) {
                assert(is_token_entry(environ@, s, e));
                reveal_strlit("XDG_ACTIVATION_TOKEN=");
                vstd::utf8::encode_utf8_first_scalar("XDG_ACTIVATION_TOKEN="@);
                assert(token_prefix().len() > 0);
            }
        }
    }
    None
}

/// A token that a program was started with is found: the bytes behind the name of its variable, up
/// to where the variable ends.
pub proof fn law_token_is_found(token: Seq<u8>, rest: Seq<u8>)
    requires
        forall|k: int| 0 <= k < token.len() ==> #[trigger] token[k] != 0,
    ensures
        ({
            let name = vstd::utf8::encode_utf8("XDG_ACTIVATION_TOKEN="@);
            let environ = name + token + seq![0u8] + rest;
            let end = (name.len() + token.len()) as int;
            &&& is_first_token(environ, 0, end)
            &&& token_bytes(environ, 0, end) == token
        }),
{
    let word = "XDG_ACTIVATION_TOKEN="@;
    let name = vstd::utf8::encode_utf8(word);
    let environ = name + token + seq![0u8] + rest;
    let end = (name.len() + token.len()) as int;
    reveal_strlit("XDG_ACTIVATION_TOKEN=");
    assert(vstd::utf8::is_ascii_chars(word));
    vstd::utf8::is_ascii_chars_encode_utf8(word);
    assert forall|k: int| 0 <= k < end implies #[trigger] environ[k] != 0 by {
        if k < name.len() {
            assert(environ[k] == name[k]);
            assert(word[k] as u8 == name[k]);
        } else {
            assert(environ[k] == token[k - name.len()]);
        }
    }
    assert(environ[end] == 0);
    assert(environ.subrange(0, name.len() as int) =~= name);
    assert(environ.subrange(name.len() as int, end) =~= token);
    assert(is_entry(environ, 0, end));
    assert(is_token_entry(environ, 0, end));
}

} // verus!
