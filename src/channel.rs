//! Naming of the rendezvous channel that supervisor instances meet on.
use vstd::prelude::*;

verus! {

/// Namespace under which every rendezvous channel is created.
pub const CHANNEL_PREFIX: &'static str = "\\\\.\\pipe\\one_instance_";

/// The character that a file name may not carry into a channel name.
pub open spec fn is_unsafe_char(c: char) -> bool {
    c == '.'
}

/// What a single character of a file name becomes in a channel name.
pub open spec fn sanitize_char(c: char) -> char {
    if is_unsafe_char(c) {
        '_'
    } else {
        c
    }
}

/// A file name with each `.` replaced by `_`.
pub open spec fn sanitized(name: Seq<char>) -> Seq<char> {
    name.map_values(|c: char| sanitize_char(c))
}

/// The channel name for a target whose base file name is `name`.
pub open spec fn channel_name_of(name: Seq<char>) -> Seq<char> {
    CHANNEL_PREFIX@ + sanitized(name)
}

/// Relies on `String::push`: appends one character at the end of the string.
#[verifier::external_body]
fn push_char(s: &mut String, c: char)
    ensures
        final(s)@ == old(s)@.push(c),
{
    s.push(c)
}

/// The name of the rendezvous channel for a target whose base file name is
/// `file_name`: the fixed prefix followed by the sanitized file name.
pub fn channel_name(file_name: &str) -> (r: String)
    ensures
        r@ == channel_name_of(file_name@),
{
    let mut out = CHANNEL_PREFIX.to_owned();
    let n = file_name.unicode_len();
    let mut i: usize = 0;
    while i < n
        invariant
            n == file_name@.len(),
            i <= n,
            out@ == CHANNEL_PREFIX@ + sanitized(file_name@.take(i as int)),
        decreases n - i,
    {
        let c = file_name.get_char(i);
        let d = if c == '.' { '_' } else { c };
        push_char(&mut out, d);
        proof {
            assert(file_name@.take(i + 1) == file_name@.take(i as int).push(c));
            assert(sanitized(file_name@.take(i + 1)) =~= sanitized(file_name@.take(i as int)).push(d));
        }
        i = i + 1;
        proof {
            assert(out@ =~= CHANNEL_PREFIX@ + sanitized(file_name@.take(i as int)));
        }
    }
    proof {
        assert(file_name@.take(n as int) == file_name@);
    }
    out
}

/// Two file names share a channel when they have the same length and, at every
/// position, hold the same character or one holds `.` where the other holds `_`.
pub open spec fn share_channel(a: Seq<char>, b: Seq<char>) -> bool {
    &&& a.len() == b.len()
    &&& forall|i: int|
        0 <= i < a.len() ==> (a[i] == b[i] || (a[i] == '.' && b[i] == '_') || (a[i] == '_'
            && b[i] == '.'))
}

/// Channel names are equal exactly when the file names share a channel: the
/// sanitization aliases `.` with `_` and keeps every other character apart.
pub proof fn lemma_channel_name_alias(a: Seq<char>, b: Seq<char>)
    ensures
        channel_name_of(a) == channel_name_of(b) <==> share_channel(a, b),
{
    let p = CHANNEL_PREFIX@;
    if channel_name_of(a) == channel_name_of(b) {
        assert(sanitized(a) =~= channel_name_of(a).subrange(p.len() as int, channel_name_of(a).len() as int));
        assert(sanitized(b) =~= channel_name_of(b).subrange(p.len() as int, channel_name_of(b).len() as int));
        assert forall|i: int| 0 <= i < a.len() implies (a[i] == b[i] || (a[i] == '.' && b[i] == '_')
            || (a[i] == '_' && b[i] == '.')) by {
            assert(sanitized(a)[i] == sanitized(b)[i]);
        }
    }
    if share_channel(a, b) {
        assert(sanitized(a) =~= sanitized(b));
    }
}

/// A file name without `_` has a channel to itself: no other file name maps to
/// the same channel name.
pub proof fn lemma_channel_name_injective(a: Seq<char>, b: Seq<char>)
    requires
        !a.contains('_'),
        !b.contains('_'),
        channel_name_of(a) == channel_name_of(b),
    ensures
        a == b,
{
    lemma_channel_name_alias(a, b);
    assert forall|i: int| 0 <= i < a.len() implies a[i] == b[i] by {
        if a[i] != b[i] {
            if a[i] == '_' {
                assert(a.contains('_'));
            } else {
                assert(b[i] == '_');
                assert(b.contains('_'));
            }
        }
    }
    assert(a =~= b);
}

} // verus!
