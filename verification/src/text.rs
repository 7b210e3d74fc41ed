//! Character-level helpers for the slash-delimited command paths and device
//! names: equality, prefix test, splitting, and appending a character.
use vstd::prelude::*;
use vstd::string::*;

verus! {

/// Compares two string slices character by character.
pub fn str_eq(a: &str, b: &str) -> (r: bool)
    ensures
        r == (a@ == b@),
{
    let alen = a.unicode_len();
    let blen = b.unicode_len();
    if alen != blen {
        return false;
    }
    let mut i: usize = 0;
    while i < alen
        invariant
            alen == a@.len(),
            blen == b@.len(),
            alen == blen,
            i <= alen,
            forall|j: int| 0 <= j < i ==> a@[j] == b@[j],
        decreases alen - i,
    {
        if a.get_char(i) != b.get_char(i) {
            return false;
        }
        i += 1;
    }
    proof {
        assert(a@ =~= b@);
    }
    true
}

/// Tests whether `p` is a character-wise prefix of `s`.
pub fn str_is_prefix(p: &str, s: &str) -> (r: bool)
    ensures
        r == p@.is_prefix_of(s@),
{
    let plen = p.unicode_len();
    let slen = s.unicode_len();
    if plen > slen {
        return false;
    }
    let mut i: usize = 0;
    while i < plen
        invariant
            plen == p@.len(),
            slen == s@.len(),
            plen <= slen,
            i <= plen,
            forall|j: int| 0 <= j < i ==> p@[j] == s@[j],
        decreases plen - i,
    {
        if p.get_char(i) != s.get_char(i) {
            assert(!p@.is_prefix_of(s@)) by {
                assert(s@.subrange(0, p@.len() as int)[i as int] == s@[i as int]);
            }
            return false;
        }
        i += 1;
    }
    proof {
        assert(p@ =~= s@.subrange(0, p@.len() as int));
    }
    true
}

/// The segments of `s` delimited by `/`, in order. The empty string has one
/// (empty) segment; every `/` starts a fresh segment, so a leading slash
/// yields an empty first segment.
pub open spec fn split_slash(s: Seq<char>) -> Seq<Seq<char>>
    decreases s.len(),
{
    if s.len() == 0 {
        seq![Seq::<char>::empty()]
    } else {
        let init = split_slash(s.drop_last());
        if s.last() == '/' {
            init.push(Seq::<char>::empty())
        } else {
            init.update(init.len() - 1, init.last().push(s.last()))
        }
    }
}

/// Splits an address path into its `/`-delimited segments.
pub fn split_path(addr: &str) -> (r: Vec<String>)
    ensures
        r.deep_view() == split_slash(addr@),
{
    let len = addr.unicode_len();
    let mut segs: Vec<String> = Vec::new();
    let mut cur: String = String::new();
    let mut i: usize = 0;
    while i < len
        invariant
            len == addr@.len(),
            i <= len,
            segs.deep_view().push(cur@) == split_slash(addr@.take(i as int)),
        decreases len - i,
    {
        let c = addr.get_char(i);
        proof {
            assert(addr@.take(i + 1 as int).drop_last() =~= addr@.take(i as int));
            assert(addr@.take(i + 1 as int).last() == addr@[i as int]);
        }
        if c == '/' {
            let ghost prev_segs = segs.deep_view();
            let ghost prev_cur = cur@;
            segs.push(cur);
            cur = String::new();
            proof {
                assert(segs.deep_view() =~= prev_segs.push(prev_cur));
                assert(segs.deep_view().push(cur@) =~= split_slash(addr@.take(i + 1 as int)));
            }
        } else {
            let ghost prev = segs.deep_view().push(cur@);
            push_char(&mut cur, c);
            proof {
                let target = split_slash(addr@.take(i + 1 as int));
                assert(target =~= prev.update(prev.len() - 1, prev.last().push(c)));
                assert(segs.deep_view().push(cur@) =~= target);
            }
        }
        i += 1;
    }
    proof {
        assert(addr@.take(len as int) =~= addr@);
    }
    segs.push(cur);
    proof {
        assert(segs.deep_view() =~= split_slash(addr@));
    }
    segs
}

/// Relies on `String::push`: appends the given character to the end of the string.
#[verifier::external_body]
pub fn push_char(s: &mut String, c: char)
    ensures
        final(s)@ == old(s)@.push(c),
{
    s.push(c);
}

} // verus!
