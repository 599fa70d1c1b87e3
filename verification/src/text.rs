//! Text that the window system hands back as UTF-16 code units.
use vstd::prelude::*;

verus! {

/// Whether `u` is a leading (high) surrogate.
pub open spec fn is_high_surrogate(u: u16) -> bool {
    0xD800 <= u <= 0xDBFF
}

/// Whether `u` is a trailing (low) surrogate.
pub open spec fn is_low_surrogate(u: u16) -> bool {
    0xDC00 <= u <= 0xDFFF
}

/// The characters that UTF-16 code units decode to, with U+FFFD in place of
/// each surrogate that is not part of a high-low pair.
pub open spec fn utf16_lossy(u: Seq<u16>) -> Seq<char>
    decreases u.len(),
{
    if u.len() == 0 {
        seq![]
    } else if u.len() >= 2 && is_high_surrogate(u[0]) && is_low_surrogate(u[1]) {
        seq![(0x10000 + (u[0] - 0xD800) * 0x400 + (u[1] - 0xDC00)) as char] + utf16_lossy(
            u.skip(2),
        )
    } else if is_high_surrogate(u[0]) || is_low_surrogate(u[0]) {
        seq!['\u{FFFD}'] + utf16_lossy(u.drop_first())
    } else {
        seq![u[0] as char] + utf16_lossy(u.drop_first())
    }
}

/// Decodes UTF-16 code units with `String::from_utf16_lossy`: surrogate
/// pairs become one character, unpaired surrogates become U+FFFD, every other
/// code unit becomes the character of that value.
#[verifier::external_body]
pub(crate) fn decode_utf16_lossy(units: &[u16]) -> (s: String)
    ensures
        s@ == utf16_lossy(units@),
{
    String::from_utf16_lossy(units)
}

/// The first `length` code units of `units`, decoded.
pub fn decode_prefix(units: &[u16], length: usize) -> (s: String)
    requires
        length <= units@.len(),
    ensures
        s@ == utf16_lossy(units@.take(length as int)),
{
    let prefix = vstd::slice::slice_subrange(units, 0, length);
    assert(units@.subrange(0, length as int) =~= units@.take(length as int));
    decode_utf16_lossy(prefix)
}

/// The part of `s` after the last `sep`, or all of `s` when it holds no
/// `sep` (the last piece of `s.split(sep)`).
pub open spec fn last_component(s: Seq<char>, sep: char) -> Seq<char>
    decreases s.len(),
{
    if s.len() == 0 {
        s
    } else if s.last() == sep {
        seq![]
    } else {
        last_component(s.drop_last(), sep).push(s.last())
    }
}

/// The part of `s` before the first `sep`, or all of `s` when it holds no
/// `sep` (the first piece of `s.split(sep)`).
pub open spec fn first_component(s: Seq<char>, sep: char) -> Seq<char>
    decreases s.len(),
{
    if s.len() == 0 || s[0] == sep {
        seq![]
    } else {
        seq![s[0]] + first_component(s.drop_first(), sep)
    }
}

/// The last piece of `s` split at `sep`.
pub fn last_piece(s: &str, sep: char) -> (r: String)
    ensures
        r@ == last_component(s@, sep),
{
    let n = s.unicode_len();
    let mut j: usize = n;
    assert(s@.take(n as int) =~= s@);
    assert(s@.subrange(n as int, n as int) =~= Seq::<char>::empty());
    while j > 0 && s.get_char(j - 1) != sep
        invariant
            j <= n,
            n == s@.len(),
            last_component(s@, sep) == last_component(s@.take(j as int), sep) + s@.subrange(
                j as int,
                n as int,
            ),
        decreases j,
    {
        let ghost t = s@.take(j as int);
        assert(t.drop_last() =~= s@.take(j - 1));
        assert(t.last() == s@[j - 1]);
        assert(s@.subrange(j - 1, n as int) =~= seq![s@[j - 1]] + s@.subrange(j as int, n as int));
        assert(last_component(t.drop_last(), sep).push(t.last()) + s@.subrange(j as int, n as int)
            =~= last_component(s@.take(j - 1), sep) + s@.subrange(j - 1, n as int));
        j = j - 1;
    }
    proof {
        let t = s@.take(j as int);
        if j > 0 {
            assert(t.last() == s@[j - 1]);
        }
        assert(seq![] + s@.subrange(j as int, n as int) =~= s@.subrange(j as int, n as int));
    }
    s.substring_char(j, n).to_owned()
}

/// The first piece of `s` split at `sep`.
pub fn first_piece(s: &str, sep: char) -> (r: String)
    ensures
        r@ == first_component(s@, sep),
{
    let n = s.unicode_len();
    let mut i: usize = 0;
    assert(s@.skip(0) =~= s@);
    assert(s@.take(0) + first_component(s@, sep) =~= first_component(s@, sep));
    while i < n && s.get_char(i) != sep
        invariant
            i <= n,
            n == s@.len(),
            first_component(s@, sep) == s@.take(i as int) + first_component(
                s@.skip(i as int),
                sep,
            ),
        decreases n - i,
    {
        let ghost t = s@.skip(i as int);
        assert(t[0] == s@[i as int]);
        assert(t.drop_first() =~= s@.skip(i + 1));
        assert(s@.take(i as int) + (seq![t[0]] + first_component(t.drop_first(), sep)) =~= s@.take(
            i + 1,
        ) + first_component(s@.skip(i + 1), sep));
        i = i + 1;
    }
    proof {
        let t = s@.skip(i as int);
        if i < n {
            assert(t[0] == s@[i as int]);
        }
        assert(s@.take(i as int) + seq![] =~= s@.take(i as int));
    }
    assert(s@.subrange(0, i as int) =~= s@.take(i as int));
    s.substring_char(0, i).to_owned()
}

/// The last piece of a split holds no separator and ends `s`.
pub proof fn lemma_last_component(s: Seq<char>, sep: char)
    ensures
        !last_component(s, sep).contains(sep),
        last_component(s, sep).len() <= s.len(),
        last_component(s, sep) == s.skip(s.len() - last_component(s, sep).len()),
        last_component(s, sep).len() < s.len() ==> s[s.len() - last_component(s, sep).len() - 1]
            == sep,
    decreases s.len(),
{
    if s.len() > 0 && s.last() != sep {
        let d = s.drop_last();
        lemma_last_component(d, sep);
        let l = last_component(d, sep);
        if l.len() < d.len() {
            assert(s[s.len() - (l.len() + 1) - 1] == d[d.len() - l.len() - 1]);
        }
        assert(l.push(s.last()) =~= s.skip(s.len() - (l.len() + 1)));
        assert forall|i: int| 0 <= i < l.len() + 1 implies l.push(s.last())[i] != sep by {
            if i < l.len() {
                assert(l.push(s.last())[i] == l[i]);
                assert(!l.contains(sep));
            }
        }
    } else if s.len() > 0 {
        assert(s.skip(s.len() as int) =~= Seq::<char>::empty());
    } else {
        assert(s.skip(0) =~= s);
    }
}

/// The first piece of a split holds no separator and begins `s`.
pub proof fn lemma_first_component(s: Seq<char>, sep: char)
    ensures
        !first_component(s, sep).contains(sep),
        first_component(s, sep).len() <= s.len(),
        first_component(s, sep) == s.take(first_component(s, sep).len() as int),
        first_component(s, sep).len() < s.len() ==> s[first_component(s, sep).len() as int]
            == sep,
    decreases s.len(),
{
    if s.len() > 0 && s[0] != sep {
        let d = s.drop_first();
        lemma_first_component(d, sep);
        let f = first_component(d, sep);
        if f.len() < d.len() {
            assert(s[(f.len() + 1) as int] == d[f.len() as int]);
        }
        assert(seq![s[0]] + f =~= s.take((f.len() + 1) as int));
        assert forall|i: int| 0 <= i < f.len() + 1 implies (seq![s[0]] + f)[i] != sep by {
            if i > 0 {
                assert((seq![s[0]] + f)[i] == f[i - 1]);
                assert(!f.contains(sep));
            }
        }
    } else {
        assert(s.take(0) =~= Seq::<char>::empty());
    }
}

} // verus!
