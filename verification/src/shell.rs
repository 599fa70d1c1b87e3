//! Parsing of the shell commands that the window manager launches.
use vstd::prelude::*;

use crate::error::Error;

verus! {

/// Whether `c` has the Unicode `White_Space` property (the test that
/// `char::is_whitespace`, `str::trim` and `str::split_whitespace` use).
pub open spec fn is_whitespace(c: char) -> bool {
    let u = c as u32;
    ||| 0x9 <= u <= 0xd
    ||| u == 0x20
    ||| u == 0x85
    ||| u == 0xa0
    ||| u == 0x1680
    ||| 0x2000 <= u <= 0x200a
    ||| u == 0x2028
    ||| u == 0x2029
    ||| u == 0x202f
    ||| u == 0x205f
    ||| u == 0x3000
}

/// Whether every character of `s` is whitespace (so `s.trim()` is empty).
pub open spec fn all_whitespace(s: Seq<char>) -> bool {
    forall|i: int| 0 <= i < s.len() ==> is_whitespace(#[trigger] s[i])
}

/// Length of the run of non-whitespace characters at the start of `s`.
pub open spec fn word_len(s: Seq<char>) -> nat
    decreases s.len(),
{
    if s.len() == 0 || is_whitespace(s[0]) {
        0
    } else {
        1 + word_len(s.drop_first())
    }
}

/// `word_len` never exceeds the length, and is positive when `s` starts
/// with a non-whitespace character.
pub proof fn lemma_word_len_bounds(s: Seq<char>)
    ensures
        word_len(s) <= s.len(),
        s.len() > 0 && !is_whitespace(s[0]) ==> word_len(s) >= 1,
    decreases s.len(),
{
    if s.len() > 0 && !is_whitespace(s[0]) {
        lemma_word_len_bounds(s.drop_first());
    }
}

/// The maximal runs of non-whitespace characters of `s`, in order: what
/// `str::split_whitespace` yields.
pub open spec fn split_whitespace(s: Seq<char>) -> Seq<Seq<char>>
    decreases s.len(),
{
    if s.len() == 0 {
        seq![]
    } else if is_whitespace(s[0]) {
        split_whitespace(s.drop_first())
    } else {
        proof {
            lemma_word_len_bounds(s);
        }
        seq![s.take(word_len(s) as int)] + split_whitespace(s.skip(word_len(s) as int))
    }
}

/// Index of the occurrence number `n` (counted from zero) of `c` in `s`.
pub open spec fn nth_index_of(s: Seq<char>, c: char, n: nat) -> Option<int>
    decreases s.len(),
{
    if s.len() == 0 {
        None
    } else if s[0] == c && n == 0 {
        Some(0)
    } else {
        let rest = if s[0] == c {
            (n - 1) as nat
        } else {
            n
        };
        shift_index(nth_index_of(s.drop_first(), c, rest), 1)
    }
}

/// Adds `by` to an optional index.
pub open spec fn shift_index(o: Option<int>, by: int) -> Option<int> {
    match o {
        Some(i) => Some(i + by),
        None => None,
    }
}

/// The views of a sequence of strings.
pub open spec fn string_views(v: Seq<String>) -> Seq<Seq<char>> {
    v.map_values(|w: String| w@)
}

/// Whether `c` is whitespace, as `char::is_whitespace` decides.
pub fn is_whitespace_char(c: char) -> (r: bool)
    ensures
        r == is_whitespace(c),
{
    let u = c as u32;
    (0x9 <= u && u <= 0xd) || u == 0x20 || u == 0x85 || u == 0xa0 || u == 0x1680 || (0x2000 <= u
        && u <= 0x200a) || u == 0x2028 || u == 0x2029 || u == 0x202f || u == 0x205f || u == 0x3000
}

/// Whether `s` holds nothing but whitespace, so that `s.trim()` is empty.
pub fn is_blank(s: &str) -> (r: bool)
    ensures
        r == all_whitespace(s@),
{
    let n = s.unicode_len();
    let mut i: usize = 0;
    while i < n
        invariant
            i <= n,
            n == s@.len(),
            forall|k: int| 0 <= k < i ==> is_whitespace(#[trigger] s@[k]),
        decreases n - i,
    {
        if !is_whitespace_char(s.get_char(i)) {
            return false;
        }
        i = i + 1;
    }
    true
}

proof fn lemma_word_len_exact(t: Seq<char>, m: nat)
    requires
        m <= t.len(),
        forall|k: int| 0 <= k < m ==> !is_whitespace(#[trigger] t[k]),
        m == t.len() || is_whitespace(t[m as int]),
    ensures
        word_len(t) == m,
    decreases m,
{
    if m > 0 {
        let d = t.drop_first();
        assert forall|k: int| 0 <= k < m - 1 implies !is_whitespace(#[trigger] d[k]) by {
            assert(d[k] == t[k + 1]);
        }
        lemma_word_len_exact(d, (m - 1) as nat);
    }
}

/// A string that does not consist of whitespace alone has at least one word.
pub proof fn lemma_split_nonempty(s: Seq<char>)
    requires
        !all_whitespace(s),
    ensures
        split_whitespace(s).len() > 0,
    decreases s.len(),
{
    if is_whitespace(s[0]) {
        let d = s.drop_first();
        let i = choose|i: int| 0 <= i < s.len() && !is_whitespace(#[trigger] s[i]);
        assert(d[i - 1] == s[i]);
        lemma_split_nonempty(d);
    }
}

/// Whether `w` is a word: non-empty, with no whitespace in it.
pub open spec fn is_word(w: Seq<char>) -> bool {
    w.len() > 0 && forall|k: int| 0 <= k < w.len() ==> !is_whitespace(#[trigger] w[k])
}

/// Every piece of a whitespace split is a word.
pub proof fn lemma_split_gives_words(s: Seq<char>)
    ensures
        forall|i: int|
            0 <= i < split_whitespace(s).len() ==> is_word(#[trigger] split_whitespace(s)[i]),
    decreases s.len(),
{
    if s.len() == 0 {
    } else if is_whitespace(s[0]) {
        lemma_split_gives_words(s.drop_first());
        assert(split_whitespace(s) == split_whitespace(s.drop_first()));
    } else {
        let n = word_len(s);
        lemma_word_len_bounds(s);
        lemma_word_prefix(s);
        lemma_split_gives_words(s.skip(n as int));
        let rest = split_whitespace(s.skip(n as int));
        let all = split_whitespace(s);
        assert(all == seq![s.take(n as int)] + rest);
        assert forall|i: int| 0 <= i < all.len() implies is_word(#[trigger] all[i]) by {
            if i == 0 {
                assert(all[0] == s.take(n as int));
                assert forall|k: int| 0 <= k < all[0].len() implies !is_whitespace(
                    #[trigger] all[0][k],
                ) by {
                    assert(all[0][k] == s[k]);
                }
            } else {
                assert(all[i] == rest[i - 1]);
            }
        }
    }
}

proof fn lemma_word_prefix(s: Seq<char>)
    ensures
        forall|k: int| 0 <= k < word_len(s) ==> !is_whitespace(#[trigger] s[k]),
    decreases s.len(),
{
    if s.len() > 0 && !is_whitespace(s[0]) {
        let d = s.drop_first();
        lemma_word_len_bounds(s);
        lemma_word_prefix(d);
        assert forall|k: int| 0 <= k < word_len(s) implies !is_whitespace(#[trigger] s[k]) by {
            if k > 0 {
                assert(s[k] == d[k - 1]);
            }
        }
    }
}

/// The words of `s` from character `from` on, as `split_whitespace` gives
/// them.
pub fn split_whitespace_from(s: &str, from: usize) -> (words: Vec<String>)
    requires
        from <= s@.len(),
    ensures
        string_views(words@) == split_whitespace(s@.skip(from as int)),
{
    let n = s.unicode_len();
    let mut words: Vec<String> = Vec::new();
    let mut i: usize = from;
    while i < n
        invariant
            from <= i <= n,
            n == s@.len(),
            string_views(words@) + split_whitespace(s@.skip(i as int)) == split_whitespace(
                s@.skip(from as int),
            ),
        decreases n - i,
    {
        let ghost t = s@.skip(i as int);
        assert(t[0] == s@[i as int]);
        assert(t.drop_first() =~= s@.skip(i + 1));
        if is_whitespace_char(s.get_char(i)) {
            i = i + 1;
        } else {
            let mut j: usize = i + 1;
            while j < n && !is_whitespace_char(s.get_char(j))
                invariant
                    i < j <= n,
                    n == s@.len(),
                    forall|k: int| i <= k < j ==> !is_whitespace(#[trigger] s@[k]),
                decreases n - j,
            {
                j = j + 1;
            }
            proof {
                let m = (j - i) as nat;
                assert forall|k: int| 0 <= k < m implies !is_whitespace(#[trigger] t[k]) by {
                    assert(t[k] == s@[i + k]);
                }
                if j < n {
                    assert(t[m as int] == s@[j as int]);
                }
                lemma_word_len_exact(t, m);
                assert(t.take(m as int) =~= s@.subrange(i as int, j as int));
                assert(t.skip(m as int) =~= s@.skip(j as int));
            }
            let w = s.substring_char(i, j).to_owned();
            let ghost before = words@;
            words.push(w);
            proof {
                assert(string_views(words@) =~= string_views(before).push(w@));
                assert(string_views(words@) + split_whitespace(s@.skip(j as int)) =~= string_views(
                    before,
                ) + (seq![w@] + split_whitespace(s@.skip(j as int))));
            }
            i = j;
        }
    }
    assert(s@.skip(n as int) =~= Seq::<char>::empty());
    assert(string_views(words@) + seq![] =~= string_views(words@));
    words
}

/// An occurrence index found by `nth_index_of` lies inside `s` and holds `c`.
pub proof fn lemma_nth_index_bounds(s: Seq<char>, c: char, n: nat)
    ensures
        nth_index_of(s, c, n) matches Some(i) ==> 0 <= i < s.len() && s[i] == c,
    decreases s.len(),
{
    if s.len() > 0 && !(s[0] == c && n == 0) {
        let rest = if s[0] == c {
            (n - 1) as nat
        } else {
            n
        };
        lemma_nth_index_bounds(s.drop_first(), c, rest);
        if let Some(i) = nth_index_of(s.drop_first(), c, rest) {
            assert(s[i + 1] == s.drop_first()[i]);
        }
    }
}

/// Index of occurrence number `n` (counted from zero) of `c` in `s`.
pub fn find_nth_char(s: &str, c: char, n: usize) -> (r: Option<usize>)
    ensures
        r matches Some(i) ==> nth_index_of(s@, c, n as nat) == Some(i as int),
        r is None ==> nth_index_of(s@, c, n as nat) is None,
{
    let len = s.unicode_len();
    let mut i: usize = 0;
    let mut remaining: usize = n;
    assert(s@.skip(0) =~= s@);
    while i < len
        invariant
            i <= len,
            len == s@.len(),
            remaining <= n,
            nth_index_of(s@, c, n as nat) == shift_index(
                nth_index_of(s@.skip(i as int), c, remaining as nat),
                i as int,
            ),
        decreases len - i,
    {
        let ghost t = s@.skip(i as int);
        assert(t[0] == s@[i as int]);
        assert(t.drop_first() =~= s@.skip(i + 1));
        let ch = s.get_char(i);
        if ch == c && remaining == 0 {
            return Some(i);
        }
        if ch == c {
            remaining = remaining - 1;
        }
        i = i + 1;
    }
    assert(s@.skip(len as int) =~= Seq::<char>::empty());
    None
}

/// The program to start and the arguments to hand it.
pub struct ShellCommand {
    pub program: String,
    pub args: Vec<String>,
}

/// The error text for a command that holds nothing but whitespace.
pub open spec fn no_command_text() -> Seq<char> {
    "No command provided"@
}

/// The error text for a quoted command without a closing quote.
pub open spec fn missing_quote_text(command: Seq<char>) -> Seq<char> {
    "Command doesn't have an ending `\"`: '"@ + command + "'."@
}

/// Refuses a command that holds nothing but whitespace, with the error
/// "No command provided"; any other command passes.
pub fn check_command_present(command: &str) -> (r: Result<(), Error>)
    ensures
        all_whitespace(command@) ==> (r matches Err(Error::Platform(m)) && m@ == no_command_text()),
        !all_whitespace(command@) ==> r is Ok,
{
    if is_blank(command) {
        Err(Error::Platform("No command provided".to_owned()))
    } else {
        Ok(())
    }
}

/// Splits a shell command into the program and its arguments.
///
/// A command that holds nothing but whitespace is refused. A command that
/// starts with a double quote takes as program everything before the third
/// double quote, and as arguments the words from that quote on; without
/// such a quote it is refused. Any other command is split at whitespace:
/// the first word is the program, the rest are its arguments.
pub fn parse_shell_command(command: &str) -> (r: Result<ShellCommand, Error>)
    ensures
        all_whitespace(command@) ==> (r matches Err(Error::Platform(m)) && m@ == no_command_text()),
        !all_whitespace(command@) && command@[0] == '"' && nth_index_of(command@, '"', 2) is None
            ==> (r matches Err(Error::Platform(m)) && m@ == missing_quote_text(command@)),
        !all_whitespace(command@) && command@[0] == '"' && nth_index_of(command@, '"', 2) is Some
            ==> (r matches Ok(cmd) && {
            let k = nth_index_of(command@, '"', 2)->0;
            &&& cmd.program@ == command@.take(k)
            &&& string_views(cmd.args@) == split_whitespace(command@.skip(k))
        }),
        !all_whitespace(command@) && command@[0] != '"' ==> (r matches Ok(cmd) && {
            &&& cmd.program@ == split_whitespace(command@)[0]
            &&& string_views(cmd.args@) == split_whitespace(command@).drop_first()
        }),
{
    if is_blank(command) {
        return Err(Error::Platform("No command provided".to_owned()));
    }
    if command.get_char(0) == '"' {
        match find_nth_char(command, '"', 2) {
            Some(k) => {
                proof {
                    lemma_nth_index_bounds(command@, '"', 2);
                }
                let program = command.substring_char(0, k).to_owned();
                let args = split_whitespace_from(command, k);
                proof {
                    assert(command@.subrange(0, k as int) =~= command@.take(k as int));
                }
                Ok(ShellCommand { program, args })
            },
            None => {
                let mut message = "Command doesn't have an ending `\"`: '".to_owned();
                message.append(command);
                message.append("'.");
                Err(Error::Platform(message))
            },
        }
    } else {
        let mut words = split_whitespace_from(command, 0);
        proof {
            assert(command@.skip(0) =~= command@);
            lemma_split_nonempty(command@);
        }
        let ghost all = words@;
        let program = words.remove(0);
        proof {
            assert(string_views(words@) =~= string_views(all).drop_first());
        }
        Ok(ShellCommand { program, args: words })
    }
}

} // verus!
