//! Small string helpers shared by the modules, proved against the
//! `Seq<char>` view of `str` and `String`.

use vstd::prelude::*;
use vstd::utf8::{encode_utf8, encode_utf8_decode_utf8};

verus! {

/// Whether two strings hold the same characters.
pub fn str_eq(a: &str, b: &str) -> (r: bool)
    ensures
        r == (a@ == b@),
{
    let x = a.as_bytes();
    let y = b.as_bytes();
    proof {
        encode_utf8_decode_utf8(a@);
        encode_utf8_decode_utf8(b@);
    }
    assert(x@ == encode_utf8(a@));
    assert(y@ == encode_utf8(b@));
    if x.len() != y.len() {
        return false;
    }
    let mut i: usize = 0;
    while i < x.len()
        invariant
            i <= x.len(),
            x.len() == y.len(),
            x@ == encode_utf8(a@),
            y@ == encode_utf8(b@),
            forall|j: int| 0 <= j < i ==> x@[j] == y@[j],
        decreases x.len() - i,
    {
        if x[i] != y[i] {
            assert(x@[i as int] != y@[i as int]);
            assert(x@ != y@);
            return false;
        }
        i += 1;
    }
    assert(x@ =~= y@);
    true
}

/// `s` with every trailing `'/'` removed.
pub open spec fn trim_trailing_slashes(s: Seq<char>) -> Seq<char>
    decreases s.len(),
{
    if s.len() > 0 && s.last() == '/' {
        trim_trailing_slashes(s.drop_last())
    } else {
        s
    }
}

/// Trimming leaves a string that is empty or does not end in `'/'`, and
/// is a prefix of the string it trims.
pub proof fn lemma_trim_trailing_slashes(s: Seq<char>)
    ensures
        trim_trailing_slashes(s).len() == 0 || trim_trailing_slashes(s).last() != '/',
        trim_trailing_slashes(s).len() <= s.len(),
        trim_trailing_slashes(s) == s.subrange(0, trim_trailing_slashes(s).len() as int),
    decreases s.len(),
{
    if s.len() > 0 && s.last() == '/' {
        lemma_trim_trailing_slashes(s.drop_last());
        assert(s.drop_last().subrange(0, trim_trailing_slashes(s).len() as int) =~= s.subrange(
            0,
            trim_trailing_slashes(s).len() as int,
        ));
    } else {
        assert(s.subrange(0, s.len() as int) =~= s);
    }
}

/// Whether `s` starts with `p`.
pub open spec fn starts_with(s: Seq<char>, p: Seq<char>) -> bool {
    p.len() <= s.len() && s.subrange(0, p.len() as int) == p
}

/// The length of `s` once its trailing slashes are trimmed.
pub fn trimmed_len(s: &str) -> (end: usize)
    ensures
        end <= s@.len(),
        s@.subrange(0, end as int) == trim_trailing_slashes(s@),
{
    let n = s.unicode_len();
    let mut end = n;
    assert(s@.subrange(0, n as int) =~= s@);
    while end > 0 && s.get_char(end - 1) == '/'
        invariant
            n == s@.len(),
            end <= n,
            trim_trailing_slashes(s@.subrange(0, end as int)) == trim_trailing_slashes(s@),
        decreases end,
    {
        assert(s@.subrange(0, end as int).drop_last() =~= s@.subrange(0, end - 1));
        end -= 1;
    }
    end
}

/// Whether the first `end` characters of `s` start with `prefix`.
pub fn starts_with_within(s: &str, end: usize, prefix: &str) -> (r: bool)
    requires
        end <= s@.len(),
    ensures
        r == starts_with(s@.subrange(0, end as int), prefix@),
{
    let k = prefix.unicode_len();
    if k > end {
        return false;
    }
    let mut i: usize = 0;
    while i < k
        invariant
            k == prefix@.len(),
            k <= end,
            end <= s@.len(),
            i <= k,
            forall|j: int| 0 <= j < i ==> s@[j] == prefix@[j],
        decreases k - i,
    {
        if s.get_char(i) != prefix.get_char(i) {
            assert(s@.subrange(0, end as int).subrange(0, k as int)[i as int] != prefix@[i as int]);
            return false;
        }
        i += 1;
    }
    assert(s@.subrange(0, end as int).subrange(0, k as int) =~= prefix@);
    true
}

/// The words joined by `sep`.
pub open spec fn seq_join(words: Seq<Seq<char>>, sep: Seq<char>) -> Seq<char>
    decreases words.len(),
{
    if words.len() == 0 {
        Seq::empty()
    } else if words.len() == 1 {
        words[0]
    } else {
        seq_join(words.drop_last(), sep) + sep + words.last()
    }
}

/// Strings, taken by their characters.
pub open spec fn strings_view(v: Seq<String>) -> Seq<Seq<char>> {
    v.map_values(|s: String| s@)
}

/// Joins the words with `sep` between them.
pub fn join_strings(words: &Vec<String>, sep: &str) -> (r: String)
    ensures
        r@ == seq_join(strings_view(words@), sep@),
{
    let ghost all = strings_view(words@);
    let mut r = String::new();
    let mut i: usize = 0;
    while i < words.len()
        invariant
            i <= words@.len(),
            all == strings_view(words@),
            r@ == seq_join(all.subrange(0, i as int), sep@),
        decreases words@.len() - i,
    {
        assert(all.subrange(0, i + 1).drop_last() =~= all.subrange(0, i as int));
        if i != 0 {
            r.append(sep);
        }
        r.append(words[i].as_str());
        i += 1;
    }
    assert(all.subrange(0, i as int) =~= all);
    r
}

} // verus!
