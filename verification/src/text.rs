//! Verified character and string utilities: the path-string normalization
//! the configuration reader applies, and the helpers other modules build
//! argument strings with.

use vstd::prelude::*;

verus! {

broadcast use vstd::seq_lib::group_seq_properties;

/// Relies on String::push: appends the given character to the end of the
/// string.
#[verifier::external_body]
pub fn push_char(s: &mut String, c: char)
    ensures
        final(s)@ == old(s)@.push(c),
{
    s.push(c);
}

/// The characters of a string slice, as a vector.
pub fn str_chars(s: &str) -> (r: Vec<char>)
    ensures
        r@ == s@,
{
    let n = s.unicode_len();
    let mut r: Vec<char> = Vec::new();
    let mut i: usize = 0;
    while i < n
        invariant
            n == s@.len(),
            i <= n,
            r@ == s@.take(i as int),
        decreases n - i,
    {
        let c = s.get_char(i);
        r.push(c);
        proof {
            assert(r@ =~= s@.take(i + 1));
        }
        i += 1;
    }
    proof {
        assert(s@.take(n as int) =~= s@);
    }
    r
}

/// A string from a vector of characters.
pub fn string_from_chars(v: &Vec<char>) -> (r: String)
    ensures
        r@ == v@,
{
    let n = v.len();
    let mut r = String::new();
    let mut i: usize = 0;
    while i < n
        invariant
            n == v@.len(),
            i <= n,
            r@ == v@.take(i as int),
        decreases n - i,
    {
        push_char(&mut r, v[i]);
        proof {
            assert(r@ =~= v@.take(i + 1));
        }
        i += 1;
    }
    proof {
        assert(v@.take(n as int) =~= v@);
    }
    r
}

/// The Unicode whitespace characters, exactly those the standard library's
/// trimming recognizes.
pub open spec fn is_unicode_ws(c: char) -> bool {
    let u = c as u32;
    ||| u == 0x09
    ||| u == 0x0A
    ||| u == 0x0B
    ||| u == 0x0C
    ||| u == 0x0D
    ||| u == 0x20
    ||| u == 0x85
    ||| u == 0xA0
    ||| u == 0x1680
    ||| (0x2000 <= u && u <= 0x200A)
    ||| u == 0x2028
    ||| u == 0x2029
    ||| u == 0x202F
    ||| u == 0x205F
    ||| u == 0x3000
}

/// Executable form of [`is_unicode_ws`].
pub fn is_ws_char(c: char) -> (r: bool)
    ensures
        r == is_unicode_ws(c),
{
    let u = c as u32;
    u == 0x09 || u == 0x0A || u == 0x0B || u == 0x0C || u == 0x0D || u == 0x20 || u == 0x85 || u
        == 0xA0 || u == 0x1680 || (0x2000 <= u && u <= 0x200A) || u == 0x2028 || u == 0x2029 || u
        == 0x202F || u == 0x205F || u == 0x3000
}

/// The separator and quote characters stripped from both ends of a
/// configured path.
pub open spec fn is_path_quote(c: char) -> bool {
    c == '\\' || c == '/' || c == '"' || c == '\''
}

/// Executable form of [`is_path_quote`].
pub fn is_quote_char(c: char) -> (r: bool)
    ensures
        r == is_path_quote(c),
{
    c == '\\' || c == '/' || c == '"' || c == '\''
}

/// The sequence with every leading character satisfying `p` removed.
pub open spec fn trim_front(s: Seq<char>, p: spec_fn(char) -> bool) -> Seq<char>
    decreases s.len(),
{
    if s.len() > 0 && p(s[0]) {
        trim_front(s.drop_first(), p)
    } else {
        s
    }
}

/// The sequence with every trailing character satisfying `p` removed.
pub open spec fn trim_back(s: Seq<char>, p: spec_fn(char) -> bool) -> Seq<char>
    decreases s.len(),
{
    if s.len() > 0 && p(s[s.len() - 1]) {
        trim_back(s.drop_last(), p)
    } else {
        s
    }
}

/// Both ends trimmed of characters satisfying `p`.
pub open spec fn trimmed(s: Seq<char>, p: spec_fn(char) -> bool) -> Seq<char> {
    trim_back(trim_front(s, p), p)
}

/// Whitespace removed from both ends.
pub open spec fn ws_trimmed(s: Seq<char>) -> Seq<char> {
    trimmed(s, |c: char| is_unicode_ws(c))
}

/// Path separators and quotes removed from both ends.
pub open spec fn quote_trimmed(s: Seq<char>) -> Seq<char> {
    trimmed(s, |c: char| is_path_quote(c))
}

/// Front trimming drops exactly the maximal prefix satisfying `p`.
proof fn lemma_trim_front_is_skip(s: Seq<char>, p: spec_fn(char) -> bool, k: int)
    requires
        0 <= k <= s.len(),
        forall|i: int| 0 <= i < k ==> p(s[i]),
        k < s.len() ==> !p(s[k]),
    ensures
        trim_front(s, p) == s.skip(k),
    decreases k,
{
    if k == 0 {
        assert(s.skip(0) =~= s);
    } else {
        assert(p(s[0]));
        let t = s.drop_first();
        assert(t =~= s.skip(1));
        lemma_trim_front_is_skip(t, p, k - 1);
        assert(t.skip(k - 1) =~= s.skip(k));
    }
}

/// Back trimming drops exactly the maximal suffix satisfying `p`.
proof fn lemma_trim_back_is_take(s: Seq<char>, p: spec_fn(char) -> bool, k: int)
    requires
        0 <= k <= s.len(),
        forall|i: int| k <= i < s.len() ==> p(s[i]),
        k > 0 ==> !p(s[k - 1]),
    ensures
        trim_back(s, p) == s.take(k),
    decreases s.len() - k,
{
    if k == s.len() {
        assert(s.take(k) =~= s);
    } else {
        assert(p(s[s.len() - 1]));
        let t = s.drop_last();
        lemma_trim_back_is_take(t, p, k);
        assert(t.take(k) =~= s.take(k));
    }
}

/// The first index not satisfying the whitespace predicate.
fn scan_ws_front(v: &Vec<char>) -> (lo: usize)
    ensures
        lo <= v@.len(),
        forall|i: int| 0 <= i < lo ==> is_unicode_ws(v@[i]),
        lo < v@.len() ==> !is_unicode_ws(v@[lo as int]),
{
    let n = v.len();
    let mut lo: usize = 0;
    while lo < n
        invariant
            n == v@.len(),
            lo <= n,
            forall|i: int| 0 <= i < lo ==> is_unicode_ws(v@[i]),
        decreases n - lo,
    {
        if !is_ws_char(v[lo]) {
            return lo;
        }
        lo += 1;
    }
    lo
}

/// The index after the last character, counting back over whitespace but not
/// past `lo`.
fn scan_ws_back(v: &Vec<char>, lo: usize) -> (hi: usize)
    requires
        lo <= v@.len(),
    ensures
        lo <= hi <= v@.len(),
        forall|i: int| hi <= i < v@.len() ==> is_unicode_ws(v@[i]),
        hi > lo ==> !is_unicode_ws(v@[hi - 1]),
{
    let n = v.len();
    let mut hi: usize = n;
    while hi > lo
        invariant
            n == v@.len(),
            lo <= hi <= n,
            forall|i: int| hi <= i < n ==> is_unicode_ws(v@[i]),
        decreases hi,
    {
        if !is_ws_char(v[hi - 1]) {
            return hi;
        }
        hi -= 1;
    }
    hi
}

/// The first index not satisfying the quote predicate.
fn scan_quote_front(v: &Vec<char>) -> (lo: usize)
    ensures
        lo <= v@.len(),
        forall|i: int| 0 <= i < lo ==> is_path_quote(v@[i]),
        lo < v@.len() ==> !is_path_quote(v@[lo as int]),
{
    let n = v.len();
    let mut lo: usize = 0;
    while lo < n
        invariant
            n == v@.len(),
            lo <= n,
            forall|i: int| 0 <= i < lo ==> is_path_quote(v@[i]),
        decreases n - lo,
    {
        if !is_quote_char(v[lo]) {
            return lo;
        }
        lo += 1;
    }
    lo
}

/// The index after the last character, counting back over quote characters
/// but not past `lo`.
fn scan_quote_back(v: &Vec<char>, lo: usize) -> (hi: usize)
    requires
        lo <= v@.len(),
    ensures
        lo <= hi <= v@.len(),
        forall|i: int| hi <= i < v@.len() ==> is_path_quote(v@[i]),
        hi > lo ==> !is_path_quote(v@[hi - 1]),
{
    let n = v.len();
    let mut hi: usize = n;
    while hi > lo
        invariant
            n == v@.len(),
            lo <= hi <= n,
            forall|i: int| hi <= i < n ==> is_path_quote(v@[i]),
        decreases hi,
    {
        if !is_quote_char(v[hi - 1]) {
            return hi;
        }
        hi -= 1;
    }
    hi
}

/// The sub-vector between the two indices.
pub fn subvec(v: &Vec<char>, lo: usize, hi: usize) -> (r: Vec<char>)
    requires
        lo <= hi <= v@.len(),
    ensures
        r@ == v@.subrange(lo as int, hi as int),
{
    let mut r: Vec<char> = Vec::new();
    let mut i: usize = lo;
    while i < hi
        invariant
            lo <= i <= hi <= v@.len(),
            r@ == v@.subrange(lo as int, i as int),
        decreases hi - i,
    {
        r.push(v[i]);
        proof {
            assert(r@ =~= v@.subrange(lo as int, i + 1));
        }
        i += 1;
    }
    r
}

/// Whitespace trimming of a character vector.
pub fn trim_ws_chars(v: &Vec<char>) -> (r: Vec<char>)
    ensures
        r@ == ws_trimmed(v@),
{
    let lo = scan_ws_front(v);
    let hi = scan_ws_back(v, lo);
    proof {
        let p = |c: char| is_unicode_ws(c);
        lemma_trim_front_is_skip(v@, p, lo as int);
        lemma_trim_back_is_take(v@.skip(lo as int), p, hi - lo);
        assert(v@.skip(lo as int).take(hi - lo) =~= v@.subrange(lo as int, hi as int));
    }
    subvec(v, lo, hi)
}

/// Path-quote trimming of a character vector.
pub fn trim_quote_chars(v: &Vec<char>) -> (r: Vec<char>)
    ensures
        r@ == quote_trimmed(v@),
{
    let lo = scan_quote_front(v);
    let hi = scan_quote_back(v, lo);
    proof {
        let p = |c: char| is_path_quote(c);
        lemma_trim_front_is_skip(v@, p, lo as int);
        lemma_trim_back_is_take(v@.skip(lo as int), p, hi - lo);
        assert(v@.skip(lo as int).take(hi - lo) =~= v@.subrange(lo as int, hi as int));
    }
    subvec(v, lo, hi)
}

/// The fields of `s` separated by `sep`: splitting the empty sequence gives
/// one empty field, and every separator ends a field, so `n` separators give
/// `n + 1` fields.
pub open spec fn spec_split(s: Seq<char>, sep: char) -> Seq<Seq<char>>
    decreases s.len(),
{
    if s.len() == 0 {
        seq![Seq::<char>::empty()]
    } else if s[0] == sep {
        seq![Seq::<char>::empty()] + spec_split(s.drop_first(), sep)
    } else {
        let rest = spec_split(s.drop_first(), sep);
        seq![seq![s[0]] + rest[0]] + rest.drop_first()
    }
}

/// Splitting always yields at least one field.
pub proof fn lemma_split_nonempty(s: Seq<char>, sep: char)
    ensures
        spec_split(s, sep).len() >= 1,
    decreases s.len(),
{
    if s.len() > 0 {
        lemma_split_nonempty(s.drop_first(), sep);
    }
}

/// The first `pre` characters put in front of the first field.
pub open spec fn prepend_first(pre: Seq<char>, fields: Seq<Seq<char>>) -> Seq<Seq<char>>
    recommends
        fields.len() >= 1,
{
    seq![pre + fields[0]] + fields.drop_first()
}

/// Splits a string on a separator character, as the standard library's
/// splitting does: every separator occurrence ends a field, and the empty
/// string gives one empty field.
pub fn split_on(s: &str, sep: char) -> (r: Vec<String>)
    ensures
        r.deep_view() == spec_split(s@, sep),
{
    let chars = str_chars(s);
    let n = chars.len();
    let mut parts: Vec<String> = Vec::new();
    let mut cur = String::new();
    let mut i: usize = 0;
    proof {
        lemma_split_nonempty(s@, sep);
        assert(prepend_first(Seq::<char>::empty(), spec_split(s@, sep)) =~= spec_split(s@, sep));
        assert(parts.deep_view() + spec_split(s@, sep) =~= spec_split(s@, sep));
    }
    while i < n
        invariant
            n == chars@.len(),
            chars@ == s@,
            i <= n,
            spec_split(s@.skip(i as int), sep).len() >= 1,
            spec_split(s@, sep) == parts.deep_view() + prepend_first(
                cur@,
                spec_split(s@.skip(i as int), sep),
            ),
        decreases n - i,
    {
        let ghost tail_i = spec_split(s@.skip(i as int), sep);
        let ghost tail_next = spec_split(s@.skip(i + 1), sep);
        proof {
            lemma_split_nonempty(s@.skip(i + 1), sep);
            assert(s@.skip(i as int)[0] == s@[i as int]);
            assert(s@.skip(i as int).drop_first() =~= s@.skip(i + 1));
        }
        let c = chars[i];
        if c == sep {
            let ghost done = parts.deep_view();
            let finished = cur;
            cur = String::new();
            parts.push(finished);
            proof {
                assert(tail_i == seq![Seq::<char>::empty()] + tail_next);
                assert(parts.deep_view() =~= done.push(finished@));
                assert(prepend_first(finished@, tail_i) =~= seq![finished@] + tail_next);
                assert(done + (seq![finished@] + tail_next) =~= done.push(finished@)
                    + prepend_first(Seq::<char>::empty(), tail_next));
            }
        } else {
            let ghost cur0 = cur@;
            push_char(&mut cur, c);
            proof {
                let rest = tail_next;
                assert(tail_i == seq![seq![s@[i as int]] + rest[0]] + rest.drop_first());
                assert(prepend_first(cur0, tail_i)[0] == cur0 + (seq![c] + rest[0]));
                assert(cur0 + (seq![c] + rest[0]) =~= cur0.push(c) + rest[0]);
                assert(prepend_first(cur0, tail_i) =~= prepend_first(cur0.push(c), rest));
            }
        }
        i += 1;
    }
    proof {
        assert(s@.skip(n as int) =~= Seq::<char>::empty());
        assert(prepend_first(cur@, spec_split(s@.skip(n as int), sep)) =~= seq![cur@]);
    }
    let ghost done = parts.deep_view();
    let ghost last = cur@;
    parts.push(cur);
    proof {
        assert(parts.deep_view() =~= done.push(last));
        assert(done + seq![last] =~= done.push(last));
    }
    parts
}

/// Every backslash turned into a forward slash.
pub open spec fn slashes_forward(s: Seq<char>) -> Seq<char> {
    s.map_values(|c: char| if c == '\\' { '/' } else { c })
}

/// Each non-overlapping occurrence of a double slash collapsed into a single
/// slash, scanning left to right.
pub open spec fn collapse_slashes(s: Seq<char>) -> Seq<char>
    decreases s.len(),
{
    if s.len() >= 2 && s[0] == '/' && s[1] == '/' {
        seq!['/'] + collapse_slashes(s.skip(2))
    } else if s.len() >= 1 {
        seq![s[0]] + collapse_slashes(s.skip(1))
    } else {
        Seq::<char>::empty()
    }
}

/// What path normalization produces: backslashes turned forward, doubled
/// slashes collapsed once left to right, whitespace trimmed, then leading
/// and trailing separators and quotes trimmed.
pub open spec fn spec_handle_str_path(s: Seq<char>) -> Seq<char> {
    quote_trimmed(ws_trimmed(collapse_slashes(slashes_forward(s))))
}

/// Normalizes a path string read from the configuration file: backslashes
/// become forward slashes, doubled slashes are collapsed, and surrounding
/// whitespace, quotes and stray separators are stripped.
pub fn handle_str_path(str_path: &str) -> (r: String)
    ensures
        r@ == spec_handle_str_path(str_path@),
{
    let chars = str_chars(str_path);
    // backslashes forward
    let n = chars.len();
    let mut replaced: Vec<char> = Vec::new();
    let mut i: usize = 0;
    while i < n
        invariant
            n == chars@.len(),
            i <= n,
            replaced@ == slashes_forward(chars@.take(i as int)),
        decreases n - i,
    {
        let c = chars[i];
        if c == '\\' {
            replaced.push('/');
        } else {
            replaced.push(c);
        }
        proof {
            assert(replaced@ =~= slashes_forward(chars@.take(i + 1)));
        }
        i += 1;
    }
    proof {
        assert(chars@.take(n as int) =~= chars@);
    }
    // doubled slashes collapsed
    let m = replaced.len();
    let mut collapsed: Vec<char> = Vec::new();
    let mut j: usize = 0;
    while j < m
        invariant
            m == replaced@.len(),
            j <= m,
            collapse_slashes(replaced@) == collapsed@ + collapse_slashes(
                replaced@.skip(j as int),
            ),
        decreases m - j,
    {
        let ghost rest = replaced@.skip(j as int);
        let ghost prev = collapsed@;
        if j + 1 < m && replaced[j] == '/' && replaced[j + 1] == '/' {
            collapsed.push('/');
            proof {
                assert(rest[0] == '/' && rest[1] == '/');
                assert(collapse_slashes(rest) == seq!['/'] + collapse_slashes(rest.skip(2)));
                assert(rest.skip(2) =~= replaced@.skip(j + 2));
                assert(prev + (seq!['/'] + collapse_slashes(replaced@.skip(j + 2))) =~= prev.push(
                    '/',
                ) + collapse_slashes(replaced@.skip(j + 2)));
            }
            j += 2;
        } else {
            let c = replaced[j];
            collapsed.push(c);
            proof {
                assert(rest[0] == c);
                if rest.len() >= 2 {
                    assert(rest[1] == replaced@[j + 1]);
                }
                assert(!(rest.len() >= 2 && rest[0] == '/' && rest[1] == '/'));
                assert(collapse_slashes(rest) == seq![c] + collapse_slashes(rest.skip(1)));
                assert(rest.skip(1) =~= replaced@.skip(j + 1));
                assert(prev + (seq![c] + collapse_slashes(replaced@.skip(j + 1))) =~= prev.push(c)
                    + collapse_slashes(replaced@.skip(j + 1)));
            }
            j += 1;
        }
    }
    proof {
        assert(replaced@.skip(m as int) =~= Seq::<char>::empty());
        assert(collapsed@ + collapse_slashes(replaced@.skip(m as int)) =~= collapsed@);
    }
    // trim whitespace, then quotes and separators
    let trimmed_ws = trim_ws_chars(&collapsed);
    let trimmed_all = trim_quote_chars(&trimmed_ws);
    string_from_chars(&trimmed_all)
}

} // verus!
