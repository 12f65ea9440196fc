//! Text rules for the directory snapshot: which file names carry an allowed
//! image extension, and which file names match the case-insensitive,
//! multi-word search filter.

use vstd::prelude::*;
use vstd::string::*;

verus! {

/// What `str::to_lowercase` returns: a function of the characters alone.
pub uninterp spec fn lower_of(s: Seq<char>) -> Seq<char>;

/// Relies on `str::to_lowercase`: the lowercase equivalent of the string,
/// which depends on the characters alone; the empty string stays empty.
#[verifier::external_body]
pub(crate) fn lowercase(s: &str) -> (r: String)
    ensures
        r@ == lower_of(s@),
        s@.len() == 0 ==> r@.len() == 0,
{
    s.to_lowercase()
}

/// `needle` occurs in `hay` starting at position `i`.
pub open spec fn substring_at(hay: Seq<char>, needle: Seq<char>, i: int) -> bool {
    &&& 0 <= i
    &&& i + needle.len() <= hay.len()
    &&& hay.subrange(i, i + needle.len()) == needle
}

/// `needle` occurs somewhere in `hay`.
pub open spec fn has_substring(hay: Seq<char>, needle: Seq<char>) -> bool {
    exists|i: int| substring_at(hay, needle, i)
}

/// Compares `needle` against the characters of `hay` starting at `i`.
fn matches_at(hay: &str, i: usize, needle: &str) -> (r: bool)
    requires
        hay@.len() <= usize::MAX,
        i + needle@.len() <= hay@.len(),
    ensures
        r == substring_at(hay@, needle@, i as int),
{
    let nlen = needle.unicode_len();
    let mut j: usize = 0;
    while j < nlen
        invariant
            j <= nlen,
            nlen == needle@.len(),
            hay@.len() <= usize::MAX,
            i + nlen <= hay@.len(),
            forall|k: int| 0 <= k < j ==> hay@[i + k] == needle@[k],
        decreases nlen - j,
    {
        if hay.get_char(i + j) != needle.get_char(j) {
            proof {
                assert(hay@.subrange(i as int, i + needle@.len())[j as int] == hay@[i + j]);
            }
            return false;
        }
        j += 1;
    }
    proof {
        assert(hay@.subrange(i as int, i + needle@.len()) =~= needle@);
    }
    true
}

/// Whether `needle` occurs anywhere in `hay`.
pub fn contains_str(hay: &str, needle: &str) -> (r: bool)
    ensures
        r == has_substring(hay@, needle@),
{
    let hlen = hay.unicode_len();
    let nlen = needle.unicode_len();
    if nlen > hlen {
        return false;
    }
    if nlen == 0 {
        proof {
            assert(substring_at(hay@, needle@, 0)) by {
                assert(hay@.subrange(0, 0) =~= needle@);
            }
        }
        return true;
    }
    let mut i: usize = 0;
    while i <= hlen - nlen
        invariant
            nlen == needle@.len(),
            hlen == hay@.len(),
            1 <= nlen <= hlen,
            i <= hlen - nlen + 1,
            forall|k: int| 0 <= k < i ==> !substring_at(hay@, needle@, k),
        decreases hlen - nlen + 1 - i,
    {
        if matches_at(hay, i, needle) {
            return true;
        }
        i += 1;
    }
    false
}

/// Whether two strings hold the same characters.
pub fn str_eq(a: &str, b: &str) -> (r: bool)
    ensures
        r == (a@ == b@),
{
    let alen = a.unicode_len();
    let blen = b.unicode_len();
    if alen != blen {
        return false;
    }
    let r = matches_at(a, 0, b);
    proof {
        assert(a@.subrange(0, b@.len() as int) =~= a@);
    }
    r
}

/// Whether some string in `v` holds the same characters as `s`.
pub fn vec_contains_str(v: &Vec<String>, s: &str) -> (r: bool)
    ensures
        r == v.deep_view().contains(s@),
{
    let mut i: usize = 0;
    while i < v.len()
        invariant
            i <= v.len(),
            v.deep_view().len() == v@.len(),
            forall|k: int| 0 <= k < i ==> v.deep_view()[k] != s@,
        decreases v.len() - i,
    {
        if str_eq(v[i].as_str(), s) {
            proof {
                assert(v.deep_view()[i as int] == s@);
            }
            return true;
        }
        i += 1;
    }
    false
}

/// Whether `hay` ends with `suffix`.
pub fn ends_with_str(hay: &str, suffix: &str) -> (r: bool)
    ensures
        r == suffix@.is_suffix_of(hay@),
{
    let hlen = hay.unicode_len();
    let slen = suffix.unicode_len();
    if slen > hlen {
        return false;
    }
    matches_at(hay, hlen - slen, suffix)
}

/// The lower-cased path ends in one of the allowed image extensions.
pub open spec fn allowed_extension(lower: Seq<char>) -> bool {
    |||".jpg"@.is_suffix_of(lower)
    |||".gif"@.is_suffix_of(lower)
    |||".png"@.is_suffix_of(lower)
    |||".jpeg"@.is_suffix_of(lower)
}

/// Whether the path names an image file the browser shows, judged by its
/// extension, case-insensitively.
pub fn has_allowed_extension(path: &str) -> (r: bool)
    ensures
        r == allowed_extension(lower_of(path@)),
{
    let lp = lowercase(path);
    if ends_with_str(lp.as_str(), ".jpg") {
        true
    } else if ends_with_str(lp.as_str(), ".gif") {
        true
    } else if ends_with_str(lp.as_str(), ".png") {
        true
    } else {
        ends_with_str(lp.as_str(), ".jpeg")
    }
}

/// `[i, j)` spans one whole space-separated word of `s`.
pub open spec fn word_span(s: Seq<char>, i: int, j: int) -> bool {
    &&& 0 <= i < j <= s.len()
    &&& (forall|k: int| i <= k < j ==> s[k] != ' ')
    &&& (i == 0 || s[i - 1] == ' ')
    &&& (j == s.len() || s[j] == ' ')
}

/// Every space-separated word of `search`, folded to lower case, occurs in
/// the lower-cased `name`. A search text without words accepts every name.
pub open spec fn search_accepts(name: Seq<char>, search: Seq<char>) -> bool {
    forall|i: int, j: int|
        #[trigger] word_span(search, i, j) ==> has_substring(
            lower_of(name),
            lower_of(search.subrange(i, j)),
        )
}

/// Whether every word of the search text occurs, case-insensitively, in the
/// given file name.
pub fn search_matches(name: &str, search: &str) -> (r: bool)
    ensures
        r == search_accepts(name@, search@),
{
    let lname = lowercase(name);
    let slen = search.unicode_len();
    let mut pos: usize = 0;
    loop
        invariant
            lname@ == lower_of(name@),
            slen == search@.len(),
            pos <= slen,
            pos == 0 || pos == slen || search@[pos as int] == ' ',
            forall|a: int, b: int|
                word_span(search@, a, b) && a < pos ==> has_substring(
                    lower_of(name@),
                    lower_of(search@.subrange(a, b)),
                ),
        decreases slen - pos,
    {
        // Skip the spaces before the next word.
        let ghost entry = pos as int;
        while pos < slen && search.get_char(pos) == ' '
            invariant
                slen == search@.len(),
                entry <= pos <= slen,
                forall|k: int| entry <= k < pos ==> search@[k] == ' ',
            decreases slen - pos,
        {
            pos += 1;
        }
        if pos == slen {
            proof {
                assert forall|a: int, b: int| word_span(search@, a, b) implies has_substring(
                    lower_of(name@),
                    lower_of(search@.subrange(a, b)),
                ) by {
                    if a >= entry {
                        assert(search@[a] == ' ');
                    }
                }
            }
            return true;
        }
        // The next word runs from `start` to the next space or the end.
        let start = pos;
        proof {
            assert(start == 0 || search@[start as int - 1] == ' ');
        }
        let mut end = pos;
        while end < slen && search.get_char(end) != ' '
            invariant
                slen == search@.len(),
                start <= end <= slen,
                forall|k: int| start <= k < end ==> search@[k] != ' ',
            decreases slen - end,
        {
            end += 1;
        }
        proof {
            assert(end > start) by {
                assert(search@[start as int] != ' ');
            }
            assert(word_span(search@, start as int, end as int));
        }
        let term = search.substring_char(start, end);
        let lterm = lowercase(term);
        if !contains_str(lname.as_str(), lterm.as_str()) {
            proof {
                assert(!has_substring(
                    lower_of(name@),
                    lower_of(search@.subrange(start as int, end as int)),
                ));
            }
            return false;
        }
        proof {
            // Every word span beginning before `end` has now been checked:
            // spans cannot begin inside the word just checked, and a span
            // beginning exactly at `start` must end exactly at `end`.
            assert forall|a: int, b: int|
                word_span(search@, a, b) && a < end implies has_substring(
                lower_of(name@),
                lower_of(search@.subrange(a, b)),
            ) by {
                if a < entry {
                } else if a < start {
                    assert(search@[a] == ' ');
                } else if a == start {
                    assert(b == end) by {
                        if b < end {
                            assert(search@[b] != ' ');
                        }
                        if b > end {
                            assert(search@[end as int] == ' ');
                        }
                    }
                } else {
                    assert(search@[a - 1] != ' ');
                }
            }
        }
        pos = end;
    }
}

/// The file name part of a path: what follows the last `/`, or the whole
/// path when it has no `/`.
pub open spec fn base_name(p: Seq<char>) -> Seq<char>
    decreases p.len(),
{
    if p.len() == 0 {
        Seq::empty()
    } else if p[p.len() - 1] == '/' {
        Seq::empty()
    } else {
        base_name(p.drop_last()).push(p[p.len() - 1])
    }
}

proof fn lemma_base_name_subrange(p: Seq<char>, k: int)
    requires
        0 <= k <= p.len(),
        forall|t: int| k <= t < p.len() ==> p[t] != '/',
        k == 0 || p[k - 1] == '/',
    ensures
        base_name(p) == p.subrange(k, p.len() as int),
    decreases p.len(),
{
    if p.len() == k {
        assert(p.subrange(k, p.len() as int) =~= Seq::empty());
    } else {
        lemma_base_name_subrange(p.drop_last(), k);
        assert(p.drop_last().subrange(k, p.len() - 1).push(p[p.len() - 1]) =~= p.subrange(
            k,
            p.len() as int,
        ));
    }
}

/// The file name part of `p`: what follows the last `/`.
pub fn base_name_str(p: &str) -> (r: String)
    ensures
        r@ == base_name(p@),
{
    let len = p.unicode_len();
    let mut k: usize = len;
    while k > 0 && p.get_char(k - 1) != '/'
        invariant
            len == p@.len(),
            k <= len,
            forall|t: int| k <= t < len ==> p@[t] != '/',
        decreases k,
    {
        k -= 1;
    }
    proof {
        lemma_base_name_subrange(p@, k as int);
    }
    let name = p.substring_char(k, len);
    name.to_owned()
}

/// A path belongs to the directory snapshot when its extension is allowed
/// and its file name matches every word of the search text.
pub open spec fn snapshot_keeps(path: Seq<char>, search: Seq<char>) -> bool {
    allowed_extension(lower_of(path)) && search_accepts(base_name(path), search)
}

/// The snapshot rule as a predicate over one fixed search text.
pub open spec fn snapshot_pred(search: Seq<char>) -> spec_fn(Seq<char>) -> bool {
    |path: Seq<char>| snapshot_keeps(path, search)
}

/// Whether one path passes both snapshot filters.
pub fn file_eligible(path: &str, search: &str) -> (r: bool)
    ensures
        r == snapshot_keeps(path@, search@),
{
    if !has_allowed_extension(path) {
        return false;
    }
    let name = base_name_str(path);
    search_matches(name.as_str(), search)
}

/// Filters a directory listing down to the snapshot: files with an allowed
/// extension whose names match the search text, in their listed order.
pub fn snapshot_filter(listing: &Vec<String>, search: &str) -> (r: Vec<String>)
    ensures
        r.deep_view() == listing.deep_view().filter(snapshot_pred(search@)),
{
    let ghost dv = listing.deep_view();
    let mut out: Vec<String> = Vec::new();
    let mut idx: usize = 0;
    while idx < listing.len()
        invariant
            idx <= listing.len(),
            dv == listing.deep_view(),
            dv.len() == listing.len(),
            out.deep_view() == dv.take(idx as int).filter(snapshot_pred(search@)),
        decreases listing.len() - idx,
    {
        let ghost prev = out.deep_view();
        let p = &listing[idx];
        if file_eligible(p.as_str(), search) {
            out.push(p.clone());
            proof {
                assert(out.deep_view() =~= prev.push(dv[idx as int]));
            }
        }
        proof {
            dv.take(idx as int).lemma_filter_push(dv[idx as int], snapshot_pred(search@));
            assert(dv.take(idx as int).push(dv[idx as int]) =~= dv.take(idx as int + 1));
        }
        idx += 1;
    }
    proof {
        assert(dv.take(listing.len() as int) =~= dv);
    }
    out
}

} // verus!
