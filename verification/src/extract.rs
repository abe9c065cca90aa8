//! Pure text extraction from raw page markup: the article title from the
//! `<title>` element, and outbound article links from anchor-shaped patterns.
//! This is deliberately a lightweight pattern match over characters, not a
//! full markup parse; the exact pattern language is pinned down by the spec
//! functions here and the executable scanners are verified against them.

use vstd::prelude::*;
use vstd::string::{StrSliceExecFns, StringExecFns};
use crate::locator::{WikipediaUrl, spec_url_ok, spec_full_address};
use crate::page::{Page, PageModel, page_views};

verus! {

/// Characters admitted in a title or in link text: letters and spaces.
pub open spec fn is_name_char(c: char) -> bool {
    c == ' ' || ('a' <= c && c <= 'z') || ('A' <= c && c <= 'Z')
}

/// Characters admitted in an article path after `/wiki/`: letters,
/// underscores and parentheses.
pub open spec fn is_path_char(c: char) -> bool {
    c == '_' || c == '(' || c == ')' || ('a' <= c && c <= 'z') || ('A' <= c && c <= 'Z')
}

/// Characters admitted as the single-character class attribute value.
pub open spec fn is_class_char(c: char) -> bool {
    c == '-' || c == '_' || ('a' <= c && c <= 'z') || ('A' <= c && c <= 'Z')
}

/// The marker a line must contain to take part in title extraction.
pub open spec fn title_tag() -> Seq<char> {
    "<title>"@
}

/// The fixed site-name suffix that closes a title.
pub open spec fn title_suffix() -> Seq<char> {
    " - Wikipedia"@
}

/// The literal head of an in-encyclopedia anchor.
pub open spec fn link_head() -> Seq<char> {
    "<a href=\"/wiki/"@
}

/// The literal head of the optional class attribute.
pub open spec fn class_head() -> Seq<char> {
    " class=\""@
}

/// The literal head of the title attribute.
pub open spec fn title_attr() -> Seq<char> {
    " title=\""@
}

/// Link text containing this marks an archival citation, not an article link.
pub open spec fn wayback_marker() -> Seq<char> {
    "Wayback Machine"@
}

/// The lengths of the fixed patterns, fixed once and for all.
pub proof fn lemma_pattern_lens()
    ensures
        title_tag().len() == 7,
        title_suffix().len() == 12,
        link_head().len() == 15,
        class_head().len() == 8,
        title_attr().len() == 8,
        wayback_marker().len() == 15,
{
    reveal_strlit("<title>");
    reveal_strlit(" - Wikipedia");
    reveal_strlit("<a href=\"/wiki/");
    reveal_strlit(" class=\"");
    reveal_strlit(" title=\"");
    reveal_strlit("Wayback Machine");
}

/// Does `pat` occur in `s` starting exactly at `p`?
pub open spec fn match_at(s: Seq<char>, p: int, pat: Seq<char>) -> bool {
    0 <= p && p + pat.len() <= s.len() && s.subrange(p, p + pat.len()) == pat
}

/// Does `pat` occur anywhere in `s`?
pub open spec fn contains_pat(s: Seq<char>, pat: Seq<char>) -> bool {
    exists|p: int| match_at(s, p, pat)
}

/// Letters and spaces only.
fn name_char(c: char) -> (r: bool)
    ensures
        r == is_name_char(c),
{
    c == ' ' || ('a' <= c && c <= 'z') || ('A' <= c && c <= 'Z')
}

/// Letters, underscores and parentheses only.
fn path_char(c: char) -> (r: bool)
    ensures
        r == is_path_char(c),
{
    c == '_' || c == '(' || c == ')' || ('a' <= c && c <= 'z') || ('A' <= c && c <= 'Z')
}

/// Letters, hyphen-minus and underscore only.
fn class_char(c: char) -> (r: bool)
    ensures
        r == is_class_char(c),
{
    c == '-' || c == '_' || ('a' <= c && c <= 'z') || ('A' <= c && c <= 'Z')
}

/// Check `pat` against `s` at position `p`, character by character.
fn pat_at(s: &str, p: usize, pat: &str) -> (r: bool)
    requires
        p <= s@.len(),
    ensures
        r == match_at(s@, p as int, pat@),
{
    let n = s.unicode_len();
    let k = pat.unicode_len();
    if k > n - p {
        assert(!match_at(s@, p as int, pat@));
        return false;
    }
    let mut i: usize = 0;
    while i < k
        invariant
            0 <= i <= k,
            p + k <= n,
            n == s@.len(),
            k == pat@.len(),
            forall|j: int| 0 <= j < i ==> s@[p + j] == pat@[j],
        decreases k - i,
    {
        if s.get_char(p + i) != pat.get_char(i) {
            assert(!match_at(s@, p as int, pat@)) by {
                assert(s@.subrange(p as int, p + pat@.len())[i as int] == s@[p + i]);
            }
            return false;
        }
        i += 1;
    }
    assert(s@.subrange(p as int, p + pat@.len()) =~= pat@);
    true
}

/// Scan the whole of `s` for an occurrence of `pat`.
fn contains_pat_exec(s: &str, pat: &str) -> (r: bool)
    ensures
        r == contains_pat(s@, pat@),
{
    let n = s.unicode_len();
    let k = pat.unicode_len();
    if k > n {
        assert(forall|p: int| !match_at(s@, p, pat@));
        return false;
    }
    let limit = n - k;
    let mut p: usize = 0;
    while p < limit
        invariant
            k <= n,
            n == s@.len(),
            k == pat@.len(),
            limit == n - k,
            0 <= p <= limit,
            forall|q: int| 0 <= q < p ==> !match_at(s@, q, pat@),
        decreases limit - p,
    {
        if pat_at(s, p, pat) {
            return true;
        }
        p += 1;
    }
    if pat_at(s, p, pat) {
        return true;
    }
    assert(forall|q: int| !match_at(s@, q, pat@)) by {
        assert(forall|q: int| q > n - k ==> !match_at(s@, q, pat@));
    }
    false
}

/// The index of the first line break at or after `i`, or the end of `s`.
pub open spec fn line_end(s: Seq<char>, i: int) -> int
    decreases s.len() - i,
{
    if i < 0 || i >= s.len() {
        s.len() as int
    } else if s[i] == '\n' {
        i
    } else {
        line_end(s, i + 1)
    }
}

/// `line_end` stays between its argument and the end of the text.
pub proof fn lemma_line_end_bounds(s: Seq<char>, i: int)
    requires
        0 <= i <= s.len(),
    ensures
        i <= line_end(s, i) <= s.len(),
    decreases s.len() - i,
{
    if i < s.len() && s[i] != '\n' {
        lemma_line_end_bounds(s, i + 1);
    }
}

/// The text of the line running from `i` to the break at `j`: a carriage
/// return is stripped only when the line was closed by a line break.
pub open spec fn line_content(s: Seq<char>, i: int, j: int) -> Seq<char> {
    if j < s.len() && j > i && s[j - 1] == '\r' {
        s.subrange(i, j - 1)
    } else {
        s.subrange(i, j)
    }
}

/// The concatenation of every line at or after `i` that contains the
/// `<title>` marker.
pub open spec fn filtered_title_text(s: Seq<char>, i: int) -> Seq<char>
    decreases s.len() - i,
    when 0 <= i
    via filtered_title_text_decreases
{
    if i >= s.len() {
        Seq::empty()
    } else {
        let j = line_end(s, i);
        let line = line_content(s, i, j);
        (if contains_pat(line, title_tag()) {
            line
        } else {
            Seq::empty()
        }) + (if j >= s.len() {
            Seq::empty()
        } else {
            filtered_title_text(s, j + 1)
        })
    }
}

#[via_fn]
proof fn filtered_title_text_decreases(s: Seq<char>, i: int) {
    if 0 <= i < s.len() {
        lemma_line_end_bounds(s, i);
    }
}

/// A title anchor: the site-name suffix occurring at `m`, immediately
/// preceded by at least one name character.
pub open spec fn anchor_at(t: Seq<char>, m: int) -> bool {
    match_at(t, m, title_suffix()) && m >= 1 && is_name_char(t[m - 1])
}

/// The first title anchor at or after `i`, or `-1` when there is none.
pub open spec fn first_anchor_from(t: Seq<char>, i: int) -> int
    decreases t.len() - i,
{
    if i < 0 || i >= t.len() {
        -1
    } else if anchor_at(t, i) {
        i
    } else {
        first_anchor_from(t, i + 1)
    }
}

/// The start of the maximal run of name characters ending just before `m`.
pub open spec fn run_start(t: Seq<char>, m: int) -> int
    decreases m,
{
    if 0 < m <= t.len() && is_name_char(t[m - 1]) {
        run_start(t, m - 1)
    } else {
        m
    }
}

/// The title extracted from the filtered title text: the maximal run of name
/// characters in front of the first title anchor.
pub open spec fn spec_title_of_filtered(t: Seq<char>) -> Option<Seq<char>> {
    let m = first_anchor_from(t, 0);
    if m < 0 {
        None
    } else {
        Some(t.subrange(run_start(t, m), m))
    }
}

/// The title extracted from raw page text: lines carrying the `<title>`
/// marker are concatenated and the anchor pattern is matched in the result.
pub open spec fn spec_extract_title(body: Seq<char>) -> Option<Seq<char>> {
    spec_title_of_filtered(filtered_title_text(body, 0))
}

/// A found anchor is the first one.
proof fn lemma_first_anchor(t: Seq<char>, i: int, m: int)
    requires
        0 <= i <= m,
        anchor_at(t, m),
        forall|q: int| i <= q < m ==> !anchor_at(t, q),
    ensures
        first_anchor_from(t, i) == m,
    decreases m - i,
{
    assert(m < t.len()) by {
        lemma_pattern_lens();
    }
    if i < m {
        lemma_first_anchor(t, i + 1, m);
    }
}

/// No anchor anywhere means the search reports none.
proof fn lemma_no_anchor(t: Seq<char>, i: int)
    requires
        forall|q: int| !anchor_at(t, q),
    ensures
        first_anchor_from(t, i) == -1,
    decreases t.len() - i,
{
    if 0 <= i < t.len() {
        lemma_no_anchor(t, i + 1);
    }
}

/// Extract the article title from raw page text, exactly as
/// `spec_extract_title` describes: scan line by line, keep the lines that
/// contain the `<title>` marker, concatenate them, and take the letters and
/// spaces standing directly before the first ` - Wikipedia` suffix.
pub fn extract_title(body: &str) -> (r: Option<String>)
    ensures
        match r {
            Some(t) => spec_extract_title(body@) == Some(t@),
            None => spec_extract_title(body@) is None,
        },
{
    let n = body.unicode_len();
    let mut filtered = String::new();
    let mut i: usize = 0;
    while i < n
        invariant
            0 <= i <= n,
            n == body@.len(),
            filtered@ + filtered_title_text(body@, i as int) == filtered_title_text(body@, 0),
        decreases n - i,
    {
        let mut j = i;
        while j < n && body.get_char(j) != '\n'
            invariant
                i <= j <= n,
                n == body@.len(),
                line_end(body@, i as int) == line_end(body@, j as int),
            decreases n - j,
        {
            j += 1;
        }
        assert(line_end(body@, i as int) == j);
        let mut e = j;
        if j < n && j > i {
            if body.get_char(j - 1) == '\r' {
                e = j - 1;
            }
        }
        assert(body@.subrange(i as int, e as int) == line_content(body@, i as int, j as int));
        let line = body.substring_char(i, e);
        if contains_pat_exec(line, "<title>") {
            filtered.append(line);
        }
        proof {
            let s = body@;
            let ii = i as int;
            let jj = j as int;
            let l = line_content(s, ii, jj);
            let kept = if contains_pat(l, title_tag()) {
                l
            } else {
                Seq::<char>::empty()
            };
            let rest = if jj >= s.len() {
                Seq::<char>::empty()
            } else {
                filtered_title_text(s, jj + 1)
            };
            assert(filtered_title_text(s, ii) == kept + rest);
            assert(filtered@ + rest == filtered_title_text(s, 0)) by {
                assert((filtered@ + kept) + rest =~= filtered@ + (kept + rest));
            }
            if jj >= s.len() {
                assert(filtered@ + rest =~= filtered@);
            }
        }
        if j == n {
            i = n;
            assert(filtered_title_text(body@, n as int) =~= Seq::<char>::empty());
            assert(filtered@ + filtered_title_text(body@, n as int) =~= filtered@);
        } else {
            i = j + 1;
        }
    }
    assert(filtered@ == filtered_title_text(body@, 0));
    let t = filtered.as_str();
    let tn = t.unicode_len();
    let mut m: usize = 1;
    let mut anchor: usize = 0;
    let mut has_anchor = false;
    while m < tn && !has_anchor
        invariant
            1 <= m,
            tn == t@.len(),
            !has_anchor ==> forall|q: int| 1 <= q < m ==> !anchor_at(t@, q),
            has_anchor ==> anchor_at(t@, anchor as int) && forall|q: int|
                1 <= q < anchor ==> !anchor_at(t@, q),
        decreases tn - m + (if has_anchor {
            0int
        } else {
            1int
        }),
    {
        if pat_at(t, m, " - Wikipedia") {
            if name_char(t.get_char(m - 1)) {
                has_anchor = true;
                anchor = m;
            }
        }
        if !has_anchor {
            m += 1;
        }
    }
    if !has_anchor {
        proof {
            lemma_pattern_lens();
            assert(forall|q: int| !anchor_at(t@, q)) by {
                assert(forall|q: int| q < 1 ==> !anchor_at(t@, q));
                assert(forall|q: int| q >= tn ==> !anchor_at(t@, q));
            }
            lemma_no_anchor(t@, 0);
        }
        return None;
    }
    proof {
        lemma_pattern_lens();
        assert(anchor < tn);
        assert(!anchor_at(t@, 0));
        lemma_first_anchor(t@, 0, anchor as int);
    }
    let mut st = anchor;
    while st > 0 && name_char(t.get_char(st - 1))
        invariant
            0 <= st <= anchor,
            anchor < tn,
            tn == t@.len(),
            run_start(t@, anchor as int) == run_start(t@, st as int),
        decreases st,
    {
        st -= 1;
    }
    assert(run_start(t@, anchor as int) == st);
    Some(String::from_str(t.substring_char(st, anchor)))
}

/// The end of the maximal run of path characters starting at `i`.
pub open spec fn path_run_end(s: Seq<char>, i: int) -> int
    decreases s.len() - i,
{
    if 0 <= i < s.len() && is_path_char(s[i]) {
        path_run_end(s, i + 1)
    } else {
        i
    }
}

/// The end of the maximal run of name characters starting at `i`.
pub open spec fn name_run_end(s: Seq<char>, i: int) -> int
    decreases s.len() - i,
{
    if 0 <= i < s.len() && is_name_char(s[i]) {
        name_run_end(s, i + 1)
    } else {
        i
    }
}

/// The anchor-shaped link pattern matched at position `p` of the page text:
/// the literal anchor head, a non-empty run of path characters closed by a
/// quote, an optional single-character class attribute, and a non-empty run
/// of name characters as the title attribute's value. Yields the captured
/// path (including `/wiki/`) and the link text.
pub open spec fn link_at(s: Seq<char>, p: int) -> Option<(Seq<char>, Seq<char>)> {
    if !match_at(s, p, link_head()) {
        None
    } else {
        let pe = path_run_end(s, p + 15);
        if pe == p + 15 || pe >= s.len() || s[pe] != '"' {
            None
        } else {
            let q = pe + 1;
            let q2 = if match_at(s, q, class_head()) && q + 9 < s.len() && is_class_char(s[q + 8])
                && s[q + 9] == '"' {
                q + 10
            } else {
                q
            };
            if !match_at(s, q2, title_attr()) {
                None
            } else {
                let ts = q2 + 8;
                let te = name_run_end(s, ts);
                if te == ts {
                    None
                } else {
                    Some((s.subrange(p + 9, pe), s.subrange(ts, te)))
                }
            }
        }
    }
}

/// Whether a captured path yields a valid locator when handed to
/// `WikipediaUrl::from_path`.
pub open spec fn page_path_ok(path: Seq<char>) -> bool {
    spec_url_ok(spec_full_address(path))
}

/// The page a surviving link candidate produces: pre-titled from the link
/// text, located at the path's full address, with no body loaded.
pub open spec fn link_page(path: Seq<char>, text: Seq<char>) -> PageModel {
    PageModel { title: Some(text), url: spec_full_address(path), body: None }
}

/// Every page produced by the link candidates at or after position `p`, in
/// text order: candidates whose link text carries the archive marker and
/// candidates whose path fails locator validation are dropped.
pub open spec fn connections_from(s: Seq<char>, p: int) -> Seq<PageModel>
    decreases s.len() - p,
{
    if p < 0 || p >= s.len() {
        Seq::empty()
    } else {
        let rest = connections_from(s, p + 1);
        match link_at(s, p) {
            Some((path, text)) => if !contains_pat(text, wayback_marker()) && page_path_ok(path) {
                seq![link_page(path, text)] + rest
            } else {
                rest
            },
            None => rest,
        }
    }
}

/// Every page the raw page text links to, in text order, after filtering.
pub open spec fn spec_connections(body: Seq<char>) -> Seq<PageModel> {
    connections_from(body, 0)
}

/// Try the link pattern at one position, exactly as `link_at` describes.
fn link_at_exec(s: &str, p: usize) -> (r: Option<(String, String)>)
    requires
        p < s@.len(),
    ensures
        match r {
            Some((path, text)) => link_at(s@, p as int) == Some((path@, text@)),
            None => link_at(s@, p as int) is None,
        },
{
    proof {
        lemma_pattern_lens();
    }
    let n = s.unicode_len();
    if !pat_at(s, p, "<a href=\"/wiki/") {
        return None;
    }
    let mut pe = p + 15;
    while pe < n && path_char(s.get_char(pe))
        invariant
            p + 15 <= pe <= n,
            n == s@.len(),
            path_run_end(s@, p + 15) == path_run_end(s@, pe as int),
        decreases n - pe,
    {
        pe += 1;
    }
    assert(path_run_end(s@, p + 15) == pe);
    if pe == p + 15 {
        return None;
    }
    if pe == n {
        return None;
    }
    if s.get_char(pe) != '"' {
        return None;
    }
    let q = pe + 1;
    let mut q2 = q;
    if pat_at(s, q, " class=\"") {
        if n - q > 9 {
            if class_char(s.get_char(q + 8)) {
                if s.get_char(q + 9) == '"' {
                    q2 = q + 10;
                }
            }
        }
    }
    assert(q2 == (if match_at(s@, q as int, class_head()) && q + 9 < s@.len() && is_class_char(
        s@[q + 8],
    ) && s@[q + 9] == '"' {
        q + 10int
    } else {
        q as int
    }));
    if !pat_at(s, q2, " title=\"") {
        return None;
    }
    let ts = q2 + 8;
    let mut te = ts;
    while te < n && name_char(s.get_char(te))
        invariant
            ts <= te <= n,
            n == s@.len(),
            name_run_end(s@, ts as int) == name_run_end(s@, te as int),
        decreases n - te,
    {
        te += 1;
    }
    assert(name_run_end(s@, ts as int) == te);
    if te == ts {
        return None;
    }
    Some(
        (
            String::from_str(s.substring_char(p + 9, pe)),
            String::from_str(s.substring_char(ts, te)),
        ),
    )
}

/// Extract the linked pages from raw page text, exactly as
/// `spec_connections` describes: every anchor-shaped match yields a
/// candidate; candidates with archive-reference link text or an invalid path
/// are dropped; each survivor becomes a fresh, pre-titled, unloaded page.
pub fn extract_connections(body: &str) -> (r: Vec<Page>)
    ensures
        page_views(r@) == spec_connections(body@),
{
    let mut out: Vec<Page> = Vec::new();
    let n = body.unicode_len();
    let mut p: usize = 0;
    while p < n
        invariant
            0 <= p <= n,
            n == body@.len(),
            page_views(out@) + connections_from(body@, p as int) == spec_connections(
                body@,
            ),
        decreases n - p,
    {
        let ghost prev = out@;
        match link_at_exec(body, p) {
            None => {},
            Some((path, text)) => {
                if !contains_pat_exec(text.as_str(), "Wayback Machine") {
                    match WikipediaUrl::from_path(path.as_str()) {
                        Ok(u) => {
                            let pg = Page::new_with_title(u, text);
                            out.push(pg);
                            proof {
                                assert(page_views(out@) =~= page_views(prev).push(pg@));
                            }
                        },
                        Err(_) => {},
                    }
                }
            },
        }
        proof {
            let s = body@;
            let pi = p as int;
            assert(page_views(out@) + connections_from(s, pi + 1)
                =~= page_views(prev) + connections_from(s, pi));
        }
        p += 1;
    }
    assert(page_views(out@) =~= spec_connections(body@));
    out
}

/// Law: no extracted connection's link text contains the archive-reference
/// marker; every such candidate is filtered out.
pub proof fn lemma_connections_no_wayback(body: Seq<char>, k: int)
    requires
        0 <= k < spec_connections(body).len(),
    ensures
        spec_connections(body)[k].title matches Some(t) && !contains_pat(t, wayback_marker()),
{
    lemma_connections_from_no_wayback(body, 0, k);
}

proof fn lemma_connections_from_no_wayback(s: Seq<char>, p: int, k: int)
    requires
        0 <= k < connections_from(s, p).len(),
    ensures
        connections_from(s, p)[k].title matches Some(t) && !contains_pat(t, wayback_marker()),
    decreases s.len() - p,
{
    if p < 0 || p >= s.len() {
    } else {
        match link_at(s, p) {
            Some((path, text)) => {
                if !contains_pat(text, wayback_marker()) && page_path_ok(path) {
                    if k == 0 {
                    } else {
                        lemma_connections_from_no_wayback(s, p + 1, k - 1);
                    }
                } else {
                    lemma_connections_from_no_wayback(s, p + 1, k);
                }
            },
            None => {
                lemma_connections_from_no_wayback(s, p + 1, k);
            },
        }
    }
}

} // verus!
