//! The match engine: decides whether extracted text is a scam advertisement.
//! A text is scam-flagged exactly when some keyword group has every one of
//! its keywords occurring in the text (OR across groups, AND within a group).

use vstd::prelude::*;

use crate::config::KeywordGroups;

verus! {

/// `p` occurs in `t` starting at position `i`.
pub open spec fn matches_at(t: Seq<char>, p: Seq<char>, i: int) -> bool {
    0 <= i && i + p.len() <= t.len() && t.subrange(i, i + p.len() as int) == p
}

/// `p` occurs somewhere in `t` as a contiguous substring.
pub open spec fn is_substring(t: Seq<char>, p: Seq<char>) -> bool {
    exists|i: int| matches_at(t, p, i)
}

/// Every keyword of the group `g` occurs in the text `t`.
pub open spec fn group_matches(t: Seq<char>, g: Seq<Seq<char>>) -> bool {
    forall|k: int| 0 <= k < g.len() ==> is_substring(t, #[trigger] g[k])
}

/// Some group among `gs` has all of its keywords occurring in `t`.
pub open spec fn scam_text(t: Seq<char>, gs: Seq<Seq<Seq<char>>>) -> bool {
    exists|j: int| 0 <= j < gs.len() && group_matches(t, #[trigger] gs[j])
}

/// Decides whether `p` occurs in `t` as a contiguous substring.  An empty
/// `p` trivially occurs in every text.
pub fn contains_str(t: &str, p: &str) -> (r: bool)
    ensures
        r == is_substring(t@, p@),
{
    let tlen = t.unicode_len();
    let plen = p.unicode_len();
    if plen > tlen {
        return false;
    }
    let mut i: usize = 0;
    while i <= tlen - plen
        invariant
            plen <= tlen,
            tlen == t@.len(),
            plen == p@.len(),
            i <= tlen - plen + 1,
            forall|k: int| 0 <= k < i ==> !matches_at(t@, p@, k),
        decreases tlen - plen + 1 - i,
    {
        let mut j: usize = 0;
        let mut matched = true;
        while j < plen
            invariant
                plen <= tlen,
                tlen == t@.len(),
                plen == p@.len(),
                i <= tlen - plen,
                j <= plen,
                matched ==> forall|m: int| 0 <= m < j ==> t@[i + m] == p@[m],
                !matched ==> !matches_at(t@, p@, i as int) && j == plen,
            decreases plen - j,
        {
            if t.get_char(i + j) != p.get_char(j) {
                proof {
                    if matches_at(t@, p@, i as int) {
                        let sub = t@.subrange(i as int, i + plen as int);
                        assert(sub[j as int] == p@[j as int]);
                    }
                }
                matched = false;
                j = plen;
            } else {
                j = j + 1;
            }
        }
        if matched {
            proof {
                assert(t@.subrange(i as int, i + plen as int) =~= p@);
                assert(matches_at(t@, p@, i as int));
            }
            return true;
        }
        proof {
            // an empty pattern always matches, so a mismatch means plen >= 1
            // and the increment cannot overflow
            if plen == 0 {
                assert(t@.subrange(i as int, i as int) =~= p@);
                assert(matches_at(t@, p@, i as int));
            }
        }
        i = i + 1;
    }
    proof {
        assert forall|k: int| !matches_at(t@, p@, k) by {
            if matches_at(t@, p@, k) {
                assert(0 <= k < i);
            }
        }
    }
    false
}

/// Decides whether every keyword of `group` occurs in `text`.
pub fn group_fully_matches(text: &str, group: &KeywordGroups) -> (r: bool)
    ensures
        r == group_matches(text@, group@),
{
    let n = group.keywords.len();
    let mut k: usize = 0;
    while k < n
        invariant
            n == group.keywords@.len(),
            k <= n,
            forall|m: int| 0 <= m < k ==> is_substring(text@, #[trigger] group@[m]),
        decreases n - k,
    {
        let keyword = &group.keywords[k];
        if !contains_str(text, keyword.as_str()) {
            assert(group@[k as int] == group.keywords@[k as int]@);
            return false;
        }
        k = k + 1;
    }
    true
}

/// Decides whether `text` is a scam advertisement under the keyword groups
/// `keywords_groups`: true exactly when some group has every one of its
/// keywords occurring in `text`.
pub fn is_scam(text: &str, keywords_groups: &Vec<KeywordGroups>) -> (r: bool)
    ensures
        r == scam_text(text@, keywords_groups.deep_view()),
{
    let n = keywords_groups.len();
    let mut j: usize = 0;
    while j < n
        invariant
            n == keywords_groups@.len(),
            j <= n,
            forall|m: int| 0 <= m < j ==> !group_matches(
                text@,
                #[trigger] keywords_groups.deep_view()[m],
            ),
        decreases n - j,
    {
        if group_fully_matches(text, &keywords_groups[j]) {
            assert(keywords_groups.deep_view()[j as int] == keywords_groups@[j as int]@);
            return true;
        }
        assert(keywords_groups.deep_view()[j as int] == keywords_groups@[j as int]@);
        j = j + 1;
    }
    false
}

} // verus!
