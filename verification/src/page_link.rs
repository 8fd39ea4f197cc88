use vstd::prelude::*;

use crate::errors::FetchError;

verus! {

/// Reads pagination metadata: the textual navigation header of a paginated
/// response, handed to the library as raw header bytes. The pagination scheme
/// is defined by the host API, not by the order of the relations in the
/// header, so the greatest page number found anywhere in the text — not the
/// last match — is the true upper bound.
pub struct PageLinkParser {}

/// A decimal digit byte.
pub open spec fn is_digit(b: u8) -> bool {
    48 <= b && b <= 57
}

/// A page reference begins at `i`: the text `page=` immediately followed by
/// at least one decimal digit.
pub open spec fn match_at(s: Seq<u8>, i: int) -> bool {
    &&& 0 <= i
    &&& i + 6 <= s.len()
    &&& s[i] == 112
    &&& s[i + 1] == 97
    &&& s[i + 2] == 103
    &&& s[i + 3] == 101
    &&& s[i + 4] == 61
    &&& is_digit(s[i + 5])
}

/// The value of the decimal digit run that starts at `j`, read left to right
/// onto the accumulator `acc`.
pub open spec fn run_value(s: Seq<u8>, j: int, acc: int) -> int
    decreases s.len() - j,
{
    if j < 0 || j >= s.len() || !is_digit(s[j]) {
        acc
    } else {
        run_value(s, j + 1, acc * 10 + (s[j] - 48))
    }
}

/// The page number referenced by the match that begins at `i`.
pub open spec fn match_value(s: Seq<u8>, i: int) -> int {
    run_value(s, i + 5, 0)
}

/// Greatest page number among the matches that begin before position `i`,
/// or `-1` when no match begins there.
pub open spec fn max_match_upto(s: Seq<u8>, i: int) -> int
    decreases i,
{
    if i <= 0 {
        -1
    } else {
        let prev = max_match_upto(s, i - 1);
        if match_at(s, i - 1) && match_value(s, i - 1) > prev {
            match_value(s, i - 1)
        } else {
            prev
        }
    }
}

/// Greatest page number referenced anywhere in the metadata, `-1` when the
/// metadata references no page at all.
pub open spec fn max_match(s: Seq<u8>) -> int {
    max_match_upto(s, s.len() as int)
}

/// `v` clamped to the machine word in which the parser reports page numbers.
pub open spec fn clamp_to_usize(v: int) -> int {
    if v > usize::MAX { usize::MAX as int } else { v }
}

/// A digit run only grows the accumulator it starts from.
proof fn lemma_run_value_grows(s: Seq<u8>, j: int, acc: int)
    requires
        acc >= 0,
    ensures
        run_value(s, j, acc) >= acc,
    decreases s.len() - j,
{
    if !(j < 0 || j >= s.len() || !is_digit(s[j])) {
        lemma_run_value_grows(s, j + 1, acc * 10 + (s[j] - 48));
    }
}

/// Every match before `i` is bounded by `max_match_upto(s, i)`; the bound is
/// attained by one of the matches whenever it is not `-1`.
proof fn lemma_max_upto_props(s: Seq<u8>, i: int)
    ensures
        forall|j: int| 0 <= j < i && match_at(s, j) ==> match_value(s, j) <= max_match_upto(s, i),
        max_match_upto(s, i) >= 0 ==> exists|j: int|
            0 <= j < i && match_at(s, j) && match_value(s, j) == max_match_upto(s, i),
        (exists|j: int| 0 <= j < i && #[trigger] match_at(s, j)) ==> max_match_upto(s, i) >= 0,
    decreases i,
{
    if i > 0 {
        lemma_max_upto_props(s, i - 1);
        if match_at(s, i - 1) {
            lemma_run_value_grows(s, i - 1 + 5, 0);
            assert(match_value(s, i - 1) >= 0);
        }
        let m = max_match_upto(s, i);
        if m >= 0 {
            if match_at(s, i - 1) && match_value(s, i - 1) > max_match_upto(s, i - 1) {
                assert(match_at(s, i - 1) && match_value(s, i - 1) == m);
            } else {
                assert(max_match_upto(s, i - 1) == m);
            }
        }
        assert forall|j: int| 0 <= j < i && #[trigger] match_at(s, j)
            implies max_match_upto(s, i) >= 0 by {
            if j < i - 1 {
                assert(max_match_upto(s, i - 1) >= 0);
            } else {
                lemma_run_value_grows(s, j + 5, 0);
            }
        }
    }
}

/// The greatest referenced page number bounds every match, is attained by
/// one of them, and exists exactly when some match exists.
pub proof fn lemma_max_match_props(s: Seq<u8>)
    ensures
        forall|j: int| match_at(s, j) ==> match_value(s, j) <= max_match(s),
        max_match(s) >= 0 ==> exists|j: int|
            match_at(s, j) && match_value(s, j) == max_match(s),
        (exists|j: int| #[trigger] match_at(s, j)) <==> max_match(s) >= 0,
{
    lemma_max_upto_props(s, s.len() as int);
    assert forall|j: int| #[trigger] match_at(s, j)
        implies match_value(s, j) <= max_match(s) by {
        assert(0 <= j < s.len());
    }
    if max_match(s) >= 0 {
        let j = choose|j: int|
            0 <= j < s.len() && match_at(s, j) && match_value(s, j) == max_match_upto(
                s,
                s.len() as int,
            );
        assert(match_at(s, j) && match_value(s, j) == max_match(s));
    }
}

impl PageLinkParser {
    /// Reads the decimal digit run that starts at `j`, clamping the value at
    /// `usize::MAX`.
    fn run_value_clamped(s: &[u8], j: usize) -> (v: usize)
        requires
            j <= s@.len(),
        ensures
            v == clamp_to_usize(run_value(s@, j as int, 0)),
    {
        let bound: u128 = usize::MAX as u128;
        let mut acc: u128 = 0;
        let mut k: usize = j;
        let ghost mut gval: int = 0int;
        while k < s.len() && 48 <= s[k] && s[k] <= 57
            invariant
                j <= k <= s@.len(),
                gval >= 0,
                bound == usize::MAX,
                acc as int == if gval > bound { bound as int + 1 } else { gval },
                run_value(s@, j as int, 0) == run_value(s@, k as int, gval),
            decreases s@.len() - k,
        {
            let d: u128 = (s[k] - 48) as u128;
            acc = acc * 10 + d;
            if acc > bound {
                acc = bound + 1;
            }
            proof {
                gval = gval * 10 + (s@[k as int] - 48);
            }
            k += 1;
        }
        assert(run_value(s@, k as int, gval) == gval);
        if acc > bound {
            usize::MAX
        } else {
            acc as usize
        }
    }

    /// Greatest page number named by a `page=` reference in the metadata,
    /// clamped at `usize::MAX`; `MalformedPaginationMetadata` when the
    /// metadata names no page at all.
    pub fn max_page(header: &[u8]) -> (r: Result<usize, FetchError>)
        ensures
            match r {
                Ok(v) => max_match(header@) >= 0 && v == clamp_to_usize(max_match(header@)),
                Err(e) => {
                    &&& e == FetchError::MalformedPaginationMetadata
                    &&& max_match(header@) == -1
                },
            },
    {
        let n = header.len();
        let mut i: usize = 0;
        let mut found = false;
        let mut best: usize = 0;
        while i < n
            invariant
                n == header@.len(),
                i <= n,
                found ==> max_match_upto(header@, i as int) >= 0 && best == clamp_to_usize(
                    max_match_upto(header@, i as int),
                ),
                !found ==> max_match_upto(header@, i as int) == -1,
            decreases n - i,
        {
            if n - i > 5 && header[i] == 112 && header[i + 1] == 97 && header[i + 2] == 103
                && header[i + 3] == 101 && header[i + 4] == 61 && 48 <= header[i + 5]
                && header[i + 5] <= 57 {
                assert(match_at(header@, i as int));
                let v = Self::run_value_clamped(header, i + 5);
                proof {
                    lemma_run_value_grows(header@, i + 5, 0);
                    assert(match_value(header@, i as int) >= 0);
                }
                if !found || v > best {
                    best = v;
                    found = true;
                }
            } else {
                assert(!match_at(header@, i as int));
            }
            i += 1;
        }
        if found {
            Ok(best)
        } else {
            Err(FetchError::MalformedPaginationMetadata)
        }
    }
}

} // verus!
