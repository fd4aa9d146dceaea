//! Fitting a line of text into a width budget, shortening it with an ellipsis.
//!
//! The width of a string is whatever the caller's measuring function reports
//! (a font rasterizer, in practice); the contracts speak of those reports.
use vstd::prelude::*;
use vstd::string::*;

verus! {

/// The marker appended to a shortened string.
pub const ELLIPSIS: &'static str = "\u{2026}";

/// The marker, as characters.
pub open spec fn ellipsis() -> Seq<char> {
    seq!['\u{2026}']
}

/// The candidate that keeps the first `k` characters of `text` and ends in the marker.
pub open spec fn candidate(text: Seq<char>, k: int) -> Seq<char> {
    text.take(k) + ellipsis()
}

/// How many shortened candidates are tried: one per dropped character, and the
/// marker alone for an empty string.
pub open spec fn tries(text: Seq<char>) -> int {
    if text.len() == 0 { 1 } else { text.len() as int }
}

/// Measuring `s` with `f` gave `r`.
pub open spec fn measured<E, F: Fn(&str) -> Result<u32, E>>(f: F, s: Seq<char>, r: Result<u32, E>) -> bool {
    exists|x: &str| x@ == s && #[trigger] f.ensures((x,), r)
}

/// `s` measured strictly narrower than `max_width`.
pub open spec fn fits<E, F: Fn(&str) -> Result<u32, E>>(f: F, s: Seq<char>, max_width: int) -> bool {
    exists|w: u32| #[trigger] measured(f, s, Ok(w)) && w < max_width
}

/// `s` measured at least `max_width` wide.
pub open spec fn too_wide<E, F: Fn(&str) -> Result<u32, E>>(f: F, s: Seq<char>, max_width: int) -> bool {
    exists|w: u32| #[trigger] measured(f, s, Ok(w)) && w >= max_width
}

/// `f` gives one answer per string.
pub open spec fn deterministic<E, F: Fn(&str) -> Result<u32, E>>(f: F) -> bool {
    forall|x: &str, y: &str, a: Result<u32, E>, b: Result<u32, E>|
        x@ == y@ && #[trigger] f.ensures((x,), a) && #[trigger] f.ensures((y,), b) ==> a == b
}

/// Every candidate keeping more than `k` characters was measured too wide.
pub open spec fn rejected_above<E, F: Fn(&str) -> Result<u32, E>>(
    f: F,
    text: Seq<char>,
    k: int,
    max_width: int,
) -> bool {
    forall|j: int| k < j < tries(text) ==> too_wide(f, #[trigger] candidate(text, j), max_width)
}

/// What fitting `text` into `max_width` may give: the text itself when it fits;
/// else the longest candidate that fits; else the empty string; or the first
/// measurement error met on the way.
pub open spec fn ellipsized<E, F: Fn(&str) -> Result<u32, E>>(
    f: F,
    text: Seq<char>,
    max_width: int,
    r: Result<Seq<char>, E>,
) -> bool {
    match r {
        Ok(t) => {
            ||| fits(f, text, max_width) && t == text
            ||| too_wide(f, text, max_width) && exists|k: int|
                0 <= k < tries(text) && t == #[trigger] candidate(text, k) && fits(f, t, max_width)
                    && rejected_above(f, text, k, max_width)
            ||| too_wide(f, text, max_width) && t.len() == 0 && rejected_above(f, text, -1, max_width)
        },
        Err(e) => {
            ||| measured(f, text, Err(e))
            ||| too_wide(f, text, max_width) && exists|k: int|
                0 <= k < tries(text) && measured(f, #[trigger] candidate(text, k), Err(e))
                    && rejected_above(f, text, k, max_width)
        },
    }
}

/// Fits `text` into `max_width`: unchanged when it measures narrower; otherwise
/// characters are dropped from the end, one at a time, and the marker appended,
/// until the result measures narrower. Where not even the marker alone fits,
/// the result is the empty string.
pub fn ellipsize_text<E, F: Fn(&str) -> Result<u32, E>>(measure: F, text: String, max_width: usize) -> (r:
    Result<String, E>)
    requires
        forall|x: &str| measure.requires((x,)),
    ensures
        match r {
            Ok(t) => ellipsized(measure, text@, max_width as int, Ok(t@)),
            Err(e) => ellipsized(measure, text@, max_width as int, Err(e)),
        },
{
    let full = measure(text.as_str());
    match full {
        Err(e) => {
            return Err(e);
        },
        Ok(w) => {
            assert(measured(measure, text@, Ok(w)));
            if (w as usize) < max_width {
                return Ok(text);
            }
        },
    }
    let n = text.as_str().unicode_len();
    let mut k: usize = if n == 0 { 1 } else { n };
    while k > 0
        invariant
            n == text@.len(),
            k <= tries(text@),
            too_wide(measure, text@, max_width as int),
            rejected_above(measure, text@, k - 1, max_width as int),
            forall|x: &str| measure.requires((x,)),
        decreases k,
    {
        k = k - 1;
        let kept = text.as_str().substring_char(0, if k <= n { k } else { n });
        let mut cand = kept.to_owned();
        cand.append(ELLIPSIS);
        proof {
            reveal_strlit("\u{2026}");
            assert(cand@ =~= candidate(text@, k as int));
        }
        let r = measure(cand.as_str());
        match r {
            Err(e) => {
                assert(measured(measure, candidate(text@, k as int), Err(e)));
                return Err(e);
            },
            Ok(w) => {
                assert(measured(measure, candidate(text@, k as int), Ok(w)));
                if (w as usize) < max_width {
                    return Ok(cand);
                }
            },
        }
    }
    let empty = String::new();
    assert(rejected_above(measure, text@, -1, max_width as int));
    Ok(empty)
}

/// A text that already measures narrower than the budget comes back unchanged,
/// and no error is reported for it.
pub proof fn lemma_short_text_unchanged<E, F: Fn(&str) -> Result<u32, E>>(
    f: F,
    text: Seq<char>,
    max_width: int,
    w: u32,
    r: Result<Seq<char>, E>,
)
    requires
        deterministic(f),
        measured(f, text, Ok(w)),
        w < max_width,
        ellipsized(f, text, max_width, r),
    ensures
        r == Ok::<Seq<char>, E>(text),
{
    if too_wide(f, text, max_width) {
        let w2 = choose|w2: u32| #[trigger] measured(f, text, Ok(w2)) && w2 >= max_width;
        assert(Ok::<u32, E>(w) == Ok::<u32, E>(w2));
    }
    if let Err(e) = r {
        assert(!measured(f, text, Err(e)));
    }
}

/// Where the marker alone measures narrower than the budget, every result
/// measures narrower than the budget.
pub proof fn lemma_result_fits<E, F: Fn(&str) -> Result<u32, E>>(
    f: F,
    text: Seq<char>,
    max_width: int,
    t: Seq<char>,
)
    requires
        deterministic(f),
        fits(f, ellipsis(), max_width),
        ellipsized(f, text, max_width, Ok(t)),
    ensures
        fits(f, t, max_width),
{
    if !fits(f, t, max_width) {
        assert(rejected_above(f, text, -1, max_width));
        assert(candidate(text, 0) =~= ellipsis());
        assert(too_wide(f, candidate(text, 0), max_width));
        let w1 = choose|w1: u32| #[trigger] measured(f, ellipsis(), Ok(w1)) && w1 < max_width;
        let w2 = choose|w2: u32| #[trigger] measured(f, ellipsis(), Ok(w2)) && w2 >= max_width;
        assert(Ok::<u32, E>(w1) == Ok::<u32, E>(w2));
    }
}

/// With a budget of zero nothing fits, not even the marker: the search ends
/// with the empty string, unless a measurement failed.
pub proof fn lemma_zero_budget_gives_empty<E, F: Fn(&str) -> Result<u32, E>>(
    f: F,
    text: Seq<char>,
    t: Seq<char>,
)
    requires
        ellipsized(f, text, 0, Ok(t)),
    ensures
        t.len() == 0,
{
    if fits(f, text, 0) {
        let w = choose|w: u32| #[trigger] measured(f, text, Ok(w)) && w < 0;
    }
    if exists|k: int| 0 <= k < tries(text) && t == #[trigger] candidate(text, k) && fits(f, t, 0) {
        let k = choose|k: int| 0 <= k < tries(text) && t == #[trigger] candidate(text, k) && fits(f, t, 0);
        let w = choose|w: u32| #[trigger] measured(f, t, Ok(w)) && w < 0;
    }
}

} // verus!
