use vstd::prelude::*;
use crate::geometry::SvgSize;

verus! {

/// The height reported for measured text: a fixed constant of the rendering
/// domain. Only the width is really measured; the height deliberately is not.
pub const TEXT_HEIGHT: i64 = 20;

/// The mathematical content of a measurement cache: each recorded text maps
/// to its measured width. Later entries win, though a well-formed cache
/// records each text at most once.
pub open spec fn map_of(entries: Seq<(String, i64)>) -> Map<Seq<char>, i64>
    decreases entries.len(),
{
    if entries.len() == 0 {
        Map::empty()
    } else {
        map_of(entries.drop_last()).insert(entries.last().0@, entries.last().1)
    }
}

/// The size a lookup reports for text `t` under cache contents `m`: the
/// cached width paired with the fixed height, or nothing on a cache miss.
pub open spec fn cached_size(m: Map<Seq<char>, i64>, t: Seq<char>) -> Option<SvgSize> {
    if m.contains_key(t) {
        Some(SvgSize { width: m[t], height: TEXT_HEIGHT })
    } else {
        None
    }
}

/// Per-render-pass context owning the text-measurement cache. The cache is
/// keyed by the literal text content — no normalization — and grows
/// monotonically; it never evicts.
pub struct RenderingState {
    text_metrics_cache: Vec<(String, i64)>,
}

impl RenderingState {
    /// The cache contents, as a map from text content to measured width.
    pub closed spec fn cache_map(&self) -> Map<Seq<char>, i64> {
        map_of(self.text_metrics_cache@)
    }

    /// Each text is recorded at most once, and every recorded width is a
    /// non-negative extent.
    pub closed spec fn wf(&self) -> bool {
        &&& forall|i: int, j: int|
            0 <= i < j < self.text_metrics_cache@.len()
                ==> self.text_metrics_cache@[i].0@ != self.text_metrics_cache@[j].0@
        &&& forall|i: int|
            0 <= i < self.text_metrics_cache@.len() ==> self.text_metrics_cache@[i].1 >= 0
    }

    /// A fresh state with an empty cache.
    pub fn new() -> (s: Self)
        ensures
            s.cache_map() == Map::<Seq<char>, i64>::empty(),
            s.wf(),
    {
        RenderingState { text_metrics_cache: Vec::new() }
    }

    /// Looks `text` up in the cache: on a hit, the cached width paired with
    /// the fixed height; on a miss, nothing — the caller must obtain the
    /// width from the host's measurement primitive and record it with
    /// [`Self::record_text_width`]. A hit never touches the host and never
    /// changes the cache, so repeated lookups return the identical size.
    pub fn measure_text(&self, text: &str) -> (r: Option<SvgSize>)
        requires
            self.wf(),
        ensures
            r == cached_size(self.cache_map(), text@),
            r matches Some(s) ==> s.wf(),
    {
        let key: String = text.to_owned();
        let n = self.text_metrics_cache.len();
        let mut i: usize = 0;
        while i < n
            invariant
                i <= n,
                n == self.text_metrics_cache@.len(),
                self.wf(),
                key@ == text@,
                forall|j: int| 0 <= j < i ==> self.text_metrics_cache@[j].0@ != text@,
            decreases n - i,
        {
            if self.text_metrics_cache[i].0 == key {
                let width = self.text_metrics_cache[i].1;
                proof {
                    lemma_map_of_found(self.text_metrics_cache@, i as int);
                }
                return Some(SvgSize { width, height: TEXT_HEIGHT });
            }
            i = i + 1;
        }
        proof {
            lemma_map_of_absent(self.text_metrics_cache@, text@);
        }
        None
    }

    /// Records the measured width of `text`, overwriting any stale entry for
    /// the exact same content, and returns the size that every later lookup
    /// of `text` will report.
    pub fn record_text_width(&mut self, text: &str, width: i64) -> (s: SvgSize)
        requires
            old(self).wf(),
            width >= 0,
        ensures
            final(self).cache_map() == old(self).cache_map().insert(text@, width),
            final(self).wf(),
            s == (SvgSize { width, height: TEXT_HEIGHT }),
            s.wf(),
            cached_size(final(self).cache_map(), text@) == Some(s),
    {
        let key: String = text.to_owned();
        let n = self.text_metrics_cache.len();
        let mut i: usize = 0;
        while i < n
            invariant
                i <= n,
                n == self.text_metrics_cache@.len(),
                self.wf(),
                *self == *old(self),
                width >= 0,
                key@ == text@,
                forall|j: int| 0 <= j < i ==> self.text_metrics_cache@[j].0@ != text@,
            decreases n - i,
        {
            if self.text_metrics_cache[i].0 == key {
                let ghost entries0 = self.text_metrics_cache@;
                proof {
                    lemma_map_of_update(entries0, i as int, (key, width));
                }
                self.text_metrics_cache[i] = (key, width);
                proof {
                    let entries1 = self.text_metrics_cache@;
                    assert(entries1 == entries0.update(i as int, (key, width)));
                    assert(entries1[i as int] == (key, width));
                    assert forall|j: int, k: int|
                        0 <= j < k < entries1.len() implies entries1[j].0@
                        != entries1[k].0@ by {
                        assert(entries1[j].0@ == entries0[j].0@);
                        assert(entries1[k].0@ == entries0[k].0@);
                    }
                    assert forall|j: int| 0 <= j < entries1.len() implies entries1[j].1 >= 0 by {
                        if j == i as int {
                            assert(entries1[j].1 == width);
                        } else {
                            assert(entries1[j].1 == entries0[j].1);
                            assert(old(self).text_metrics_cache@[j].1 >= 0);
                        }
                    }
                }
                return SvgSize { width, height: TEXT_HEIGHT };
            }
            i = i + 1;
        }
        proof {
            let entries = self.text_metrics_cache@;
            let pair = (key, width);
            assert(entries.push(pair).drop_last() =~= entries);
            lemma_map_of_absent(entries, text@);
        }
        self.text_metrics_cache.push((key, width));
        SvgSize { width, height: TEXT_HEIGHT }
    }
}

/// In a cache whose tail holds no later entry for the same text, the entry at
/// `i` is exactly what the cache's map reports.
proof fn lemma_map_of_found(entries: Seq<(String, i64)>, i: int)
    requires
        0 <= i < entries.len(),
        forall|j: int| i < j < entries.len() ==> entries[j].0@ != entries[i].0@,
    ensures
        map_of(entries).contains_key(entries[i].0@),
        map_of(entries)[entries[i].0@] == entries[i].1,
    decreases entries.len(),
{
    if i == entries.len() - 1 {
    } else {
        assert(entries.drop_last()[i] == entries[i]);
        lemma_map_of_found(entries.drop_last(), i);
    }
}

/// A text recorded in no entry is absent from the cache's map.
proof fn lemma_map_of_absent(entries: Seq<(String, i64)>, t: Seq<char>)
    requires
        forall|j: int| 0 <= j < entries.len() ==> entries[j].0@ != t,
    ensures
        !map_of(entries).contains_key(t),
    decreases entries.len(),
{
    if entries.len() > 0 {
        lemma_map_of_absent(entries.drop_last(), t);
    }
}

/// Overwriting the unique entry for a text changes the cache's map exactly as
/// inserting the new width for that text does.
proof fn lemma_map_of_update(entries: Seq<(String, i64)>, i: int, pair: (String, i64))
    requires
        0 <= i < entries.len(),
        pair.0@ == entries[i].0@,
        forall|j: int, k: int|
            0 <= j < k < entries.len() ==> entries[j].0@ != entries[k].0@,
    ensures
        map_of(entries.update(i, pair)) == map_of(entries).insert(pair.0@, pair.1),
    decreases entries.len(),
{
    let t = pair.0@;
    let updated = entries.update(i, pair);
    if i == entries.len() - 1 {
        assert(updated.drop_last() =~= entries.drop_last());
        assert(map_of(updated) == map_of(entries.drop_last()).insert(t, pair.1));
        assert(map_of(entries).insert(t, pair.1) =~= map_of(entries.drop_last()).insert(t, pair.1));
    } else {
        assert(updated.drop_last() =~= entries.drop_last().update(i, pair));
        assert(entries.drop_last()[i] == entries[i]);
        lemma_map_of_update(entries.drop_last(), i, pair);
        assert(updated.last() == entries.last());
        assert(entries.last().0@ != t);
        assert(map_of(updated) == map_of(entries.drop_last()).insert(t, pair.1).insert(
            entries.last().0@,
            entries.last().1,
        ));
        assert(map_of(entries.drop_last()).insert(t, pair.1).insert(
            entries.last().0@,
            entries.last().1,
        ) =~= map_of(entries).insert(t, pair.1));
    }
}

/// Cache correctness / idempotence: once a text's width is recorded, looking
/// that text up reports exactly the recorded width paired with the fixed
/// height, and every repetition reports the identical size (a hit changes
/// nothing). Recording one text leaves every other text's entry untouched:
/// texts are cached independently, keyed by their exact content.
pub proof fn lemma_cache_idempotent(m: Map<Seq<char>, i64>, t: Seq<char>, w: i64, other: Seq<char>)
    requires
        w >= 0,
        other != t,
    ensures
        cached_size(m.insert(t, w), t) == Some(SvgSize { width: w, height: TEXT_HEIGHT }),
        cached_size(m.insert(t, w), other) == cached_size(m, other),
{
}

} // verus!
