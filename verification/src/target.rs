//! A ping target: one destination URL together with the bounds of the
//! randomized delay (in minutes) drawn before each ping.

use vstd::prelude::*;

verus! {

/// Spec-level value of a [`Target`]: the URL as a character sequence and the
/// two delay bounds.
pub struct TargetV {
    pub url: Seq<char>,
    pub min_delay: u64,
    pub max_delay: u64,
}

impl TargetV {
    /// A target is well formed when its delay range is non-empty.
    pub open spec fn wf(self) -> bool {
        self.min_delay <= self.max_delay
    }
}

/// One ping destination. Never mutated in place: configuration changes
/// replace whole `Target` values.
#[derive(Debug)]
pub struct Target {
    pub url: String,
    pub min_delay: u64,
    pub max_delay: u64,
}

impl View for Target {
    type V = TargetV;

    open spec fn view(&self) -> TargetV {
        TargetV { url: self.url@, min_delay: self.min_delay, max_delay: self.max_delay }
    }
}

impl DeepView for Target {
    type V = TargetV;

    open spec fn deep_view(&self) -> TargetV {
        self@
    }
}

impl Target {
    pub fn new(url: String, min_delay: u64, max_delay: u64) -> (r: Target)
        ensures
            r@ == (TargetV { url: url@, min_delay, max_delay }),
    {
        Target { url, min_delay, max_delay }
    }

    /// An explicit copy whose value Verus can track.
    pub fn duplicate(&self) -> (r: Target)
        ensures
            r@ == self@,
    {
        Target { url: self.url.clone(), min_delay: self.min_delay, max_delay: self.max_delay }
    }
}

/// The URLs of a target sequence, in order.
pub open spec fn urls_of(ts: Seq<TargetV>) -> Seq<Seq<char>> {
    ts.map_values(|t: TargetV| t.url)
}

/// Whether some target in `ts` has the URL `url`.
pub open spec fn has_url(ts: Seq<TargetV>, url: Seq<char>) -> bool {
    exists|i: int| 0 <= i < ts.len() && ts[i].url == url
}

/// No two targets share a URL.
pub open spec fn unique_urls(ts: Seq<TargetV>) -> bool {
    forall|i: int, j: int| 0 <= i < j < ts.len() ==> ts[i].url != ts[j].url
}

/// Every target in `ts` has a non-empty delay range.
pub open spec fn all_wf(ts: Seq<TargetV>) -> bool {
    forall|i: int| 0 <= i < ts.len() ==> (#[trigger] ts[i]).wf()
}

/// The target sequence with every entry of the given URL removed, order of
/// the survivors kept.
pub open spec fn remove_url(ts: Seq<TargetV>, url: Seq<char>) -> Seq<TargetV> {
    ts.filter(|t: TargetV| t.url != url)
}

/// Adding a target with a fresh URL keeps the target list free of duplicate
/// URLs.
pub proof fn lemma_add_keeps_unique(ts: Seq<TargetV>, t: TargetV)
    requires
        unique_urls(ts),
        !has_url(ts, t.url),
    ensures
        unique_urls(ts.push(t)),
{
}

/// Removing a URL keeps the target list free of duplicate URLs, and every
/// survivor was already present.
pub proof fn lemma_remove_keeps_unique(ts: Seq<TargetV>, url: Seq<char>)
    requires
        unique_urls(ts),
    ensures
        unique_urls(remove_url(ts, url)),
        forall|x: TargetV| remove_url(ts, url).contains(x) ==> ts.contains(x),
    decreases ts.len(),
{
    reveal_with_fuel(Seq::filter, 2);
    if ts.len() == 0 {
        assert(remove_url(ts, url) =~= Seq::<TargetV>::empty());
    } else {
        let prefix = ts.drop_last();
        let last = ts.last();
        assert(unique_urls(prefix));
        lemma_remove_keeps_unique(prefix, url);
        let kept = remove_url(prefix, url);
        assert(forall|x: TargetV| prefix.contains(x) ==> ts.contains(x));
        if last.url != url {
            assert(remove_url(ts, url) == kept.push(last));
            assert forall|i: int, j: int|
                0 <= i < j < kept.push(last).len() implies kept.push(last)[i].url != kept.push(
                last,
            )[j].url by {
                if j == kept.len() {
                    assert(kept.contains(kept[i]));
                    assert(prefix.contains(kept[i]));
                    let k = choose|k: int| 0 <= k < prefix.len() && prefix[k] == kept[i];
                    assert(0 <= k < prefix.len() && prefix[k] == kept[i]);
                    assert(ts[k] == prefix[k]);
                    assert(ts[k].url != ts[ts.len() - 1].url);
                }
            }
        } else {
            assert(remove_url(ts, url) == kept);
        }
    }
}

/// Removing a URL keeps every remaining target well formed.
pub proof fn lemma_remove_keeps_wf(ts: Seq<TargetV>, url: Seq<char>)
    requires
        all_wf(ts),
    ensures
        all_wf(remove_url(ts, url)),
    decreases ts.len(),
{
    reveal_with_fuel(Seq::filter, 2);
    if ts.len() == 0 {
        assert(remove_url(ts, url) =~= Seq::<TargetV>::empty());
    } else {
        let prefix = ts.drop_last();
        let last = ts.last();
        assert forall|i: int| 0 <= i < prefix.len() implies (#[trigger] prefix[i]).wf() by {
            assert(ts[i].wf());
        }
        lemma_remove_keeps_wf(prefix, url);
        let kept = remove_url(prefix, url);
        if last.url != url {
            assert(remove_url(ts, url) == kept.push(last));
            assert(last == ts[ts.len() - 1]);
            assert forall|i: int|
                0 <= i < kept.push(last).len() implies (#[trigger] kept.push(last)[i]).wf() by {
                if i < kept.len() {
                    assert(kept[i].wf());
                }
            }
        } else {
            assert(remove_url(ts, url) == kept);
        }
    }
}

/// Copies a target list; the copy has the same spec-level value.
pub fn clone_targets(ts: &Vec<Target>) -> (r: Vec<Target>)
    ensures
        r.deep_view() == ts.deep_view(),
{
    let mut r: Vec<Target> = Vec::new();
    let mut i: usize = 0;
    while i < ts.len()
        invariant
            0 <= i <= ts.len(),
            r.deep_view() == ts.deep_view().take(i as int),
        decreases ts.len() - i,
    {
        let ghost pre = r.deep_view();
        r.push(ts[i].duplicate());
        proof {
            assert(pre.len() == i);
            assert forall|j: int| 0 <= j < i + 1 implies r.deep_view()[j] == ts.deep_view()[j] by {
                if j < i {
                    assert(pre[j] == ts.deep_view().take(i as int)[j]);
                }
            }
            assert(r.deep_view() =~= ts.deep_view().take((i + 1) as int));
        }
        i = i + 1;
    }
    proof {
        assert(ts.deep_view().take(ts.len() as int) =~= ts.deep_view());
    }
    r
}

} // verus!
