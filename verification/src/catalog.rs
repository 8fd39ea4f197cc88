use vstd::prelude::*;

use crate::decode::{catalog_page_model, json_of};
use crate::page_set::{flat_prefix, lemma_flat_prefix_congruence, PageSet};
use crate::records::{
    views_of_catalog_pages, views_of_repos, RepositoriesInfo, RepositoriesInfoView,
    SingleRepoInfo, SingleRepoInfoView,
};

verus! {

/// Repositories a catalog page carries at most, and the page size every
/// catalog request asks for.
pub const CATALOG_PAGE_SIZE: usize = 100;

/// One planned catalog page request: the search endpoint takes the language
/// filter, orders by star count descending, and serves the numbered page.
pub struct CatalogPageRequest {
    pub language: String,
    pub page: usize,
    pub per_page: usize,
}

/// Pages needed to cover `desired` repositories at 100 per page: the least
/// page count whose capacity reaches the desired count.
pub open spec fn required_pages_spec(desired: int) -> int {
    if desired % 100 == 0 {
        desired / 100
    } else {
        desired / 100 + 1
    }
}

/// Items kept of the final page: the remainder of the desired count, or the
/// full page when the count is an exact multiple of the page size — an exact
/// multiple must not truncate the final page to zero items.
pub open spec fn last_page_keep_spec(desired: int) -> int {
    if desired % 100 == 0 {
        100
    } else {
        desired % 100
    }
}

/// The catalog that a sequence of fetched pages yields: every page's items in
/// page order, the final page first truncated to the items the desired count
/// still needs.
pub open spec fn catalog_spec(pages: Seq<RepositoriesInfo>, desired: int) -> Seq<SingleRepoInfo> {
    let its = pages.map_values(|p: RepositoriesInfo| p.items);
    if pages.len() == 0 {
        Seq::empty()
    } else {
        let last = its.last()@;
        let keep = last_page_keep_spec(desired);
        let kept = if keep < last.len() {
            keep
        } else {
            last.len() as int
        };
        flat_prefix(its, pages.len() - 1) + last.take(kept)
    }
}

/// The item views of the pages before index `i`, flattened in page order.
pub open spec fn flat_items_views(pages: Seq<RepositoriesInfoView>, i: int) -> Seq<
    SingleRepoInfoView,
>
    decreases i,
{
    if i <= 0 {
        Seq::empty()
    } else {
        flat_items_views(pages, i - 1) + pages[i - 1].items
    }
}

/// The catalog a sequence of decoded pages yields, at the view level: the
/// counterpart of `catalog_spec` over page views.
pub open spec fn catalog_view_spec(pages: Seq<RepositoriesInfoView>, desired: int) -> Seq<
    SingleRepoInfoView,
> {
    if pages.len() == 0 {
        Seq::empty()
    } else {
        let last = pages.last().items;
        let keep = last_page_keep_spec(desired);
        let kept = if keep < last.len() {
            keep
        } else {
            last.len() as int
        };
        flat_items_views(pages, pages.len() - 1) + last.take(kept)
    }
}

/// Viewing a flattened item prefix equals flattening the viewed pages' items.
proof fn lemma_flat_items_views(pages: Seq<RepositoriesInfo>, i: int)
    requires
        0 <= i <= pages.len(),
    ensures
        views_of_repos(flat_prefix(pages.map_values(|p: RepositoriesInfo| p.items), i))
            == flat_items_views(views_of_catalog_pages(pages), i),
    decreases i,
{
    let its = pages.map_values(|p: RepositoriesInfo| p.items);
    if i == 0 {
        assert(views_of_repos(flat_prefix(its, 0)) =~= flat_items_views(
            views_of_catalog_pages(pages),
            0,
        ));
    } else {
        lemma_flat_items_views(pages, i - 1);
        assert(its[i - 1] == pages[i - 1].items);
        assert(views_of_repos(flat_prefix(its, i)) =~= views_of_repos(flat_prefix(its, i - 1))
            + views_of_repos(pages[i - 1].items@));
        assert(views_of_repos(pages[i - 1].items@) =~= views_of_catalog_pages(pages)[i - 1].items);
    }
}

/// Viewing an assembled catalog equals assembling the viewed pages.
pub proof fn lemma_catalog_views(pages: Seq<RepositoriesInfo>, desired: int)
    ensures
        views_of_repos(catalog_spec(pages, desired)) == catalog_view_spec(
            views_of_catalog_pages(pages),
            desired,
        ),
{
    if pages.len() > 0 {
        lemma_flat_items_views(pages, pages.len() - 1);
        let its = pages.map_values(|p: RepositoriesInfo| p.items);
        let last = its.last()@;
        let vlast = views_of_catalog_pages(pages).last().items;
        assert(vlast =~= views_of_repos(last));
        let keep = last_page_keep_spec(desired);
        let kept = if keep < last.len() {
            keep
        } else {
            last.len() as int
        };
        assert(views_of_repos(last.take(kept)) =~= vlast.take(kept));
        assert(views_of_repos(catalog_spec(pages, desired)) =~= catalog_view_spec(
            views_of_catalog_pages(pages),
            desired,
        ));
    } else {
        assert(views_of_repos(catalog_spec(pages, desired)) =~= catalog_view_spec(
            views_of_catalog_pages(pages),
            desired,
        ));
    }
}

/// The decoded pages of a sequence of catalog page bodies, all or nothing.
pub open spec fn decoded_catalog_pages(bodies: Seq<Seq<char>>) -> Option<Seq<RepositoriesInfoView>>
    decreases bodies.len(),
{
    if bodies.len() == 0 {
        Some(Seq::empty())
    } else {
        match decoded_catalog_pages(bodies.drop_last()) {
            Some(pre) => match catalog_page_model(json_of(bodies.last())) {
                Some(p) => Some(pre.push(p)),
                None => None,
            },
            None => None,
        }
    }
}

/// A batch with an undecodable prefix is undecodable whole.
pub proof fn lemma_decoded_catalog_prefix(bodies: Seq<Seq<char>>, k: int)
    requires
        0 <= k <= bodies.len(),
        decoded_catalog_pages(bodies.take(k)) is None,
    ensures
        decoded_catalog_pages(bodies) is None,
    decreases bodies.len() - k,
{
    if k == bodies.len() {
        assert(bodies.take(k) =~= bodies);
    } else {
        assert(bodies.take(k + 1).drop_last() =~= bodies.take(k));
        lemma_decoded_catalog_prefix(bodies, k + 1);
    }
}

/// The catalog a batch of page bodies yields when every body decodes: every
/// page decoded, then assembled with the final page truncated to the desired
/// count.
pub open spec fn catalog_outcome_model(bodies: Seq<Seq<char>>, desired: int) -> Option<
    Seq<SingleRepoInfoView>,
> {
    match decoded_catalog_pages(bodies) {
        Some(pages) => Some(catalog_view_spec(pages, desired)),
        None => None,
    }
}

/// A flattened prefix of uniformly full pages holds one hundred items per
/// page.
proof fn lemma_flat_prefix_len_full(s: Seq<Vec<SingleRepoInfo>>, i: int)
    requires
        0 <= i,
        forall|k: int| 0 <= k < i ==> (#[trigger] s[k])@.len() == 100,
    ensures
        flat_prefix(s, i).len() == 100 * i,
    decreases i,
{
    if i > 0 {
        lemma_flat_prefix_len_full(s, i - 1);
    }
}

/// When the upstream filled every page — one hundred items on each page
/// before the final one, at least the kept remainder on the final page, and
/// one outcome per required page — the assembled catalog holds exactly the
/// desired count of repositories.
pub proof fn lemma_catalog_exact_count(pages: Seq<RepositoriesInfo>, desired: int)
    requires
        desired > 0,
        pages.len() == required_pages_spec(desired),
        forall|k: int| 0 <= k < pages.len() - 1 ==> (#[trigger] pages[k]).items@.len() == 100,
        pages.last().items@.len() >= last_page_keep_spec(desired),
    ensures
        catalog_spec(pages, desired).len() == desired,
{
    let its = pages.map_values(|p: RepositoriesInfo| p.items);
    assert(pages.len() >= 1);
    assert(forall|k: int| 0 <= k < its.len() - 1 ==> (#[trigger] its[k])@.len() == 100);
    lemma_flat_prefix_len_full(its, pages.len() - 1);
}

/// Collects the top `desired_count` most-starred repositories of one
/// language, one hundred per page, preserving the ranking order the source
/// returns.
pub struct RepositoryCatalogGatherer {
    pub language: String,
    pub desired_count: usize,
}

impl RepositoryCatalogGatherer {
    /// Pages the catalog needs to cover `desired_count` repositories.
    pub fn required_pages(desired_count: usize) -> (r: usize)
        ensures
            r == required_pages_spec(desired_count as int),
    {
        if desired_count % 100 == 0 {
            desired_count / 100
        } else {
            desired_count / 100 + 1
        }
    }

    /// Plans one catalog request per needed page, pages ascending from one.
    pub fn plan_requests(&self) -> (r: Vec<CatalogPageRequest>)
        ensures
            r@.len() == required_pages_spec(self.desired_count as int),
            forall|i: int|
                0 <= i < r@.len() ==> {
                    &&& (#[trigger] r@[i]).page == i + 1
                    &&& r@[i].per_page == 100
                    &&& r@[i].language@ == self.language@
                },
    {
        let n = Self::required_pages(self.desired_count);
        let mut out: Vec<CatalogPageRequest> = Vec::new();
        let mut q: usize = 0;
        while q < n
            invariant
                q <= n,
                out@.len() == q,
                forall|i: int|
                    0 <= i < q ==> {
                        &&& (#[trigger] out@[i]).page == i + 1
                        &&& out@[i].per_page == 100
                        &&& out@[i].language@ == self.language@
                    },
            decreases n - q,
        {
            out.push(
                CatalogPageRequest {
                    language: self.language.clone(),
                    page: q + 1,
                    per_page: CATALOG_PAGE_SIZE,
                },
            );
            q += 1;
        }
        out
    }

    /// Merges the fetched catalog pages: truncates the final page to the
    /// items the desired count still needs — keeping it whole when the count
    /// is an exact multiple of the page size — and concatenates all pages in
    /// page order.
    pub fn assemble_catalog(desired_count: usize, pages: Vec<RepositoriesInfo>) -> (r: Vec<
        SingleRepoInfo,
    >)
        ensures
            r@ == catalog_spec(pages@, desired_count as int),
    {
        let ghost orig = pages@;
        let ghost its = orig.map_values(|p: RepositoriesInfo| p.items);
        if pages.len() == 0 {
            let out: Vec<SingleRepoInfo> = Vec::new();
            return out;
        }
        let mut rest = pages;
        let mut item_pages: Vec<Vec<SingleRepoInfo>> = Vec::new();
        while rest.len() > 0
            invariant
                rest@.len() <= orig.len(),
                rest@ == orig.subrange(orig.len() - rest@.len(), orig.len() as int),
                item_pages@.len() == orig.len() - rest@.len(),
                forall|k: int|
                    0 <= k < item_pages@.len() ==> (#[trigger] item_pages@[k]) == orig[k].items,
            decreases rest@.len(),
        {
            assert(rest@[0] == orig[orig.len() - rest@.len()]);
            let page = rest.remove(0);
            item_pages.push(page.items);
            assert(rest@ =~= orig.subrange(orig.len() - rest@.len(), orig.len() as int));
        }
        let keep = if desired_count % 100 == 0 {
            100
        } else {
            desired_count % 100
        };
        let mut last = match item_pages.pop() {
            Some(p) => p,
            None => {
                proof {
                    assert(false);
                }
                Vec::new()
            },
        };
        let ghost last_orig = last@;
        last.truncate(keep);
        proof {
            let kept = if last_page_keep_spec(desired_count as int) < last_orig.len() {
                last_page_keep_spec(desired_count as int)
            } else {
                last_orig.len() as int
            };
            assert(last@ =~= last_orig.take(kept));
        }
        item_pages.push(last);
        let ghost final_pages = item_pages@;
        proof {
            assert(forall|k: int| 0 <= k < orig.len() - 1 ==> final_pages[k] == its[k]);
            lemma_flat_prefix_congruence(final_pages, its, orig.len() - 1);
        }
        let out = PageSet { pages: item_pages }.flatten();
        proof {
            assert(out@ == flat_prefix(final_pages, orig.len() - 1) + final_pages[orig.len() - 1]@);
            assert(out@ =~= catalog_spec(orig, desired_count as int));
        }
        out
    }
}

} // verus!
