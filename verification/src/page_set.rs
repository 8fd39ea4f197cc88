use vstd::prelude::*;

verus! {

/// The pages that appear before page index `i`, flattened in page order.
pub open spec fn flat_prefix<T>(pages: Seq<Vec<T>>, i: int) -> Seq<T>
    decreases i,
{
    if i <= 0 {
        Seq::empty()
    } else {
        flat_prefix(pages, i - 1) + pages[i - 1]@
    }
}

/// A flattened prefix reads only the pages before `i`.
pub proof fn lemma_flat_prefix_congruence<T>(a: Seq<Vec<T>>, b: Seq<Vec<T>>, i: int)
    requires
        forall|k: int| 0 <= k < i ==> a[k] == b[k],
    ensures
        flat_prefix(a, i) == flat_prefix(b, i),
    decreases i,
{
    if i > 0 {
        lemma_flat_prefix_congruence(a, b, i - 1);
    }
}

/// An ordered sequence of pages, each a sequence of records, to be flattened
/// in page order into one ordered sequence. The order of the flattened result
/// follows the page order alone, never the completion order of the fetches
/// that produced the pages.
pub struct PageSet<T> {
    pub pages: Vec<Vec<T>>,
}

impl<T> PageSet<T> {
    /// The single ordered sequence that the page set flattens to.
    pub open spec fn flat_spec(self) -> Seq<T> {
        flat_prefix(self.pages@, self.pages@.len() as int)
    }

    /// Concatenates the pages in page order.
    pub fn flatten(self) -> (r: Vec<T>)
        ensures
            r@ == self.flat_spec(),
    {
        let mut pages = self.pages;
        let ghost orig = pages@;
        let mut out: Vec<T> = Vec::new();
        assert(pages@ =~= orig.subrange(orig.len() - pages@.len(), orig.len() as int));
        while pages.len() > 0
            invariant
                pages@.len() <= orig.len(),
                pages@ == orig.subrange(orig.len() - pages@.len(), orig.len() as int),
                out@ == flat_prefix(orig, orig.len() - pages@.len()),
            decreases pages@.len(),
        {
            let ghost k = orig.len() - pages@.len();
            assert(pages@[0] == orig[k]);
            let mut page = pages.remove(0);
            out.append(&mut page);
            assert(pages@ =~= orig.subrange(orig.len() - pages@.len(), orig.len() as int));
            assert(out@ == flat_prefix(orig, k + 1));
        }
        assert(out@ == flat_prefix(orig, orig.len() as int));
        out
    }
}

} // verus!
