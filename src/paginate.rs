//! Fetching a whole collection page by page: the decisions of the loop, without its I/O.
//!
//! The caller asks `next_offset` where the next page starts, fetches that page with the
//! configured page size as limit, and hands it to `record_page`. The walk ends after the first
//! page that holds fewer items than the page size. A failed fetch ends the walk too: the caller
//! drops the paginator, and with it what was gathered.
use vstd::prelude::*;

verus! {

/// Where a walk over pages stands.
pub struct PageState {
    pub page_size: nat,
    /// Offset of the next request.
    pub offset: nat,
    /// Offsets of the requests made so far, in order.
    pub offsets: Seq<nat>,
    /// Items gathered so far.
    pub count: nat,
    pub finished: bool,
}

/// A walk that has made no request yet.
pub open spec fn start(page_size: nat) -> PageState {
    PageState { page_size, offset: 0, offsets: Seq::empty(), count: 0, finished: false }
}

/// The walk after a page of `n` items came back for the request at `s.offset`.
pub open spec fn step(s: PageState, n: nat) -> PageState {
    PageState {
        page_size: s.page_size,
        offset: if n < s.page_size {
            s.offset
        } else {
            s.offset + s.page_size
        },
        offsets: s.offsets.push(s.offset),
        count: s.count + n,
        finished: n < s.page_size,
    }
}

/// The walk after the server answers with pages of these sizes, one per request, until it ends.
pub open spec fn feed(s: PageState, sizes: Seq<nat>) -> PageState
    decreases sizes.len(),
{
    if sizes.len() == 0 || s.finished {
        s
    } else {
        feed(step(s, sizes[0]), sizes.drop_first())
    }
}

/// `n` full pages of `page_size` items followed by one page of `k` items.
pub open spec fn full_then_partial(n: nat, page_size: nat, k: nat) -> Seq<nat> {
    Seq::new(n, |i: int| page_size).push(k)
}

/// From any unfinished walk, `n` full pages and then a page of `k < page_size` items take
/// `n + 1` more requests at consecutive multiples of the page size, add `n * page_size + k`
/// items, and end the walk.
proof fn lemma_feed_full_then_partial(s: PageState, n: nat, k: nat)
    requires
        !s.finished,
        s.page_size > 0,
        k < s.page_size,
    ensures
        feed(s, full_then_partial(n, s.page_size, k)) == (PageState {
            page_size: s.page_size,
            offset: s.offset + n * s.page_size,
            offsets: s.offsets + Seq::new(n + 1, |i: int| (s.offset + i * s.page_size) as nat),
            count: s.count + n * s.page_size + k,
            finished: true,
        }),
    decreases n,
{
    let sizes = full_then_partial(n, s.page_size, k);
    let l = s.page_size;
    if n == 0 {
        assert(sizes.drop_first() =~= Seq::<nat>::empty());
        let tail = Seq::new(1, |i: int| (s.offset + i * l) as nat);
        assert(0 * l == 0) by (nonlinear_arith);
        assert(tail[0] == s.offset);
        assert(s.offsets.push(s.offset) =~= s.offsets + tail);
        assert(n * l == 0) by (nonlinear_arith) requires n == 0;
        let r = feed(s, sizes);
        assert(sizes.len() == 1);
        assert(sizes[0] == k);
        assert(feed(step(s, k), Seq::<nat>::empty()) == step(s, k));
        assert(r == step(s, k));
    } else {
        let s1 = step(s, l);
        assert(sizes[0] == l);
        assert(sizes.drop_first() =~= full_then_partial((n - 1) as nat, l, k));
        lemma_feed_full_then_partial(s1, (n - 1) as nat, k);
        assert((n - 1) * l + l == n * l) by (nonlinear_arith);
        let short = Seq::new(n, |i: int| (s1.offset + i * l) as nat);
        let long = Seq::new(n + 1, |i: int| (s.offset + i * l) as nat);
        assert(0 * l == 0) by (nonlinear_arith);
        assert(long[0] == s.offset);
        assert forall|i: int| 0 <= i < n implies #[trigger] short[i] == long[i + 1] by {
            assert((i + 1) * l == i * l + l) by (nonlinear_arith);
        }
        assert(seq![s.offset] + short =~= long);
        assert(s.offsets.push(s.offset) + short =~= s.offsets + (seq![s.offset] + short));
        assert(feed(s, sizes) == feed(s1, sizes.drop_first()));
    }
}

/// Over `n` full pages of `page_size` items and then a page of `k < page_size` items, a walk
/// gathers exactly `n * page_size + k` items in `n + 1` requests, at offsets `0, page_size, ...,
/// n * page_size`, and then stops.
pub proof fn lemma_pagination_counts(page_size: nat, n: nat, k: nat)
    requires
        page_size > 0,
        k < page_size,
    ensures
        ({
            let s = feed(start(page_size), full_then_partial(n, page_size, k));
            &&& s.finished
            &&& s.count == n * page_size + k
            &&& s.offsets.len() == n + 1
            &&& forall|i: int| 0 <= i <= n ==> s.offsets[i] == i * page_size
        }),
{
    lemma_feed_full_then_partial(start(page_size), n, k);
    let s = feed(start(page_size), full_then_partial(n, page_size, k));
    assert forall|i: int| 0 <= i <= n implies s.offsets[i] == i * page_size by {
        assert(s.offsets[i] == Seq::new(n + 1, |j: int| (0 + j * page_size) as nat)[i]);
    }
}

/// When the first page is empty the walk makes that one request, gathers nothing and stops,
/// whatever the server would have answered after it.
pub proof fn lemma_empty_first_page(page_size: nat, rest: Seq<nat>)
    requires
        page_size > 0,
    ensures
        ({
            let s = feed(start(page_size), seq![0nat] + rest);
            &&& s.finished
            &&& s.count == 0
            &&& s.offsets == seq![0nat]
        }),
{
    let sizes = seq![0nat] + rest;
    assert(sizes[0] == 0);
    let s1 = step(start(page_size), 0);
    assert(s1.finished);
    assert(feed(s1, sizes.drop_first()) == s1);
    assert(s1.offsets =~= seq![0nat]);
}

/// Gathers the items of a paginated listing.
pub struct Paginator<T> {
    page_size: u64,
    offset: u64,
    finished: bool,
    items: Vec<T>,
    offsets: Ghost<Seq<nat>>,
}

impl<T> Paginator<T> {
    pub closed spec fn view(&self) -> PageState {
        PageState {
            page_size: self.page_size as nat,
            offset: self.offset as nat,
            offsets: self.offsets@,
            count: self.items@.len(),
            finished: self.finished,
        }
    }

    pub closed spec fn items_view(&self) -> Seq<T> {
        self.items@
    }

    /// Room to advance by one more page without leaving the range of offsets.
    pub open spec fn has_room(&self) -> bool {
        self@.offset + self@.page_size <= u64::MAX
    }

    /// A walk from offset 0 with a fixed page size.
    pub fn new(page_size: u64) -> (r: Self)
        requires
            page_size > 0,
        ensures
            r@ == start(page_size as nat),
            r.items_view() == Seq::<T>::empty(),
    {
        Paginator { page_size, offset: 0, finished: false, items: Vec::new(), offsets: Ghost(Seq::empty()) }
    }

    pub fn page_size(&self) -> (r: u64)
        ensures
            r == self@.page_size,
    {
        self.page_size
    }

    /// Where the next page starts, or `None` once the walk is over.
    pub fn next_offset(&self) -> (r: Option<u64>)
        ensures
            r == (if self@.finished {
                None
            } else {
                Some(self@.offset as u64)
            }),
    {
        if self.finished {
            None
        } else {
            Some(self.offset)
        }
    }

    /// Whether one more full page could be recorded; a shorter page can always be.
    pub fn within_limits(&self) -> (r: bool)
        ensures
            r == self.has_room(),
    {
        self.offset <= u64::MAX - self.page_size
    }

    /// Takes the page that the request at the current offset returned.
    pub fn record_page(&mut self, page: Vec<T>)
        requires
            !old(self)@.finished,
            page@.len() < old(self)@.page_size || old(self).has_room(),
        ensures
            final(self)@ == step(old(self)@, page@.len()),
            final(self).items_view() == old(self).items_view() + page@,
    {
        let n = page.len();
        let mut page = page;
        self.offsets = Ghost(self.offsets@.push(self.offset as nat));
        self.items.append(&mut page);
        if (n as u64) < self.page_size {
            self.finished = true;
        } else {
            self.offset = self.offset + self.page_size;
        }
    }

    /// The items gathered, in the order of the pages and within each page.
    pub fn into_items(self) -> (r: Vec<T>)
        ensures
            r@ == self.items_view(),
    {
        self.items
    }
}

} // verus!
