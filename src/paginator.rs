//! Pagination of a flat candidate list into fixed-capacity pages, with a
//! cursor made of a page and a position inside that page.

use vstd::arithmetic::div_mod::lemma_fundamental_div_mod;
use vstd::prelude::*;

verus! {

/// Number of pages needed for `len` candidates, `cap` to a page: the ceiling
/// of `len / cap`.
pub open spec fn page_count(len: nat, cap: nat) -> nat {
    if len % cap == 0 {
        len / cap
    } else {
        len / cap + 1
    }
}

/// Length of page `p`: `cap` for a full page, the remainder for the last one,
/// 0 past the end.
pub open spec fn page_len(len: nat, cap: nat, p: nat) -> nat {
    if p * cap < len {
        if len - p * cap >= cap {
            cap
        } else {
            (len - p * cap) as nat
        }
    } else {
        0
    }
}

/// First page of the window of `max` pages that holds page `p`.
pub open spec fn window_start(p: nat, max: nat) -> nat {
    (p - p % max) as nat
}

/// What a paginator holds: the candidates, the page capacity, the number of
/// pages shown at once, and the cursor (page, position in the page).
pub struct PagerView {
    pub items: Seq<String>,
    pub capacity: nat,
    pub max_pages: nat,
    pub page: nat,
    pub index: nat,
}

impl PagerView {
    pub open spec fn len(self) -> nat {
        self.items.len()
    }

    pub open spec fn pages(self) -> nat {
        page_count(self.len(), self.capacity)
    }

    pub open spec fn page_len(self, p: nat) -> nat {
        page_len(self.len(), self.capacity, p)
    }

    /// The flat index of the candidate under the cursor.
    pub open spec fn flat_index(self) -> nat {
        self.page * self.capacity + self.index
    }

    pub open spec fn wf(self) -> bool {
        &&& self.capacity >= 1
        &&& self.max_pages >= 1
        &&& self.items.len() >= 1
        &&& self.page < self.pages()
        &&& self.index < self.page_len(self.page)
    }

    /// The cursor is on the last position of its page.
    pub open spec fn at_page_end(self) -> bool {
        self.index + 1 == self.page_len(self.page)
    }

    /// The cursor one position down, or unchanged at the end of the page.
    pub open spec fn moved_down(self) -> PagerView {
        if self.at_page_end() {
            self
        } else {
            PagerView { index: self.index + 1, ..self }
        }
    }

    /// The cursor one position up, saturating at 0.
    pub open spec fn moved_up(self) -> PagerView {
        PagerView {
            index: if self.index > 0 {
                (self.index - 1) as nat
            } else {
                0
            },
            ..self
        }
    }

    /// The previous page, saturating at page 0, at the same position.
    pub open spec fn moved_left(self) -> PagerView {
        PagerView {
            page: if self.page > 0 {
                (self.page - 1) as nat
            } else {
                0
            },
            ..self
        }
    }

    /// The next page, clamped to the last one, with the position clamped to
    /// the last one of that page.
    pub open spec fn moved_right(self) -> PagerView {
        let p = if self.page + 1 < self.pages() {
            self.page + 1
        } else {
            self.page
        };
        PagerView {
            page: p,
            index: if self.index < self.page_len(p) {
                self.index
            } else {
                (self.page_len(p) - 1) as nat
            },
            ..self
        }
    }

    /// The absolute page shown at position `window_page` of the window.
    pub open spec fn window_page(self, window_page: nat) -> nat {
        window_start(self.page, self.max_pages) + window_page
    }

    /// Position `index` of the window's page `window_page` holds a candidate.
    pub open spec fn can_hover(self, window_page: nat, index: nat) -> bool {
        window_page < self.max_pages && index < self.page_len(self.window_page(window_page))
    }

    pub open spec fn hovered(self, window_page: nat, index: nat) -> PagerView {
        if self.can_hover(window_page, index) {
            PagerView { page: self.window_page(window_page), index, ..self }
        } else {
            self
        }
    }
}

/// Candidate pages with a cursor.
pub struct Paginator {
    candidates: Vec<String>,
    capacity: usize,
    max_pages: usize,
    page: usize,
    index: usize,
}

impl View for Paginator {
    type V = PagerView;

    closed spec fn view(&self) -> PagerView {
        PagerView {
            items: self.candidates@,
            capacity: self.capacity as nat,
            max_pages: self.max_pages as nat,
            page: self.page as nat,
            index: self.index as nat,
        }
    }
}

/// `page_count` is the ceiling of `len / cap`: the pages before the last are
/// full, and the last holds `len - (pages - 1) * cap` candidates, at least one.
pub proof fn lemma_page_layout(len: nat, cap: nat)
    requires
        len >= 1,
        cap >= 1,
    ensures
        ({
            let n = page_count(len, cap);
            &&& n >= 1
            &&& (n - 1) * cap < len <= n * cap
            &&& page_len(len, cap, (n - 1) as nat) == len - (n - 1) * cap
            &&& 1 <= page_len(len, cap, (n - 1) as nat) <= cap
            &&& forall|p: nat| p < n - 1 ==> #[trigger] page_len(len, cap, p) == cap
            &&& forall|p: nat| p >= n ==> #[trigger] page_len(len, cap, p) == 0
        }),
{
    let n = page_count(len, cap);
    let q = len / cap;
    let r = len % cap;
    lemma_fundamental_div_mod(len as int, cap as int);
    assert(len == cap * q + r);
    if r == 0 {
        assert(n == q);
        assert(q >= 1) by (nonlinear_arith)
            requires
                len == cap * q,
                len >= 1,
                cap >= 1,
        ;
        assert((n - 1) * cap == len - cap) by (nonlinear_arith)
            requires
                len == cap * q,
                n == q,
        ;
        assert(n * cap == len) by (nonlinear_arith)
            requires
                len == cap * q,
                n == q,
        ;
    } else {
        assert(n == q + 1);
        assert((n - 1) * cap == len - r) by (nonlinear_arith)
            requires
                len == cap * q + r,
                n == q + 1,
        ;
        assert(n * cap == len - r + cap) by (nonlinear_arith)
            requires
                len == cap * q + r,
                n == q + 1,
        ;
    }
    assert forall|p: nat| p < n - 1 implies #[trigger] page_len(len, cap, p) == cap by {
        assert(p * cap + cap <= (n - 1) * cap) by (nonlinear_arith)
            requires
                p < n - 1,
                cap >= 1,
        ;
    }
    assert forall|p: nat| p >= n implies #[trigger] page_len(len, cap, p) == 0 by {
        assert(p * cap >= n * cap) by (nonlinear_arith)
            requires
                p >= n,
                cap >= 1,
        ;
    }
}

proof fn lemma_window_start(p: nat, max: nat)
    requires
        max >= 1,
    ensures
        p % max <= p,
        p % max < max,
{
    lemma_fundamental_div_mod(p as int, max as int);
    assert(max * (p / max) >= 0) by (nonlinear_arith)
        requires
            max >= 1,
    ;
}

/// The flat index `p * cap + i` of a position on page `p` before the end of
/// that page is a valid index into the candidate list.
pub proof fn lemma_flat_index_in_range(len: nat, cap: nat, p: nat, i: nat)
    requires
        cap >= 1,
        i < page_len(len, cap, p),
    ensures
        p * cap + i < len,
{
}

/// Moving up from position 0 changes nothing, however often it is repeated.
pub proof fn lemma_move_up_at_top(pv: PagerView)
    requires
        pv.wf(),
        pv.index == 0,
    ensures
        pv.moved_up() == pv,
        pv.moved_up().moved_up() == pv,
{
}

/// The cursor after `n` moves to the right.
pub open spec fn moved_right_times(pv: PagerView, n: nat) -> PagerView
    decreases n,
{
    if n == 0 {
        pv
    } else {
        moved_right_times(pv, (n - 1) as nat).moved_right()
    }
}

/// `n` moves to the right from page `p` reach page `min(p + n, pages - 1)`:
/// every page is reachable and none past the last.
pub proof fn lemma_right_moves_reach(pv: PagerView, n: nat)
    requires
        pv.wf(),
    ensures
        moved_right_times(pv, n).wf(),
        moved_right_times(pv, n).page == if pv.page + n < pv.pages() {
            pv.page + n
        } else {
            (pv.pages() - 1) as nat
        },
        moved_right_times(pv, n).items == pv.items,
        moved_right_times(pv, n).capacity == pv.capacity,
        moved_right_times(pv, n).max_pages == pv.max_pages,
    decreases n,
{
    if n > 0 {
        let q = moved_right_times(pv, (n - 1) as nat);
        lemma_right_moves_reach(pv, (n - 1) as nat);
        lemma_moves_keep_wf(q, 0, 0);
        assert(q.pages() == pv.pages());
        assert(moved_right_times(pv, n) == q.moved_right());
    }
}

/// Every navigation step keeps a well-formed paginator well formed.
pub proof fn lemma_moves_keep_wf(pv: PagerView, window_page: nat, index: nat)
    requires
        pv.wf(),
    ensures
        pv.moved_down().wf(),
        pv.moved_up().wf(),
        pv.moved_left().wf(),
        pv.moved_right().wf(),
        pv.hovered(window_page, index).wf(),
{
    lemma_page_layout(pv.len(), pv.capacity);
}

/// The flat index selected at page `p`, position `i` is `p * capacity + i`,
/// and it indexes the candidate list whenever the position is on the page.
pub proof fn lemma_select_round_trip(pv: PagerView, i: nat)
    requires
        pv.wf(),
        i < pv.page_len(pv.page),
    ensures
        pv.page * pv.capacity + i < pv.len(),
        (PagerView { index: i, ..pv }).flat_index() == pv.page * pv.capacity + i,
{
    lemma_flat_index_in_range(pv.len(), pv.capacity, pv.page, i);
}

impl Paginator {
    /// The paginator state is well formed.
    pub open spec fn wf(&self) -> bool {
        self@.wf()
    }

    /// Opens the candidate list on its first page, at position 0. An empty list
    /// gives `None`.
    pub fn open(candidates: Vec<String>, capacity: usize, max_pages: usize) -> (r: Option<Paginator>)
        requires
            capacity >= 1,
            max_pages >= 1,
        ensures
            candidates@.len() == 0 <==> r is None,
            r matches Some(pg) ==> {
                &&& pg.wf()
                &&& pg@.items == candidates@
                &&& pg@.capacity == capacity
                &&& pg@.max_pages == max_pages
                &&& pg@.page == 0
                &&& pg@.index == 0
            },
    {
        if candidates.len() == 0 {
            return None;
        }
        let pg = Paginator { candidates, capacity, max_pages, page: 0, index: 0 };
        proof {
            lemma_page_layout(pg@.len(), pg@.capacity);
            assert(0 * pg@.capacity == 0);
        }
        Some(pg)
    }

    pub fn page(&self) -> (r: usize)
        ensures
            r == self@.page,
    {
        self.page
    }

    pub fn index(&self) -> (r: usize)
        ensures
            r == self@.index,
    {
        self.index
    }

    pub fn capacity(&self) -> (r: usize)
        ensures
            r == self@.capacity,
    {
        self.capacity
    }

    pub fn max_pages(&self) -> (r: usize)
        ensures
            r == self@.max_pages,
    {
        self.max_pages
    }

    pub fn candidates(&self) -> (r: &Vec<String>)
        ensures
            r@ == self@.items,
    {
        &self.candidates
    }

    /// Number of pages: the ceiling of the candidate count over the capacity.
    pub fn page_count(&self) -> (r: usize)
        requires
            self.wf(),
        ensures
            r == self@.pages(),
    {
        let len = self.candidates.len();
        proof {
            lemma_page_layout(self@.len(), self@.capacity);
            let n = self@.pages();
            assert(n - 1 < len) by (nonlinear_arith)
                requires
                    (n - 1) * self@.capacity < len,
                    self@.capacity >= 1,
            ;
        }
        if len % self.capacity == 0 {
            len / self.capacity
        } else {
            len / self.capacity + 1
        }
    }

    /// Number of candidates on page `p` (0 for a page past the end).
    pub fn page_len(&self, p: usize) -> (r: usize)
        requires
            self.wf(),
        ensures
            r == self@.page_len(p as nat),
    {
        let len = self.candidates.len();
        proof {
            lemma_page_layout(self@.len(), self@.capacity);
        }
        let n = self.page_count();
        if p >= n {
            return 0;
        }
        proof {
            assert(p * self@.capacity <= (n - 1) * self@.capacity) by (nonlinear_arith)
                requires
                    p <= n - 1,
                    self@.capacity >= 1,
            ;
        }
        let start = p * self.capacity;
        let rest = len - start;
        if rest >= self.capacity {
            self.capacity
        } else {
            rest
        }
    }

    /// The candidates of page `p`, in order.
    pub fn page_items(&self, p: usize) -> (r: Vec<String>)
        requires
            self.wf(),
            p < self@.pages(),
        ensures
            r@ == self@.items.subrange(
                p * self@.capacity as int,
                p * self@.capacity + self@.page_len(p as nat),
            ),
    {
        let n = self.page_len(p);
        let len = self.candidates.len();
        proof {
            lemma_page_layout(self@.len(), self@.capacity);
            assert(p * self@.capacity <= (self@.pages() - 1) * self@.capacity) by (nonlinear_arith)
                requires
                    p <= self@.pages() - 1,
                    self@.capacity >= 1,
            ;
        }
        let start = p * self.capacity;
        let mut out: Vec<String> = Vec::new();
        let mut k: usize = 0;
        while k < n
            invariant
                k <= n,
                n == self@.page_len(p as nat),
                start == p * self@.capacity,
                start + n <= len,
                len == self@.len(),
                out@ == self@.items.subrange(start as int, start + k),
            decreases n - k,
        {
            out.push(self.candidates[start + k].clone());
            k = k + 1;
            assert(out@ =~= self@.items.subrange(start as int, start + k));
        }
        out
    }

    /// Position of the current page inside the window of visible pages.
    pub fn window_position(&self) -> (r: usize)
        requires
            self.wf(),
        ensures
            r == self@.page % self@.max_pages,
    {
        self.page % self.max_pages
    }

    /// The visible window: up to `max_pages` pages starting at the window
    /// boundary below the current page.
    pub fn visible_pages(&self) -> (r: Vec<Vec<String>>)
        requires
            self.wf(),
        ensures
            ({
                let ws = window_start(self@.page, self@.max_pages);
                &&& r@.len() == if ws + self@.max_pages <= self@.pages() {
                    self@.max_pages
                } else {
                    (self@.pages() - ws) as nat
                }
                &&& forall|j: int|
                    0 <= j < r@.len() ==> #[trigger] r@[j]@ == self@.items.subrange(
                        (ws + j) * self@.capacity,
                        (ws + j) * self@.capacity + self@.page_len((ws + j) as nat),
                    )
            }),
    {
        let n = self.page_count();
        proof {
            lemma_window_start(self@.page, self@.max_pages);
        }
        let start = self.page - self.page % self.max_pages;
        let end = if n - start >= self.max_pages {
            start + self.max_pages
        } else {
            n
        };
        let mut out: Vec<Vec<String>> = Vec::new();
        let mut p = start;
        while p < end
            invariant
                start <= p <= end <= n,
                n == self@.pages(),
                start == window_start(self@.page, self@.max_pages),
                end == if start + self@.max_pages <= n {
                    start + self@.max_pages
                } else {
                    n as int
                },
                self.wf(),
                out@.len() == p - start,
                forall|j: int|
                    0 <= j < out@.len() ==> #[trigger] out@[j]@ == self@.items.subrange(
                        (start + j) * self@.capacity,
                        (start + j) * self@.capacity + self@.page_len((start + j) as nat),
                    ),
            decreases end - p,
        {
            let items = self.page_items(p);
            out.push(items);
            p = p + 1;
        }
        out
    }

    /// Moves the cursor one position down the current page. At the last
    /// position of the page nothing moves and the result is `true`: the caller
    /// is to fetch the next batch of candidates.
    pub fn move_down(&mut self) -> (refresh: bool)
        requires
            old(self).wf(),
        ensures
            final(self).wf(),
            refresh == old(self)@.at_page_end(),
            final(self)@ == old(self)@.moved_down(),
    {
        let n = self.page_len(self.page);
        if self.index + 1 == n {
            true
        } else {
            self.index = self.index + 1;
            false
        }
    }

    /// Moves the cursor one position up; at position 0 nothing changes.
    pub fn move_up(&mut self)
        requires
            old(self).wf(),
        ensures
            final(self).wf(),
            final(self)@ == old(self)@.moved_up(),
            old(self)@.index == 0 ==> final(self)@ == old(self)@,
    {
        if self.index > 0 {
            self.index = self.index - 1;
        }
    }

    /// Moves to the previous page, keeping the position; on page 0 nothing
    /// changes.
    pub fn move_left(&mut self)
        requires
            old(self).wf(),
        ensures
            final(self).wf(),
            final(self)@ == old(self)@.moved_left(),
    {
        proof {
            lemma_page_layout(self@.len(), self@.capacity);
        }
        if self.page > 0 {
            self.page = self.page - 1;
        }
    }

    /// Moves to the next page, staying on the last one at the end; the position
    /// is clamped to the last one of the new page.
    pub fn move_right(&mut self)
        requires
            old(self).wf(),
        ensures
            final(self).wf(),
            final(self)@ == old(self)@.moved_right(),
    {
        proof {
            lemma_page_layout(self@.len(), self@.capacity);
        }
        let n = self.page_count();
        let p = if self.page + 1 < n {
            self.page + 1
        } else {
            self.page
        };
        let len = self.page_len(p);
        self.page = p;
        if self.index >= len {
            self.index = len - 1;
        }
    }

    /// Puts the cursor on position `index` of the page at `window_page` inside
    /// the visible window. A target outside the window's pages leaves the
    /// cursor where it is; the result says whether it moved.
    pub fn hover(&mut self, window_page: usize, index: usize) -> (moved: bool)
        requires
            old(self).wf(),
        ensures
            final(self).wf(),
            moved == old(self)@.can_hover(window_page as nat, index as nat),
            final(self)@ == old(self)@.hovered(window_page as nat, index as nat),
    {
        proof {
            lemma_page_layout(self@.len(), self@.capacity);
        }
        if window_page >= self.max_pages {
            return false;
        }
        let n = self.page_count();
        proof {
            lemma_window_start(self@.page, self@.max_pages);
        }
        let start = self.page - self.page % self.max_pages;
        if window_page >= n - start {
            return false;
        }
        let p = start + window_page;
        if index < self.page_len(p) {
            self.page = p;
            self.index = index;
            true
        } else {
            false
        }
    }

    /// Flat index of position `slot` on the current page: `page * capacity +
    /// slot`, an index into the candidate list when the slot is on the page.
    /// The paginator itself does not change.
    pub fn select_index(&self, slot: usize) -> (r: usize)
        requires
            self.wf(),
            self@.page * self@.capacity + slot <= usize::MAX,
        ensures
            r == self@.page * self@.capacity + slot,
            slot < self@.page_len(self@.page) ==> r < self@.len(),
    {
        proof {
            if slot < self@.page_len(self@.page) {
                lemma_flat_index_in_range(self@.len(), self@.capacity, self@.page, slot as nat);
            }
        }
        self.page * self.capacity + slot
    }

    /// Flat index of the first candidate of the current page.
    pub fn page_start(&self) -> (r: usize)
        requires
            self.wf(),
        ensures
            r == self@.page * self@.capacity,
            r < self@.len(),
    {
        let len = self.candidates.len();
        proof {
            lemma_flat_index_in_range(self@.len(), self@.capacity, self@.page, self@.index);
            assert(self@.page * self@.capacity < len);
        }
        self.page * self.capacity
    }

    /// Flat index of the candidate under the cursor.
    pub fn selected(&self) -> (r: usize)
        requires
            self.wf(),
        ensures
            r == self@.flat_index(),
            r < self@.len(),
    {
        let len = self.candidates.len();
        proof {
            lemma_flat_index_in_range(self@.len(), self@.capacity, self@.page, self@.index);
            assert(self@.flat_index() < len);
        }
        self.select_index(self.index)
    }
}

} // verus!
