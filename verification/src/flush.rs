//! What a flush transmits: one update per dirty page, lowest page first.
//!
//! A flush goes page by page. The buffer hands out the update of the
//! lowest page that has changes and keeps that page dirty until it is told
//! that the update has arrived. An update that did not arrive is handed
//! out again by the next flush, so no change is lost to a failed transfer.

use vstd::prelude::*;

use crate::command::{encoded, Code, Command};
use crate::display_specs::DisplaySpecs;
use crate::page_buffer::{
    assembled, lemma_first_write_marks_one_column, views, with_bit, BufferPage, BufferView, PageView,
};

verus! {

/// The transmission that brings one page of the display up to date. Its
/// parts go out in the order `page`, `column`, `data`: the first two on
/// the command channel, the last on the data channel.
pub struct PageUpdate {
    /// The page of the buffer that the update is for.
    pub index: usize,
    /// Selects the page.
    pub page: Code,
    /// Selects the first column to write.
    pub column: Code,
    /// The bytes of the dirty columns, leftmost first.
    pub data: Vec<u8>,
}

/// A page update as contracts see it.
pub struct PageUpdateView {
    /// The page of the buffer that the update is for.
    pub index: int,
    /// Selects the page.
    pub page: Code,
    /// Selects the first column to write.
    pub column: Code,
    /// The bytes of the dirty columns, leftmost first.
    pub data: Seq<u8>,
}

impl PageUpdate {
    /// The update with its data as a sequence.
    pub open spec fn view(&self) -> PageUpdateView {
        PageUpdateView {
            index: self.index as int,
            page: self.page,
            column: self.column,
            data: self.data@,
        }
    }
}

/// The page address under which page `page` is selected.
pub open spec fn page_address(page: int) -> u8 {
    (page % 256) as u8
}

/// The column address of buffer column `start` on a display whose visible
/// columns begin at `column_offset`.
pub open spec fn column_address(column_offset: u8, start: int) -> u8 {
    ((column_offset + start) % 256) as u8
}

/// The view of an update that may be missing.
pub open spec fn viewed(update: Option<PageUpdate>) -> Option<PageUpdateView> {
    match update {
        Some(update) => Some(update@),
        None => None,
    }
}

impl PageView {
    /// The update that transmits the dirty columns of this page, which is
    /// page `index` of its buffer.
    pub open spec fn update(self, index: int, column_offset: u8) -> PageUpdateView
        recommends
            self.pending(),
    {
        let (start, end) = self.dirty->0;
        PageUpdateView {
            index,
            page: encoded(Command::PageAddressSet { address: page_address(index) }),
            column: encoded(
                Command::ColumnAddressSet { address: column_address(column_offset, start) },
            ),
            data: self.data.subrange(start, end),
        }
    }
}

impl BufferView {
    /// The lowest page at or after `from` that has columns to transmit.
    pub open spec fn first_pending_from(self, from: int) -> Option<int>
        decreases self.pages.len() - from,
    {
        if from < 0 || from >= self.pages.len() {
            None
        } else if self.pages[from].pending() {
            Some(from)
        } else {
            self.first_pending_from(from + 1)
        }
    }

    /// The lowest page that has columns to transmit.
    pub open spec fn first_pending(self) -> Option<int> {
        self.first_pending_from(0)
    }

    /// The buffer with the dirty ranges of pages `0..=last` forgotten.
    pub open spec fn cleaned_through(self, last: int) -> BufferView {
        BufferView {
            width: self.width,
            pages: Seq::new(
                self.pages.len(),
                |p: int| if p <= last { self.pages[p].cleaned() } else { self.pages[p] },
            ),
        }
    }

    /// The buffer with every dirty range forgotten.
    pub open spec fn cleaned(self) -> BufferView {
        self.cleaned_through(self.pages.len() - 1)
    }

    /// The update that a flush transmits next: that of the lowest page
    /// that has columns to transmit, if there is such a page.
    pub open spec fn next_update(self, column_offset: u8) -> Option<PageUpdateView> {
        match self.first_pending() {
            Some(page) => Some(self.pages[page].update(page, column_offset)),
            None => None,
        }
    }

    /// The buffer after its next update was handed out. The page of the
    /// update and the pages behind it are untouched: the page stays dirty
    /// until its update has arrived. The pages before it, which have
    /// nothing to transmit, are clean.
    pub open spec fn offered(self) -> BufferView {
        match self.first_pending() {
            Some(page) => self.cleaned_through(page - 1),
            None => self.cleaned(),
        }
    }

    /// The buffer after the update of page `page` has arrived: the dirty
    /// range of that page is forgotten.
    pub open spec fn sent(self, page: int) -> BufferView {
        if 0 <= page < self.pages.len() {
            BufferView { width: self.width, pages: self.pages.update(page, self.pages[page].cleaned()) }
        } else {
            self
        }
    }

    /// The updates that a flush transmits for the pages at or after
    /// `from`, in the order in which they go out.
    pub open spec fn flush_trace_from(self, column_offset: u8, from: int) -> Seq<PageUpdateView>
        decreases self.pages.len() - from,
    {
        if from < 0 || from >= self.pages.len() {
            Seq::empty()
        } else if self.pages[from].pending() {
            seq![self.pages[from].update(from, column_offset)] + self.flush_trace_from(
                column_offset,
                from + 1,
            )
        } else {
            self.flush_trace_from(column_offset, from + 1)
        }
    }

    /// The updates that a complete flush transmits.
    pub open spec fn flush_trace(self, column_offset: u8) -> Seq<PageUpdateView> {
        self.flush_trace_from(column_offset, 0)
    }
}

fn copy_columns(data: &Vec<u8>, start: usize, end: usize) -> (out: Vec<u8>)
    requires
        start <= end <= data@.len(),
    ensures
        out@ == data@.subrange(start as int, end as int),
{
    let mut out: Vec<u8> = Vec::new();
    let mut x: usize = start;
    while x < end
        invariant
            start <= x <= end <= data@.len(),
            out@ == data@.subrange(start as int, x as int),
        decreases end - x,
    {
        out.push(data[x]);
        x += 1;
        assert(out@ =~= data@.subrange(start as int, x as int));
    }
    out
}

fn page_address_of(index: usize) -> (address: u8)
    ensures
        address == page_address(index as int),
{
    (index % 256) as u8
}

fn column_address_of(column_offset: u8, start: usize) -> (address: u8)
    ensures
        address == column_address(column_offset, start as int),
{
    ((column_offset as usize + start % 256) % 256) as u8
}

fn page_update(data: &Vec<u8>, index: usize, start: usize, end: usize, column_offset: u8) -> (update:
    PageUpdate)
    requires
        start <= end <= data@.len(),
    ensures
        update@ == (PageView { data: data@, dirty: Some((start as int, end as int)) }).update(
            index as int,
            column_offset,
        ),
{
    let page = Command::PageAddressSet { address: page_address_of(index) }.encode();
    let column = Command::ColumnAddressSet {
        address: column_address_of(column_offset, start),
    }.encode();
    let data = copy_columns(data, start, end);
    PageUpdate { index, page, column, data }
}

/// Forgetting the dirty range of one more page.
proof fn lemma_clean_one(before: BufferView, earlier: Seq<PageView>, now: Seq<PageView>, p: int)
    requires
        0 <= p < before.pages.len(),
        earlier == before.cleaned_through(p - 1).pages,
        now.len() == earlier.len(),
        forall|i: int| 0 <= i < now.len() && i != p ==> now[i] == earlier[i],
        now[p] == earlier[p].cleaned(),
    ensures
        now == before.cleaned_through(p).pages,
{
    assert(now =~= before.cleaned_through(p).pages);
}

pub(crate) fn rows_flush_next(rows: &mut Vec<BufferPage>, width: usize, column_offset: u8) -> (update:
    Option<PageUpdate>)
    requires
        assembled(width, old(rows)@).wf(),
    ensures
        assembled(width, final(rows)@).wf(),
        viewed(update) == assembled(width, old(rows)@).next_update(column_offset),
        assembled(width, final(rows)@) == assembled(width, old(rows)@).offered(),
{
    let ghost before = assembled(width, rows@);
    let count = rows.len();
    let mut p: usize = 0;
    assert(views(rows@) =~= before.cleaned_through(-1).pages);
    while p < count
        invariant
            p <= count,
            count == rows@.len(),
            before == assembled(width, old(rows)@),
            before.wf(),
            before.width == width,
            before.pages.len() == count,
            before.first_pending() == before.first_pending_from(p as int),
            views(rows@) == before.cleaned_through(p - 1).pages,
        ensures
            p == count,
            before.first_pending() is None,
            views(rows@) == before.cleaned().pages,
        decreases count - p,
    {
        let ghost row = before.pages[p as int];
        let ghost earlier = views(rows@);
        assert(earlier[p as int] == rows@[p as int]@);
        assert(earlier[p as int] == row);
        if let Some((start, end)) = rows[p].dirty {
            if start < end && start < width {
                assert(row.pending());
                assert(row.data.len() == width);
                let update = page_update(&rows[p].data, p, start, end, column_offset);
                assert(row == PageView { data: row.data, dirty: Some((start as int, end as int)) });
                assert(update@ == row.update(p as int, column_offset));
                proof {
                    lemma_cleaned_wf(before, p - 1);
                    assert(before.first_pending() == Some(p as int));
                    assert(assembled(width, rows@) == before.cleaned_through(p - 1));
                }
                return Some(update);
            }
        }
        assert(!row.pending());
        rows[p].dirty = None;
        proof {
            let now = views(rows@);
            assert forall|i: int| 0 <= i < now.len() && i != p implies now[i] == earlier[i] by {}
            lemma_clean_one(before, earlier, now, p as int);
        }
        p += 1;
    }
    proof {
        lemma_cleaned_wf(before, count - 1);
        assert(assembled(width, rows@) == before.cleaned());
    }
    None
}

pub(crate) fn rows_flush_sent(rows: &mut Vec<BufferPage>, width: usize, page: usize)
    requires
        assembled(width, old(rows)@).wf(),
    ensures
        assembled(width, final(rows)@).wf(),
        assembled(width, final(rows)@) == assembled(width, old(rows)@).sent(page as int),
{
    let ghost before = assembled(width, rows@);
    if page < rows.len() {
        assert(before.pages[page as int] == rows@[page as int]@);
        rows[page].dirty = None;
        assert(views(rows@) =~= before.sent(page as int).pages);
    }
    proof {
        lemma_sent_wf(before, page as int);
    }
}

/// Forgetting dirty ranges keeps a buffer well formed.
pub proof fn lemma_cleaned_wf(buffer: BufferView, last: int)
    requires
        buffer.wf(),
    ensures
        buffer.cleaned_through(last).wf(),
        buffer.offered().wf(),
{
    let after = buffer.cleaned_through(last);
    assert forall|p: int| 0 <= p < after.pages.len() implies {
        &&& (#[trigger] after.pages[p]).data.len() == after.width
        &&& after.pages[p].dirty matches Some((start, end)) ==> 0 <= start <= end <= after.width
    } by {
        assert(buffer.pages[p].data.len() == buffer.width);
    }
    let kept = buffer.offered();
    assert forall|p: int| 0 <= p < kept.pages.len() implies {
        &&& (#[trigger] kept.pages[p]).data.len() == kept.width
        &&& kept.pages[p].dirty matches Some((start, end)) ==> 0 <= start <= end <= kept.width
    } by {
        assert(buffer.pages[p].data.len() == buffer.width);
    }
}

/// Forgetting the dirty range of a page whose update has arrived keeps a
/// buffer well formed.
pub proof fn lemma_sent_wf(buffer: BufferView, page: int)
    requires
        buffer.wf(),
    ensures
        buffer.sent(page).wf(),
{
    let after = buffer.sent(page);
    assert forall|p: int| 0 <= p < after.pages.len() implies {
        &&& (#[trigger] after.pages[p]).data.len() == after.width
        &&& after.pages[p].dirty matches Some((start, end)) ==> 0 <= start <= end <= after.width
    } by {
        assert(buffer.pages[p].data.len() == buffer.width);
    }
}

/// Pages from `from` on that have nothing to transmit add nothing to a
/// flush.
pub proof fn lemma_trace_of_clean_tail(buffer: BufferView, column_offset: u8, from: int)
    requires
        forall|p: int| from <= p < buffer.pages.len() && 0 <= p ==> !buffer.pages[p].pending(),
    ensures
        buffer.flush_trace_from(column_offset, from) == Seq::<PageUpdateView>::empty(),
        buffer.first_pending_from(from) is None,
    decreases buffer.pages.len() - from,
{
    if 0 <= from < buffer.pages.len() {
        lemma_trace_of_clean_tail(buffer, column_offset, from + 1);
    }
}

/// What is transmitted for the pages from `from` on does not depend on
/// the dirty ranges of the pages before them.
pub proof fn lemma_trace_ignores_cleaned_head(
    buffer: BufferView,
    column_offset: u8,
    last: int,
    from: int,
)
    requires
        last < from,
    ensures
        buffer.cleaned_through(last).flush_trace_from(column_offset, from)
            == buffer.flush_trace_from(column_offset, from),
        buffer.cleaned_through(last).first_pending_from(from) == buffer.first_pending_from(from),
    decreases buffer.pages.len() - from,
{
    if 0 <= from < buffer.pages.len() {
        lemma_trace_ignores_cleaned_head(buffer, column_offset, last, from + 1);
    }
}

/// The lowest pending page is pending, no page below it is, and the flush
/// from `from` on begins with its update.
pub proof fn lemma_first_pending(buffer: BufferView, column_offset: u8, from: int)
    requires
        0 <= from,
    ensures
        match buffer.first_pending_from(from) {
            Some(page) => {
                &&& from <= page < buffer.pages.len()
                &&& buffer.pages[page].pending()
                &&& forall|p: int| from <= p < page ==> !buffer.pages[p].pending()
                &&& buffer.flush_trace_from(column_offset, from) == seq![
                    buffer.pages[page].update(page, column_offset),
                ] + buffer.flush_trace_from(column_offset, page + 1)
            },
            None => {
                &&& forall|p: int| from <= p < buffer.pages.len() ==> !buffer.pages[p].pending()
                &&& buffer.flush_trace_from(column_offset, from) == Seq::<PageUpdateView>::empty()
            },
        },
    decreases buffer.pages.len() - from,
{
    if from < buffer.pages.len() && !buffer.pages[from].pending() {
        lemma_first_pending(buffer, column_offset, from + 1);
    }
}

/// Pages that have nothing to transmit are passed over.
pub proof fn lemma_trace_skips_clean_head(buffer: BufferView, column_offset: u8, from: int, to: int)
    requires
        0 <= from <= to,
        forall|p: int| from <= p < to && p < buffer.pages.len() ==> !buffer.pages[p].pending(),
    ensures
        buffer.flush_trace_from(column_offset, from) == buffer.flush_trace_from(column_offset, to),
        to <= buffer.pages.len() ==> buffer.first_pending_from(from) == buffer.first_pending_from(
            to,
        ),
    decreases to - from,
{
    if from < to {
        lemma_trace_skips_clean_head(buffer, column_offset, from + 1, to);
        if from >= buffer.pages.len() {
            lemma_trace_of_clean_tail(buffer, column_offset, to);
        }
    }
}

/// An update that was handed out and has not arrived is not lost. Handing
/// it out leaves its page as it was, dirty range and bytes, so that the
/// next step hands out the same update again, and a complete flush still
/// transmits all that it would have transmitted before.
pub proof fn lemma_unsent_update_is_kept(buffer: BufferView, column_offset: u8)
    ensures
        buffer.offered().width == buffer.width,
        buffer.offered().pages.len() == buffer.pages.len(),
        buffer.first_pending() matches Some(page) ==> {
            &&& 0 <= page < buffer.pages.len()
            &&& buffer.offered().pages[page] == buffer.pages[page]
            &&& buffer.offered().pages[page].pending()
        },
        buffer.offered().first_pending() == buffer.first_pending(),
        buffer.offered().next_update(column_offset) == buffer.next_update(column_offset),
        buffer.offered().offered() == buffer.offered(),
        buffer.offered().flush_trace(column_offset) == buffer.flush_trace(column_offset),
{
    let kept = buffer.offered();
    lemma_first_pending(buffer, column_offset, 0);
    match buffer.first_pending() {
        Some(page) => {
            assert forall|p: int| 0 <= p < page && p < kept.pages.len() implies !kept.pages[p].pending() by {}
            lemma_trace_skips_clean_head(kept, column_offset, 0, page);
            lemma_trace_skips_clean_head(buffer, column_offset, 0, page);
            lemma_trace_ignores_cleaned_head(buffer, column_offset, page - 1, page);
            assert(kept.pages[page] == buffer.pages[page]);
            assert(kept.first_pending() == Some(page));
            assert(kept.cleaned_through(page - 1).pages =~= kept.pages);
        },
        None => {
            lemma_clean_flush_is_silent(buffer, column_offset);
        },
    }
}

/// Stepping through a flush transmits the flush. The update handed out is
/// the first of the updates of a complete flush; once it has arrived, the
/// pages up to its own are clean, and the rest of the updates are those of
/// a complete flush of the buffer as it then stands. When there is nothing
/// to hand out, nothing is left to transmit, and the buffer is clean.
pub proof fn lemma_flush_step_by_step(buffer: BufferView, column_offset: u8)
    ensures
        match buffer.next_update(column_offset) {
            Some(update) => {
                &&& buffer.first_pending() == Some(update.index)
                &&& buffer.offered().sent(update.index) == buffer.cleaned_through(update.index)
                &&& buffer.flush_trace(column_offset) == seq![update] + buffer.offered().sent(
                    update.index,
                ).flush_trace(column_offset)
            },
            None => {
                &&& buffer.flush_trace(column_offset) == Seq::<PageUpdateView>::empty()
                &&& buffer.offered().flush_trace(column_offset) == Seq::<PageUpdateView>::empty()
                &&& buffer.offered() == buffer.cleaned()
            },
        },
{
    lemma_first_pending(buffer, column_offset, 0);
    match buffer.first_pending() {
        Some(page) => {
            let rest = buffer.cleaned_through(page);
            assert(buffer.offered().sent(page).pages =~= rest.pages);
            lemma_trace_ignores_cleaned_head(buffer, column_offset, page, page + 1);
            assert forall|p: int| 0 <= p < page + 1 && p < rest.pages.len() implies !rest.pages[p].pending() by {}
            lemma_trace_skips_clean_head(rest, column_offset, 0, page + 1);
        },
        None => {
            lemma_clean_flush_is_silent(buffer, column_offset);
        },
    }
}

/// A flush of a buffer that has just been flushed transmits nothing.
pub proof fn lemma_clean_flush_is_silent(buffer: BufferView, column_offset: u8)
    ensures
        buffer.cleaned().flush_trace(column_offset) == Seq::<PageUpdateView>::empty(),
        buffer.cleaned().first_pending() is None,
        buffer.cleaned().next_update(column_offset) is None,
        buffer.cleaned().cleaned() == buffer.cleaned(),
{
    let clean = buffer.cleaned();
    assert forall|p: int| 0 <= p < clean.pages.len() implies !clean.pages[p].pending() by {}
    lemma_trace_of_clean_tail(clean, column_offset, 0);
    assert(clean.cleaned().pages =~= clean.pages);
}

/// The row of a blank page.
pub open spec fn blank_row(width: int) -> Seq<u8> {
    Seq::new(width as nat, |x: int| 0u8)
}

/// The update that the first flush transmits for page `page` of a blank
/// buffer: the whole row, from the first visible column on.
pub open spec fn blank_update(width: int, page: int, column_offset: u8) -> PageUpdateView {
    PageUpdateView {
        index: page,
        page: encoded(Command::PageAddressSet { address: page_address(page) }),
        column: encoded(Command::ColumnAddressSet { address: column_offset }),
        data: blank_row(width),
    }
}

/// The first flush of a new buffer of some width transmits one update for
/// each page, lowest page first, each with the whole blank row; the flush
/// after it transmits nothing.
pub proof fn lemma_first_flush(width: int, pages: int, column_offset: u8)
    requires
        0 < width,
        0 <= pages,
    ensures
        BufferView::blank(width, pages).flush_trace(column_offset) == Seq::new(
            pages as nat,
            |p: int| blank_update(width, p, column_offset),
        ),
        BufferView::blank(width, pages).cleaned().flush_trace(column_offset) == Seq::<
            PageUpdateView,
        >::empty(),
{
    lemma_blank_trace(width, pages, column_offset, 0);
    assert(Seq::new(pages as nat, |p: int| blank_update(width, p, column_offset)).subrange(
        0,
        pages,
    ) =~= Seq::new(pages as nat, |p: int| blank_update(width, p, column_offset)));
    lemma_clean_flush_is_silent(BufferView::blank(width, pages), column_offset);
}

proof fn lemma_blank_trace(width: int, pages: int, column_offset: u8, from: int)
    requires
        0 < width,
        0 <= from <= pages,
    ensures
        BufferView::blank(width, pages).flush_trace_from(column_offset, from) == Seq::new(
            pages as nat,
            |p: int| blank_update(width, p, column_offset),
        ).subrange(from, pages),
    decreases pages - from,
{
    let buffer = BufferView::blank(width, pages);
    let all = Seq::new(pages as nat, |p: int| blank_update(width, p, column_offset));
    if from < pages {
        lemma_blank_trace(width, pages, column_offset, from + 1);
        let page = buffer.pages[from];
        assert(page.pending());
        assert(page.data.subrange(0, width) =~= blank_row(width));
        assert(column_address(column_offset, 0) == column_offset);
        assert(page.update(from, column_offset) == blank_update(width, from, column_offset));
        assert(seq![all[from]] + all.subrange(from + 1, pages) =~= all.subrange(from, pages));
    } else {
        assert(all.subrange(from, pages) =~= Seq::<PageUpdateView>::empty());
    }
}

/// On a clean buffer, a write that changes a pixel makes the next flush
/// transmit one update that holds one byte: the changed column of the
/// page written to.
pub proof fn lemma_single_write_flush(buffer: BufferView, column_offset: u8, x: int, y: int, on: bool)
    requires
        buffer.wf(),
        buffer.holds(x, y),
        buffer == buffer.cleaned(),
        buffer.pixel(x, y) != on,
    ensures
        buffer.set_pixel(x, y, on).flush_trace(column_offset) == seq![
            PageUpdateView {
                index: y / 8,
                page: encoded(Command::PageAddressSet { address: page_address(y / 8) }),
                column: encoded(
                    Command::ColumnAddressSet { address: column_address(column_offset, x) },
                ),
                data: seq![with_bit(buffer.pages[y / 8].data[x], (y % 8) as u8, on)],
            },
        ],
{
    let after = buffer.set_pixel(x, y, on);
    let page = y / 8;
    assert(buffer.pages[page].data.len() == buffer.width);
    assert(buffer.pages[page] == buffer.cleaned().pages[page]);
    lemma_first_write_marks_one_column(buffer, x, y, on);
    assert forall|p: int| 0 <= p < after.pages.len() && p != page implies !after.pages[p].pending() by {
        assert(after.pages[p] == buffer.cleaned().pages[p]);
    }
    lemma_trace_skips_clean_head(after, column_offset, 0, page);
    lemma_trace_of_clean_tail(after, column_offset, page + 1);
    assert(after.pages[page].pending());
    assert(after.pages[page].data.subrange(x, x + 1) =~= seq![
        with_bit(buffer.pages[page].data[x], (y % 8) as u8, on),
    ]);
    assert(seq![after.pages[page].update(page, column_offset)] + Seq::<PageUpdateView>::empty()
        =~= seq![after.pages[page].update(page, column_offset)]);
}

/// On a display that the controller can address as a whole, every page
/// and every visible column is selected under its own address: nothing is
/// lost to the width of an address.
pub proof fn lemma_addresses_exact(specs: DisplaySpecs, page: int, column: int)
    requires
        specs.valid(),
        0 <= page < specs.pages,
        0 <= column < specs.width,
    ensures
        page_address(page) == page,
        column_address(specs.column_offset, column) == specs.column_offset + column,
        encoded(Command::PageAddressSet { address: page_address(page) }) == Code::Single(
            (0xB0 + page) as u8,
        ),
{
}

} // verus!
