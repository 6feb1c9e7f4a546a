//! The frame buffer of the graphics mode and its dirty-range tracking.

use vstd::prelude::*;

use crate::display_specs::DisplaySpecs;
use crate::flush::{rows_flush_next, rows_flush_sent, viewed, PageUpdate};

verus! {

/// One page as contracts see it: a row of bytes, each holding eight
/// vertically stacked pixels, and the columns that wait for transmission.
pub struct PageView {
    /// One byte per column; bit `n` is the pixel in row `n` of the page.
    pub data: Seq<u8>,
    /// The half-open column range that changed since the last flush.
    pub dirty: Option<(int, int)>,
}

/// The frame buffer as contracts see it.
pub struct BufferView {
    /// The number of columns of every page.
    pub width: int,
    /// The pages, topmost first.
    pub pages: Seq<PageView>,
}

/// `byte` with bit `n` set or cleared.
pub open spec fn with_bit(byte: u8, n: u8, on: bool) -> u8 {
    if on {
        byte | (1u8 << n)
    } else {
        byte & !(1u8 << n)
    }
}

/// Whether bit `n` of `byte` is set.
pub open spec fn bit_of(byte: u8, n: u8) -> bool {
    (byte >> n) & 1 == 1
}

/// The dirty range `dirty` widened to cover column `x`.
pub open spec fn widened(dirty: Option<(int, int)>, x: int) -> Option<(int, int)> {
    match dirty {
        Some((start, end)) => Some(
            (if x < start { x } else { start }, if end < x + 1 { x + 1 } else { end }),
        ),
        None => Some((x, x + 1)),
    }
}

impl PageView {
    /// Whether the page has columns to transmit.
    pub open spec fn pending(self) -> bool {
        self.dirty matches Some((start, end)) && start < end && start < self.data.len()
    }

    /// The page with its dirty range forgotten.
    pub open spec fn cleaned(self) -> PageView {
        PageView { data: self.data, dirty: None }
    }
}

impl BufferView {
    /// Every page has `width` columns, and a dirty range lies within them.
    pub open spec fn wf(self) -> bool {
        &&& 0 <= self.width
        &&& forall|p: int|
            0 <= p < self.pages.len() ==> {
                &&& (#[trigger] self.pages[p]).data.len() == self.width
                &&& self.pages[p].dirty matches Some((start, end)) ==> 0 <= start <= end
                    <= self.width
            }
    }

    /// A blank buffer in which every page is dirty over its whole width.
    pub open spec fn blank(width: int, pages: int) -> BufferView {
        BufferView {
            width,
            pages: Seq::new(
                pages as nat,
                |p: int| PageView { data: Seq::new(width as nat, |x: int| 0u8), dirty: Some((0, width)) },
            ),
        }
    }

    /// The buffer with every page dirty over its whole width.
    pub open spec fn all_dirty(self) -> BufferView {
        BufferView {
            width: self.width,
            pages: Seq::new(
                self.pages.len(),
                |p: int| PageView { data: self.pages[p].data, dirty: Some((0, self.width)) },
            ),
        }
    }

    /// Whether the buffer is as wide as the display and has as many pages.
    pub open spec fn fits(self, specs: DisplaySpecs) -> bool {
        self.width == specs.width && self.pages.len() == specs.pages
    }

    /// Whether column `x` of row `y` is a pixel of the buffer.
    pub open spec fn holds(self, x: int, y: int) -> bool {
        0 <= x < self.width && 0 <= y && y / 8 < self.pages.len()
    }

    /// The pixel in column `x` of row `y`.
    pub open spec fn pixel(self, x: int, y: int) -> bool
        recommends
            self.holds(x, y),
    {
        bit_of(self.pages[y / 8].data[x], (y % 8) as u8)
    }

    /// The buffer after the pixel in column `x` of row `y` was written. A
    /// write outside the buffer, or one that leaves the byte as it was,
    /// changes nothing; any other widens the dirty range of its page to
    /// cover `x`.
    pub open spec fn set_pixel(self, x: int, y: int, on: bool) -> BufferView {
        if self.holds(x, y) {
            let page = self.pages[y / 8];
            let updated = with_bit(page.data[x], (y % 8) as u8, on);
            if updated != page.data[x] {
                BufferView {
                    width: self.width,
                    pages: self.pages.update(
                        y / 8,
                        PageView { data: page.data.update(x, updated), dirty: widened(page.dirty, x) },
                    ),
                }
            } else {
                self
            }
        } else {
            self
        }
    }
}

/// One page of the buffer.
pub(crate) struct BufferPage {
    pub(crate) data: Vec<u8>,
    pub(crate) dirty: Option<(usize, usize)>,
}

impl BufferPage {
    /// The page as contracts see it.
    pub(crate) open spec fn view(&self) -> PageView {
        PageView {
            data: self.data@,
            dirty: match self.dirty {
                Some((start, end)) => Some((start as int, end as int)),
                None => None,
            },
        }
    }
}

/// The pages of a buffer as contracts see them.
pub(crate) open spec fn views(rows: Seq<BufferPage>) -> Seq<PageView> {
    Seq::new(rows.len(), |p: int| rows[p]@)
}

/// The buffer that `rows` make up at the given width.
pub(crate) open spec fn assembled(width: usize, rows: Seq<BufferPage>) -> BufferView {
    BufferView { width: width as int, pages: views(rows) }
}

fn rows_mark_dirty(rows: &mut Vec<BufferPage>, width: usize)
    requires
        assembled(width, old(rows)@).wf(),
    ensures
        assembled(width, final(rows)@) == assembled(width, old(rows)@).all_dirty(),
{
    let count = rows.len();
    let mut p: usize = 0;
    while p < count
        invariant
            p <= count,
            count == rows@.len(),
            rows@.len() == old(rows)@.len(),
            forall|i: int|
                0 <= i < p ==> (#[trigger] rows@[i])@ == assembled(
                    width,
                    old(rows)@,
                ).all_dirty().pages[i],
            forall|i: int| p <= i < count ==> rows@[i] == old(rows)@[i],
        decreases count - p,
    {
        rows[p].dirty = Some((0, width));
        p += 1;
    }
    assert(views(rows@) =~= assembled(width, old(rows)@).all_dirty().pages);
}

fn rows_set_pixel(rows: &mut Vec<BufferPage>, width: usize, x: usize, y: usize, on: bool)
    requires
        assembled(width, old(rows)@).wf(),
    ensures
        assembled(width, final(rows)@) == assembled(width, old(rows)@).set_pixel(
            x as int,
            y as int,
            on,
        ),
        assembled(width, final(rows)@).wf(),
{
    let page = y / 8;
    let offset = (y % 8) as u8;
    let ghost before = assembled(width, rows@);
    if x < width && page < rows.len() {
        assert(before.pages[page as int] == rows@[page as int]@);
        let line = rows[page].data[x];
        let updated = if on {
            line | (1u8 << offset)
        } else {
            line & !(1u8 << offset)
        };
        if updated != line {
            let dirty = match rows[page].dirty {
                Some((start, end)) => Some(
                    (if x < start { x } else { start }, if end < x + 1 { x + 1 } else { end }),
                ),
                None => Some((x, x + 1)),
            };
            rows[page].dirty = dirty;
            rows[page].data[x] = updated;
            assert(views(rows@) =~= before.set_pixel(x as int, y as int, on).pages);
        }
    }
    proof {
        lemma_set_pixel_wf(before, x as int, y as int, on);
    }
}

/// Writing a pixel keeps a buffer well formed.
pub proof fn lemma_set_pixel_wf(buffer: BufferView, x: int, y: int, on: bool)
    requires
        buffer.wf(),
    ensures
        buffer.set_pixel(x, y, on).wf(),
{
    let after = buffer.set_pixel(x, y, on);
    assert forall|p: int| 0 <= p < after.pages.len() implies {
        &&& (#[trigger] after.pages[p]).data.len() == after.width
        &&& after.pages[p].dirty matches Some((start, end)) ==> 0 <= start <= end <= after.width
    } by {
        assert(buffer.pages[p].data.len() == buffer.width);
    }
}

/// A graphics page buffer, required for graphics mode.
///
/// Needs to be provided by the user.
pub struct GraphicsPageBuffer {
    width: usize,
    pages: Vec<BufferPage>,
}

impl GraphicsPageBuffer {
    #[verifier::type_invariant]
    pub(crate) open spec fn inv(&self) -> bool {
        self@.wf()
    }

    /// The contents of the buffer and the dirty range of each page.
    pub closed spec fn view(&self) -> BufferView {
        BufferView {
            width: self.width as int,
            pages: views(self.pages@),
        }
    }

    /// Creates a graphics page buffer of `pages` pages, each `width`
    /// columns wide. Every page starts out dirty, so that the first flush
    /// transmits the whole buffer.
    pub fn new(width: usize, pages: usize) -> (buffer: Self)
        ensures
            buffer@ == BufferView::blank(width as int, pages as int),
            buffer@.wf(),
    {
        let mut rows: Vec<BufferPage> = Vec::new();
        let mut p: usize = 0;
        while p < pages
            invariant
                p <= pages,
                rows@.len() == p,
                forall|i: int|
                    0 <= i < p ==> (#[trigger] rows@[i])@ == BufferView::blank(
                        width as int,
                        pages as int,
                    ).pages[i],
            decreases pages - p,
        {
            let mut data: Vec<u8> = Vec::new();
            let mut x: usize = 0;
            while x < width
                invariant
                    x <= width,
                    data@.len() == x,
                    forall|i: int| 0 <= i < x ==> data@[i] == 0u8,
                decreases width - x,
            {
                data.push(0);
                x += 1;
            }
            assert(data@ =~= Seq::new(width as nat, |x: int| 0u8));
            rows.push(BufferPage { data, dirty: Some((0, width)) });
            p += 1;
        }
        let buffer = GraphicsPageBuffer { width, pages: rows };
        assert(buffer@.pages =~= BufferView::blank(width as int, pages as int).pages);
        proof {
            use_type_invariant(&buffer);
        }
        buffer
    }

    /// Creates a graphics page buffer that fits the display: as wide as
    /// the display, with as many pages as the display has.
    pub fn for_display(specs: &DisplaySpecs) -> (buffer: Self)
        ensures
            buffer@ == BufferView::blank(specs.width as int, specs.pages as int),
            buffer@.wf(),
            buffer@.fits(*specs),
    {
        GraphicsPageBuffer::new(specs.width, specs.pages)
    }

    /// Whether the buffer is as wide as the display and has as many pages.
    pub fn fits(&self, specs: &DisplaySpecs) -> (fits: bool)
        ensures
            fits == self@.fits(*specs),
    {
        proof {
            use_type_invariant(&*self);
        }
        self.width == specs.width && self.pages.len() == specs.pages
    }

    /// The number of columns of every page.
    pub fn width(&self) -> (width: usize)
        ensures
            width == self@.width,
    {
        self.width
    }

    /// The number of pages.
    pub fn pages(&self) -> (pages: usize)
        ensures
            pages == self@.pages.len(),
    {
        self.pages.len()
    }

    /// Marks the entire buffer as dirty, causing a full retransmission of
    /// all data at the next flush.
    pub fn mark_dirty(&mut self)
        ensures
            final(self)@ == old(self)@.all_dirty(),
            final(self)@.wf(),
    {
        proof {
            use_type_invariant(&*self);
        }
        let mut rows: Vec<BufferPage> = Vec::new();
        std::mem::swap(&mut rows, &mut self.pages);
        rows_mark_dirty(&mut rows, self.width);
        self.pages = rows;
        proof {
            use_type_invariant(&*self);
        }
    }

    /// Writes the pixel in column `x` of row `y`.
    pub fn set_pixel(&mut self, x: usize, y: usize, on: bool)
        ensures
            final(self)@ == old(self)@.set_pixel(x as int, y as int, on),
            !old(self)@.holds(x as int, y as int) ==> final(self)@ == old(self)@,
            final(self)@.wf(),
    {
        proof {
            use_type_invariant(&*self);
        }
        let mut rows: Vec<BufferPage> = Vec::new();
        std::mem::swap(&mut rows, &mut self.pages);
        rows_set_pixel(&mut rows, self.width, x, y, on);
        self.pages = rows;
    }

    /// Hands out the next update of a flush: that of the lowest page that
    /// has columns to transmit. `None` says that the buffer is clean.
    ///
    /// The page of the update stays dirty: its range is forgotten by
    /// [`flush_sent`](Self::flush_sent), which is to be called once the
    /// update has arrived. Until then every call hands out the same update
    /// again. A flush transmits each update, confirms it, and asks for the
    /// next until `None` comes back. A flush that ends on a failed transfer
    /// confirms nothing more, and the next flush begins with the update
    /// that failed.
    pub fn flush_next(&mut self, column_offset: u8) -> (update: Option<PageUpdate>)
        ensures
            viewed(update) == old(self)@.next_update(column_offset),
            final(self)@ == old(self)@.offered(),
            final(self)@.wf(),
    {
        proof {
            use_type_invariant(&*self);
        }
        let mut rows: Vec<BufferPage> = Vec::new();
        std::mem::swap(&mut rows, &mut self.pages);
        let update = rows_flush_next(&mut rows, self.width, column_offset);
        self.pages = rows;
        update
    }

    /// Records that the update of page `page` has arrived at the display:
    /// the dirty range of that page is forgotten. A page that the buffer
    /// does not have is ignored.
    pub fn flush_sent(&mut self, page: usize)
        ensures
            final(self)@ == old(self)@.sent(page as int),
            final(self)@.wf(),
    {
        proof {
            use_type_invariant(&*self);
        }
        let mut rows: Vec<BufferPage> = Vec::new();
        std::mem::swap(&mut rows, &mut self.pages);
        rows_flush_sent(&mut rows, self.width, page);
        self.pages = rows;
    }
}

/// Setting or clearing a bit gives that bit its value, leaves the other
/// bits alone, and does nothing more when done again.
pub proof fn lemma_with_bit(byte: u8, n: u8, on: bool)
    requires
        n < 8,
    ensures
        bit_of(with_bit(byte, n, on), n) == on,
        forall|m: u8| m < 8 && m != n ==> bit_of(with_bit(byte, n, on), m) == bit_of(byte, m),
        with_bit(with_bit(byte, n, on), n, on) == with_bit(byte, n, on),
        with_bit(byte, n, on) == byte <==> bit_of(byte, n) == on,
{
    assert(n < 8 ==> ((byte | (1u8 << n)) >> n) & 1 == 1) by (bit_vector);
    assert(n < 8 ==> ((byte & !(1u8 << n)) >> n) & 1 == 0) by (bit_vector);
    assert(n < 8 ==> (byte | (1u8 << n)) | (1u8 << n) == byte | (1u8 << n)) by (bit_vector);
    assert(n < 8 ==> (byte & !(1u8 << n)) & !(1u8 << n) == byte & !(1u8 << n)) by (bit_vector);
    assert(n < 8 ==> ((byte | (1u8 << n)) == byte <==> (byte >> n) & 1 == 1)) by (bit_vector);
    assert(n < 8 ==> ((byte & !(1u8 << n)) == byte <==> (byte >> n) & 1 != 1)) by (bit_vector);
    assert forall|m: u8| m < 8 && m != n implies bit_of(with_bit(byte, n, on), m) == bit_of(
        byte,
        m,
    ) by {
        assert(n < 8 && m < 8 && m != n ==> ((byte | (1u8 << n)) >> m) & 1 == (byte >> m) & 1)
            by (bit_vector);
        assert(n < 8 && m < 8 && m != n ==> ((byte & !(1u8 << n)) >> m) & 1 == (byte >> m) & 1)
            by (bit_vector);
    }
}

/// A write outside the buffer changes neither the pixels nor the dirty
/// ranges.
pub proof fn lemma_set_pixel_outside(buffer: BufferView, x: int, y: int, on: bool)
    requires
        !buffer.holds(x, y),
    ensures
        buffer.set_pixel(x, y, on) == buffer,
{
}

/// After a write the pixel has the colour written, and every other pixel
/// of the buffer has the colour that it had.
pub proof fn lemma_set_pixel_reads_back(
    buffer: BufferView,
    x: int,
    y: int,
    on: bool,
    other_x: int,
    other_y: int,
)
    requires
        buffer.wf(),
        buffer.holds(x, y),
        buffer.holds(other_x, other_y),
    ensures
        buffer.set_pixel(x, y, on).holds(other_x, other_y),
        buffer.set_pixel(x, y, on).pixel(x, y) == on,
        (other_x != x || other_y != y) ==> buffer.set_pixel(x, y, on).pixel(other_x, other_y)
            == buffer.pixel(other_x, other_y),
{
    let page = buffer.pages[y / 8];
    assert(page.data.len() == buffer.width);
    assert(buffer.pages[other_y / 8].data.len() == buffer.width);
    lemma_with_bit(page.data[x], (y % 8) as u8, on);
    if other_x == x && other_y / 8 == y / 8 && other_y != y {
        assert((other_y % 8) as u8 != (y % 8) as u8);
    }
}

/// Writing the same pixel a second time changes nothing: neither the
/// pixels nor any dirty range.
pub proof fn lemma_set_pixel_idempotent(buffer: BufferView, x: int, y: int, on: bool)
    requires
        buffer.wf(),
    ensures
        buffer.set_pixel(x, y, on).set_pixel(x, y, on) == buffer.set_pixel(x, y, on),
{
    if buffer.holds(x, y) {
        let page = buffer.pages[y / 8];
        assert(page.data.len() == buffer.width);
        lemma_with_bit(page.data[x], (y % 8) as u8, on);
    }
}

/// The first write that changes a clean page leaves exactly its own
/// column dirty; one that changes nothing leaves the page clean.
pub proof fn lemma_first_write_marks_one_column(buffer: BufferView, x: int, y: int, on: bool)
    requires
        buffer.wf(),
        buffer.holds(x, y),
        buffer.pages[y / 8].dirty is None,
    ensures
        buffer.pixel(x, y) != on ==> buffer.set_pixel(x, y, on).pages[y / 8].dirty == Some(
            (x, x + 1),
        ),
        buffer.pixel(x, y) == on ==> buffer.set_pixel(x, y, on) == buffer,
        forall|p: int|
            0 <= p < buffer.pages.len() && p != y / 8 ==> buffer.set_pixel(x, y, on).pages[p]
                == buffer.pages[p],
{
    let page = buffer.pages[y / 8];
    assert(page.data.len() == buffer.width);
    lemma_with_bit(page.data[x], (y % 8) as u8, on);
}

/// Two writes that change a clean page leave dirty the range from the
/// lower of their columns to the higher, with every column in between.
pub proof fn lemma_writes_join_range(
    buffer: BufferView,
    x1: int,
    y1: int,
    on1: bool,
    x2: int,
    y2: int,
    on2: bool,
)
    requires
        buffer.wf(),
        buffer.holds(x1, y1),
        buffer.holds(x2, y2),
        y1 / 8 == y2 / 8,
        buffer.pages[y1 / 8].dirty is None,
        buffer.pixel(x1, y1) != on1,
        buffer.set_pixel(x1, y1, on1).pixel(x2, y2) != on2,
    ensures
        buffer.set_pixel(x1, y1, on1).set_pixel(x2, y2, on2).pages[y1 / 8].dirty == Some(
            (if x1 < x2 { x1 } else { x2 }, if x1 < x2 { x2 + 1 } else { x1 + 1 }),
        ),
{
    let first = buffer.set_pixel(x1, y1, on1);
    lemma_first_write_marks_one_column(buffer, x1, y1, on1);
    lemma_set_pixel_wf(buffer, x1, y1, on1);
    let page = first.pages[y2 / 8];
    assert(page.data.len() == first.width);
    lemma_with_bit(page.data[x2], (y2 % 8) as u8, on2);
}

/// Marking a buffer dirty keeps it well formed.
pub proof fn lemma_all_dirty_wf(buffer: BufferView)
    requires
        buffer.wf(),
    ensures
        buffer.all_dirty().wf(),
{
    let marked = buffer.all_dirty();
    assert forall|p: int| 0 <= p < marked.pages.len() implies {
        &&& (#[trigger] marked.pages[p]).data.len() == marked.width
        &&& marked.pages[p].dirty matches Some((start, end)) ==> 0 <= start <= end <= marked.width
    } by {
        assert(buffer.pages[p].data.len() == buffer.width);
    }
}

/// A blank buffer is well formed, and dirty all over already.
pub proof fn lemma_blank(width: int, pages: int)
    requires
        0 <= width,
        0 <= pages,
    ensures
        BufferView::blank(width, pages).wf(),
        BufferView::blank(width, pages).all_dirty() == BufferView::blank(width, pages),
{
    let blank = BufferView::blank(width, pages);
    assert(blank.all_dirty().pages =~= blank.pages);
}

/// A buffer that fits a display that the controller can address as a
/// whole holds every pixel of the display: no write on the display is
/// dropped.
pub proof fn lemma_fitting_buffer_holds_display(
    buffer: BufferView,
    specs: DisplaySpecs,
    x: int,
    y: int,
)
    requires
        specs.valid(),
        buffer.fits(specs),
        specs.shows(x, y),
    ensures
        buffer.holds(x, y),
{
}

/// A write never takes a column out of a dirty range: what waited for
/// transmission before the write waits after it.
pub proof fn lemma_set_pixel_keeps_dirty(buffer: BufferView, x: int, y: int, on: bool, page: int)
    requires
        buffer.wf(),
        0 <= page < buffer.pages.len(),
    ensures
        buffer.set_pixel(x, y, on).pages.len() == buffer.pages.len(),
        buffer.pages[page].dirty matches Some((start, end)) ==> {
            &&& buffer.set_pixel(x, y, on).pages[page].dirty matches Some((new_start, new_end))
            &&& new_start <= start
            &&& end <= new_end
        },
        buffer.pages[page].pending() ==> buffer.set_pixel(x, y, on).pages[page].pending(),
{
    assert(buffer.pages[page].data.len() == buffer.width);
    if buffer.holds(x, y) {
        assert(buffer.pages[y / 8].data.len() == buffer.width);
    }
}

} // verus!
