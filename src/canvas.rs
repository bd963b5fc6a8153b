use crate::color::Rgba;
use crate::queue::UpdateQueue;
use vstd::prelude::*;

verus! {

/// A decoded pixel write that has not yet reached the framebuffer. Its
/// coordinates are not yet checked against the canvas.
#[derive(Clone, Copy, Debug, PartialEq, Eq, Structural)]
pub struct PendingUpdate {
    pub x: u16,
    pub y: u16,
    pub color: Rgba,
}

/// The colour every cell holds when a canvas is made.
pub open spec fn blank() -> Rgba {
    Rgba { r: 0, g: 0, b: 0, a: 0 }
}

/// Whether `(x, y)` lies on a `width` by `height` canvas.
pub open spec fn in_bounds(x: u16, y: u16, width: u16, height: u16) -> bool {
    x < width && y < height
}

/// The framebuffer index of cell `(x, y)`: rows are laid out one after another.
pub open spec fn cell_index(x: int, y: int, width: int) -> int {
    y * width + x
}

/// The framebuffer after one update: an in-range update overwrites its cell,
/// any other leaves every cell as it was.
pub open spec fn apply_one(fb: Seq<Rgba>, u: PendingUpdate, width: u16, height: u16) -> Seq<Rgba> {
    if in_bounds(u.x, u.y, width, height) {
        fb.update(cell_index(u.x as int, u.y as int, width as int), u.color)
    } else {
        fb
    }
}

/// The framebuffer after a sequence of updates, applied first to last.
pub open spec fn apply_all(fb: Seq<Rgba>, us: Seq<PendingUpdate>, width: u16, height: u16) -> Seq<Rgba>
    decreases us.len(),
{
    if us.len() == 0 {
        fb
    } else {
        apply_one(apply_all(fb, us.drop_last(), width, height), us.last(), width, height)
    }
}

/// The shared framebuffer: `width * height` cells, row after row, with
/// dimensions fixed when it is made.
pub struct Canvas {
    width: u16,
    height: u16,
    framebuffer: Vec<Rgba>,
}

impl View for Canvas {
    type V = Seq<Rgba>;

    closed spec fn view(&self) -> Seq<Rgba> {
        self.framebuffer@
    }
}

impl Canvas {
    pub closed spec fn spec_width(&self) -> u16 {
        self.width
    }

    pub closed spec fn spec_height(&self) -> u16 {
        self.height
    }

    /// The framebuffer holds exactly one cell per coordinate pair.
    pub open spec fn wf(&self) -> bool {
        self@.len() == self.spec_width() as int * self.spec_height() as int
    }

    /// The colour of cell `(x, y)` of an in-range coordinate pair.
    pub open spec fn cell(&self, x: u16, y: u16) -> Rgba {
        self@[cell_index(x as int, y as int, self.spec_width() as int)]
    }

    /// A blank canvas of the given dimensions.
    pub fn new(width: u16, height: u16) -> (c: Canvas)
        ensures
            c.wf(),
            c.spec_width() == width,
            c.spec_height() == height,
            forall|i: int| 0 <= i < c@.len() ==> c@[i] == blank(),
    {
        proof {
            lemma_area_fits(width, height);
        }
        let n: usize = width as usize * height as usize;
        let mut framebuffer: Vec<Rgba> = Vec::with_capacity(n);
        let mut i: usize = 0;
        while i < n
            invariant
                i <= n,
                n == width as int * height as int,
                framebuffer@.len() == i,
                forall|j: int| 0 <= j < i ==> framebuffer@[j] == blank(),
            decreases n - i,
        {
            framebuffer.push(Rgba { r: 0, g: 0, b: 0, a: 0 });
            i = i + 1;
        }
        Canvas { width, height, framebuffer }
    }

    pub fn width(&self) -> (w: u16)
        ensures
            w == self.spec_width(),
    {
        self.width
    }

    pub fn height(&self) -> (h: u16)
        ensures
            h == self.spec_height(),
    {
        self.height
    }

    /// The colour at `(x, y)`, or `None` where the pair lies off the canvas.
    pub fn pixel(&self, x: u16, y: u16) -> (r: Option<Rgba>)
        requires
            self.wf(),
        ensures
            r == (if in_bounds(x, y, self.spec_width(), self.spec_height()) {
                Some(self.cell(x, y))
            } else {
                None::<Rgba>
            }),
    {
        if x < self.width && y < self.height {
            proof {
                lemma_index_in_bounds(x, y, self.width, self.height);
            }
            Some(self.framebuffer[y as usize * self.width as usize + x as usize])
        } else {
            None
        }
    }

    /// Applies one update: an in-range one overwrites its cell, one off the
    /// canvas is dropped.
    pub fn apply_update(&mut self, u: PendingUpdate)
        requires
            old(self).wf(),
        ensures
            final(self).wf(),
            final(self).spec_width() == old(self).spec_width(),
            final(self).spec_height() == old(self).spec_height(),
            final(self)@ == apply_one(old(self)@, u, old(self).spec_width(), old(self).spec_height()),
    {
        if u.x < self.width && u.y < self.height {
            proof {
                lemma_index_in_bounds(u.x, u.y, self.width, self.height);
            }
            let i: usize = u.y as usize * self.width as usize + u.x as usize;
            self.framebuffer.set(i, u.color);
        }
    }

    /// Applies a batch of updates in order, dropping those off the canvas.
    pub fn apply_updates(&mut self, updates: &Vec<PendingUpdate>)
        requires
            old(self).wf(),
        ensures
            final(self).wf(),
            final(self).spec_width() == old(self).spec_width(),
            final(self).spec_height() == old(self).spec_height(),
            final(self)@ == apply_all(old(self)@, updates@, old(self).spec_width(), old(self).spec_height()),
    {
        let ghost start = self@;
        let mut i: usize = 0;
        while i < updates.len()
            invariant
                i <= updates@.len(),
                self.wf(),
                self.spec_width() == old(self).spec_width(),
                self.spec_height() == old(self).spec_height(),
                start == old(self)@,
                self@ == apply_all(start, updates@.subrange(0, i as int), self.spec_width(), self.spec_height()),
            decreases updates@.len() - i,
        {
            let u = updates[i];
            self.apply_update(u);
            proof {
                let s = updates@.subrange(0, i + 1);
                assert(s.drop_last() =~= updates@.subrange(0, i as int));
            }
            i = i + 1;
        }
        assert(updates@.subrange(0, updates@.len() as int) =~= updates@);
    }

    /// Drains the queue and applies what came out, in queue order. Returns
    /// the drained writes, off-canvas ones included.
    pub fn apply_pending(&mut self, queue: &UpdateQueue) -> (applied: Vec<PendingUpdate>)
        requires
            old(self).wf(),
        ensures
            final(self).wf(),
            final(self).spec_width() == old(self).spec_width(),
            final(self).spec_height() == old(self).spec_height(),
            final(self)@ == apply_all(old(self)@, applied@, old(self).spec_width(), old(self).spec_height()),
    {
        let applied = queue.drain();
        self.apply_updates(&applied);
        applied
    }

    /// The framebuffer as bytes, four per cell in RGBA order, row after row:
    /// the form a display surface copies.
    pub fn rgba_bytes(&self) -> (bytes: Vec<u8>)
        ensures
            bytes@.len() == 4 * self@.len(),
            forall|i: int|
                #![trigger self@[i]]
                0 <= i < self@.len() ==> bytes@[4 * i] == self@[i].r && bytes@[4 * i + 1] == self@[i].g
                    && bytes@[4 * i + 2] == self@[i].b && bytes@[4 * i + 3] == self@[i].a,
    {
        let mut bytes: Vec<u8> = Vec::new();
        let mut i: usize = 0;
        while i < self.framebuffer.len()
            invariant
                i <= self@.len(),
                bytes@.len() == 4 * i,
                forall|j: int|
                    #![trigger self@[j]]
                    0 <= j < i ==> bytes@[4 * j] == self@[j].r && bytes@[4 * j + 1] == self@[j].g
                        && bytes@[4 * j + 2] == self@[j].b && bytes@[4 * j + 3] == self@[j].a,
            decreases self@.len() - i,
        {
            let c = self.framebuffer[i];
            bytes.push(c.r);
            bytes.push(c.g);
            bytes.push(c.b);
            bytes.push(c.a);
            i = i + 1;
        }
        bytes
    }
}

/// Updates that all fall off the canvas leave every cell as it was.
pub proof fn lemma_out_of_range_updates_change_nothing(
    fb: Seq<Rgba>,
    us: Seq<PendingUpdate>,
    width: u16,
    height: u16,
)
    requires
        forall|i: int| 0 <= i < us.len() ==> !in_bounds(#[trigger] us[i].x, us[i].y, width, height),
    ensures
        apply_all(fb, us, width, height) == fb,
    decreases us.len(),
{
    if us.len() > 0 {
        let rest = us.drop_last();
        assert forall|i: int| 0 <= i < rest.len() implies !in_bounds(#[trigger] rest[i].x, rest[i].y, width, height) by {
            assert(rest[i] == us[i]);
        }
        lemma_out_of_range_updates_change_nothing(fb, rest, width, height);
        assert(!in_bounds(us[us.len() - 1].x, us[us.len() - 1].y, width, height));
    }
}

/// Of in-range updates to one cell, applied in order, the last one's colour
/// is what the cell holds afterwards.
pub proof fn lemma_last_write_wins(
    fb: Seq<Rgba>,
    us: Seq<PendingUpdate>,
    x: u16,
    y: u16,
    width: u16,
    height: u16,
)
    requires
        fb.len() == width as int * height as int,
        in_bounds(x, y, width, height),
        us.len() > 0,
        forall|i: int| 0 <= i < us.len() ==> #[trigger] us[i].x == x && us[i].y == y,
    ensures
        apply_all(fb, us, width, height)[cell_index(x as int, y as int, width as int)] == us.last().color,
{
    lemma_index_in_bounds(x, y, width, height);
    lemma_apply_all_len(fb, us.drop_last(), width, height);
    assert(us[us.len() - 1].x == x);
}

proof fn lemma_apply_all_len(fb: Seq<Rgba>, us: Seq<PendingUpdate>, width: u16, height: u16)
    requires
        fb.len() == width as int * height as int,
    ensures
        apply_all(fb, us, width, height).len() == fb.len(),
    decreases us.len(),
{
    if us.len() > 0 {
        lemma_apply_all_len(fb, us.drop_last(), width, height);
        let u = us.last();
        if in_bounds(u.x, u.y, width, height) {
            lemma_index_in_bounds(u.x, u.y, width, height);
        }
    }
}

proof fn lemma_area_fits(width: u16, height: u16)
    ensures
        (width as int) * (height as int) < 0x1_0000_0000,
{
    assert((width as int) * (height as int) <= 0xffff * 0xffff) by (nonlinear_arith)
        requires
            width <= 0xffff,
            height <= 0xffff,
    ;
}

proof fn lemma_index_in_bounds(x: u16, y: u16, width: u16, height: u16)
    requires
        x < width,
        y < height,
    ensures
        0 <= cell_index(x as int, y as int, width as int) < width as int * height as int,
        cell_index(x as int, y as int, width as int) == y as int * width as int + x as int,
        (y as int) * (width as int) + (x as int) < 0x1_0000_0000,
{
    assert((width as int) * (height as int) <= 0xffff * 0xffff) by (nonlinear_arith)
        requires
            width <= 0xffff,
            height <= 0xffff,
    ;
    assert((y as int) * (width as int) + (x as int) < (width as int) * (height as int)) by (nonlinear_arith)
        requires
            x < width,
            y < height,
    ;
    assert(0 <= (y as int) * (width as int)) by (nonlinear_arith)
        requires
            0 <= y,
            0 <= width,
    ;
}

} // verus!
