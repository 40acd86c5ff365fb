//! Double-buffered character-cell renderer.
//!
//! The renderer owns two equally sized grids of composed cell strings:
//! the back grid collects this frame's writes, the front grid records
//! what was last presented.  [`Renderer::present`] produces the complete
//! terminal output for the back grid — a cursor-home prefix and, for every
//! cell in row-major order, a positioning sequence followed by the cell's
//! content — and then promotes the back grid to the front grid.  Every
//! cell is re-emitted every frame; the output is returned as a string so
//! the embedding application can write and flush it to its own sink.

use crate::game_object::GameObject;
use vstd::prelude::*;
use vstd::string::StringExecFns;

verus! {

/// Relies on `String::push`: appends exactly the given character.
#[verifier::external_body]
fn push_char(s: &mut String, c: char)
    ensures
        final(s)@ == old(s)@.push(c),
{
    s.push(c);
}

/// The character for one decimal digit.
pub open spec fn digit_char(d: int) -> char {
    if d == 0 {
        '0'
    } else if d == 1 {
        '1'
    } else if d == 2 {
        '2'
    } else if d == 3 {
        '3'
    } else if d == 4 {
        '4'
    } else if d == 5 {
        '5'
    } else if d == 6 {
        '6'
    } else if d == 7 {
        '7'
    } else if d == 8 {
        '8'
    } else {
        '9'
    }
}

/// The decimal digits of `n`, most significant first.
pub open spec fn dec_digits(n: int) -> Seq<char>
    decreases n,
{
    if n < 10 {
        seq![digit_char(n)]
    } else {
        dec_digits(n / 10).push(digit_char(n % 10))
    }
}

/// The character for one decimal digit, executable form.
fn digit_to_char(d: usize) -> (r: char)
    requires
        d < 10,
    ensures
        r == digit_char(d as int),
{
    if d == 0 {
        '0'
    } else if d == 1 {
        '1'
    } else if d == 2 {
        '2'
    } else if d == 3 {
        '3'
    } else if d == 4 {
        '4'
    } else if d == 5 {
        '5'
    } else if d == 6 {
        '6'
    } else if d == 7 {
        '7'
    } else if d == 8 {
        '8'
    } else {
        '9'
    }
}

/// Appends the decimal rendering of `n` to `s`.
fn push_dec(s: &mut String, n: usize)
    ensures
        final(s)@ == old(s)@ + dec_digits(n as int),
{
    let mut digits: Vec<char> = Vec::new();
    let mut m: usize = n;
    while m >= 10
        invariant
            dec_digits(n as int) == dec_digits(m as int) + digits@.reverse(),
        decreases m,
    {
        let d = m % 10;
        digits.push(digit_to_char(d));
        proof {
            let prev = digits@.drop_last();
            assert(digits@.reverse() =~= seq![digit_char((m % 10) as int)] + prev.reverse());
            assert(dec_digits((m / 10) as int).push(digit_char((m % 10) as int)) + prev.reverse()
                =~= dec_digits((m / 10) as int) + digits@.reverse());
        }
        m = m / 10;
    }
    push_char(s, digit_to_char(m));
    proof {
        assert(old(s)@.push(digit_char(m as int)) =~= old(s)@ + seq![digit_char(m as int)]
            + digits@.reverse().take(0));
    }
    let k = digits.len();
    let mut i: usize = k;
    while i > 0
        invariant
            i <= k,
            k == digits@.len(),
            dec_digits(n as int) == dec_digits(m as int) + digits@.reverse(),
            m < 10,
            s@ == old(s)@ + seq![digit_char(m as int)] + digits@.reverse().take(k - i),
        decreases i,
    {
        i = i - 1;
        push_char(s, digits[i]);
        proof {
            assert(digits@.reverse().take(k - i) =~= digits@.reverse().take(
                k - i - 1,
            ).push(digits@[i as int]));
            assert(s@ =~= old(s)@ + seq![digit_char(m as int)] + digits@.reverse().take(k - i));
        }
    }
    proof {
        assert(digits@.reverse().take(k as int) =~= digits@.reverse());
        assert(old(s)@ + seq![digit_char(m as int)] + digits@.reverse() =~= old(s)@ + (seq![
            digit_char(m as int),
        ] + digits@.reverse()));
        assert(seq![digit_char(m as int)] + digits@.reverse() =~= dec_digits(m as int)
            + digits@.reverse());
    }
}

/// The fully composed display string for an object's cell: optional
/// foreground and background style prefixes, the display character, and
/// the terminal style reset.
pub open spec fn compose_cell(obj: GameObject) -> Seq<char> {
    (match obj.fg_color {
        Option::Some(fg) => fg@,
        Option::None => Seq::<char>::empty(),
    }) + (match obj.bg_color {
        Option::Some(bg) => bg@,
        Option::None => Seq::<char>::empty(),
    }) + seq![obj.character] + "\x1B[0m"@
}

/// A grid of `height` rows of `width` blank cells.
pub open spec fn blank_grid(width: nat, height: nat) -> Seq<Seq<Seq<char>>> {
    Seq::new(height, |y: int| Seq::new(width, |x: int| Seq::<char>::empty()))
}

/// The terminal text presenting one cell: a positioning sequence for its
/// one-based row and column, then the cell's content.
pub open spec fn cell_stamp(y: int, x: int, content: Seq<char>) -> Seq<char> {
    "\x1B["@ + dec_digits(y + 1) + ";"@ + dec_digits(x + 1) + "H"@ + content
}

/// The terminal text for the first `upto` cells of row `y`.
pub open spec fn row_stamp(y: int, row: Seq<Seq<char>>, upto: int) -> Seq<char>
    decreases upto,
{
    if upto <= 0 {
        Seq::<char>::empty()
    } else {
        row_stamp(y, row, upto - 1) + cell_stamp(y, upto - 1, row[upto - 1])
    }
}

/// The terminal text for the first `upto` rows of the grid.
pub open spec fn grid_stamp(grid: Seq<Seq<Seq<char>>>, upto: int) -> Seq<char>
    decreases upto,
{
    if upto <= 0 {
        Seq::<char>::empty()
    } else {
        grid_stamp(grid, upto - 1) + row_stamp(upto - 1, grid[upto - 1], grid[upto - 1].len() as int)
    }
}

/// The complete output of one presentation of `grid`: a cursor-home
/// sequence, then every cell in row-major order.
pub open spec fn present_output(grid: Seq<Seq<Seq<char>>>) -> Seq<char> {
    "\x1B[H"@ + grid_stamp(grid, grid.len() as int)
}

/// Terminal renderer with double buffering.
///
/// Both grids are `height` rows of `width` cells; the dimensions are
/// fixed at construction.
pub struct Renderer {
    /// Number of character columns
    pub width: usize,
    /// Number of character rows
    pub height: usize,
    /// What was last presented
    pub front_buffer: Vec<Vec<String>>,
    /// The frame being built
    pub back_buffer: Vec<Vec<String>>,
}

/// A `height`-rows-of-`width`-cells shape.
pub open spec fn grid_wf(buffer: Seq<Vec<String>>, width: nat, height: nat) -> bool {
    buffer.len() == height && forall|y: int| 0 <= y < height ==> buffer[y]@.len() == width
}

impl Renderer {
    /// Both buffers have the announced dimensions.
    pub open spec fn wf(self) -> bool {
        grid_wf(self.back_buffer@, self.width as nat, self.height as nat) && grid_wf(
            self.front_buffer@,
            self.width as nat,
            self.height as nat,
        )
    }

    /// The back grid's cell contents.
    pub open spec fn back(self) -> Seq<Seq<Seq<char>>> {
        Seq::new(
            self.back_buffer@.len(),
            |y: int| Seq::new(self.back_buffer@[y]@.len(), |x: int| self.back_buffer@[y]@[x]@),
        )
    }

    /// The front grid's cell contents.
    pub open spec fn front(self) -> Seq<Seq<Seq<char>>> {
        Seq::new(
            self.front_buffer@.len(),
            |y: int| Seq::new(self.front_buffer@[y]@.len(), |x: int| self.front_buffer@[y]@[x]@),
        )
    }

    /// Creates a renderer whose two grids hold `height` rows of `width`
    /// blank cells each.
    pub fn new(width: usize, height: usize) -> (r: Renderer)
        ensures
            r.width == width,
            r.height == height,
            r.wf(),
            r.back() == blank_grid(width as nat, height as nat),
            r.front() == blank_grid(width as nat, height as nat),
    {
        let front_buffer = blank_rows(width, height);
        let back_buffer = blank_rows(width, height);
        let r = Renderer { width, height, front_buffer, back_buffer };
        proof {
            assert forall|y: int| 0 <= y < height implies r.back()[y] =~= blank_grid(
                width as nat,
                height as nat,
            )[y] by {}
            assert(r.back() =~= blank_grid(width as nat, height as nat));
            assert forall|y: int| 0 <= y < height implies r.front()[y] =~= blank_grid(
                width as nat,
                height as nat,
            )[y] by {}
            assert(r.front() =~= blank_grid(width as nat, height as nat));
        }
        r
    }

    /// Current render width in columns.
    pub fn get_width(&self) -> (r: usize)
        ensures
            r == self.width,
    {
        self.width
    }

    /// Current render height in rows.
    pub fn get_height(&self) -> (r: usize)
        ensures
            r == self.height,
    {
        self.height
    }

    /// Resets every back-grid cell to blank; the front grid and the
    /// dimensions are untouched.
    pub fn clear_back_buffer(&mut self)
        ensures
            final(self).width == old(self).width,
            final(self).height == old(self).height,
            final(self).front_buffer == old(self).front_buffer,
            final(self).back() == blank_grid(old(self).width as nat, old(self).height as nat),
            old(self).wf() ==> final(self).wf(),
    {
        self.back_buffer = blank_rows(self.width, self.height);
        proof {
            assert forall|y: int| 0 <= y < self.height implies self.back()[y] =~= blank_grid(
                self.width as nat,
                self.height as nat,
            )[y] by {}
            assert(self.back() =~= blank_grid(self.width as nat, self.height as nat));
        }
    }

    /// Writes `obj`'s composed cell at `(x, y)` into the back grid.
    /// Coordinates outside the grid are a silent no-op: nothing errs,
    /// and no in-range cell changes.
    pub fn set_char(&mut self, x: usize, y: usize, obj: &GameObject)
        requires
            old(self).wf(),
        ensures
            final(self).wf(),
            final(self).width == old(self).width,
            final(self).height == old(self).height,
            final(self).front_buffer == old(self).front_buffer,
            x < old(self).width && y < old(self).height ==> final(self).back() == old(
                self,
            ).back().update(
                y as int,
                old(self).back()[y as int].update(x as int, compose_cell(*obj)),
            ),
            !(x < old(self).width && y < old(self).height) ==> *final(self) == *old(self),
    {
        if x < self.width && y < self.height {
            let mut cell = String::new();
            match &obj.fg_color {
                Option::Some(fg) => cell.append(fg.as_str()),
                Option::None => (),
            }
            match &obj.bg_color {
                Option::Some(bg) => cell.append(bg.as_str()),
                Option::None => (),
            }
            push_char(&mut cell, obj.character);
            cell.append("\x1B[0m");
            proof {
                assert(cell@ =~= compose_cell(*obj));
            }
            set_grid_cell(&mut self.back_buffer, x, y, cell);
            proof {
                let target = old(self).back().update(
                    y as int,
                    old(self).back()[y as int].update(x as int, compose_cell(*obj)),
                );
                assert forall|yy: int| 0 <= yy < self.back().len() implies self.back()[yy]
                    =~= target[yy] by {}
                assert(self.back() =~= target);
            }
        }
    }

    /// Presents the back grid: returns the full terminal output for it —
    /// cursor home, then every cell in row-major order as a positioning
    /// sequence plus content — and copies the back grid onto the front
    /// grid as the record of what was shown.  The caller writes the
    /// returned text to its sink and flushes it.
    pub fn present(&mut self) -> (out: String)
        requires
            old(self).wf(),
        ensures
            final(self).wf(),
            final(self).width == old(self).width,
            final(self).height == old(self).height,
            final(self).back_buffer == old(self).back_buffer,
            final(self).front() == old(self).back(),
            out@ == present_output(old(self).back()),
    {
        let mut out = String::new();
        out.append("\x1B[H");
        let mut front: Vec<Vec<String>> = Vec::new();
        let h = self.height;
        let w = self.width;
        let mut y: usize = 0;
        proof {
            assert(out@ =~= "\x1B[H"@ + grid_stamp(self.back(), 0));
        }
        while y < h
            invariant
                y <= h,
                w == self.width,
                h == self.height,
                *self == *old(self),
                self.wf(),
                out@ == "\x1B[H"@ + grid_stamp(self.back(), y as int),
                front@.len() == y,
                forall|yy: int| 0 <= yy < y ==> front@[yy]@.len() == w,
                forall|yy: int, x: int|
                    0 <= yy < y && 0 <= x < w ==> front@[yy]@[x]@ == self.back()[yy][x],
            decreases h - y,
        {
            let mut row: Vec<String> = Vec::new();
            let mut x: usize = 0;
            while x < w
                invariant
                    x <= w,
                    y < h,
                    w == self.width,
                    h == self.height,
                    *self == *old(self),
                    self.wf(),
                    out@ == "\x1B[H"@ + grid_stamp(self.back(), y as int) + row_stamp(
                        y as int,
                        self.back()[y as int],
                        x as int,
                    ),
                    row@.len() == x,
                    forall|xx: int| 0 <= xx < x ==> row@[xx]@ == self.back()[y as int][xx],
                decreases w - x,
            {
                let ghost out_pre = out@;
                out.append("\x1B[");
                push_dec(&mut out, y + 1);
                out.append(";");
                push_dec(&mut out, x + 1);
                out.append("H");
                out.append(self.back_buffer[y][x].as_str());
                row.push(self.back_buffer[y][x].clone());
                proof {
                    assert(out@ =~= out_pre + cell_stamp(
                        y as int,
                        x as int,
                        self.back()[y as int][x as int],
                    ));
                    assert(out@ =~= "\x1B[H"@ + grid_stamp(self.back(), y as int) + row_stamp(
                        y as int,
                        self.back()[y as int],
                        x + 1,
                    ));
                }
                x += 1;
            }
            front.push(row);
            proof {
                assert(row_stamp(y as int, self.back()[y as int], w as int) == row_stamp(
                    y as int,
                    self.back()[y as int],
                    self.back()[y as int].len() as int,
                ));
                assert(out@ =~= "\x1B[H"@ + grid_stamp(self.back(), y + 1));
            }
            y += 1;
        }
        self.front_buffer = front;
        proof {
            assert forall|yy: int| 0 <= yy < h implies self.front()[yy] =~= old(self).back()[yy] by {}
            assert(self.front() =~= old(self).back());
        }
        out
    }
}

/// Builds `height` rows of `width` empty strings.
fn blank_rows(width: usize, height: usize) -> (r: Vec<Vec<String>>)
    ensures
        grid_wf(r@, width as nat, height as nat),
        forall|y: int, x: int| 0 <= y < height && 0 <= x < width ==> r@[y]@[x]@ == Seq::<
            char,
        >::empty(),
{
    let mut rows: Vec<Vec<String>> = Vec::new();
    let mut y: usize = 0;
    while y < height
        invariant
            y <= height,
            rows@.len() == y,
            forall|yy: int| 0 <= yy < y ==> rows@[yy]@.len() == width,
            forall|yy: int, x: int| 0 <= yy < y && 0 <= x < width ==> rows@[yy]@[x]@ == Seq::<
                char,
            >::empty(),
        decreases height - y,
    {
        let mut row: Vec<String> = Vec::new();
        let mut x: usize = 0;
        while x < width
            invariant
                x <= width,
                row@.len() == x,
                forall|xx: int| 0 <= xx < x ==> row@[xx]@ == Seq::<char>::empty(),
            decreases width - x,
        {
            row.push(String::new());
            x += 1;
        }
        rows.push(row);
        y += 1;
    }
    rows
}

/// Replaces the cell at `(x, y)` of a grid of rows.
fn set_grid_cell(buffer: &mut Vec<Vec<String>>, x: usize, y: usize, cell: String)
    requires
        y < old(buffer)@.len(),
        x < old(buffer)@[y as int]@.len(),
    ensures
        final(buffer)@.len() == old(buffer)@.len(),
        forall|yy: int|
            0 <= yy < old(buffer)@.len() && yy != y ==> final(buffer)@[yy] == old(buffer)@[yy],
        final(buffer)@[y as int]@ == old(buffer)@[y as int]@.update(x as int, cell),
{
    let mut row = buffer.remove(y);
    let _ = row.remove(x);
    row.insert(x, cell);
    buffer.insert(y, row);
    proof {
        assert(buffer@[y as int]@ =~= old(buffer)@[y as int]@.update(x as int, cell));
    }
}

} // verus!
