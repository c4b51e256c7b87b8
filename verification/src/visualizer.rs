//! The bar graph: a grid of characters as wide and as high as the screen,
//! filled from a spectrum, and the order in which it is drawn.
//!
//! The grid is kept between frames. Its rows are resized when the screen
//! changes its size; they are never built anew. Row 0 is the lowest line of
//! the graph.

use crate::analyze_spectrum::{scale_fft_output, scaled};
use crate::ncurses_wrapper::Window;
use vstd::prelude::*;
use vstd::string::*;

verus! {

/// A cell of a bar: `|`.
pub const FILLED: u8 = 124;

/// A cell above a bar: a space.
pub const BLANK: u8 = 32;

/// A cell of a column for which the spectrum has no value: `X`.
pub const BEYOND: u8 = 88;

/// What a row is padded with when it grows: `#`.
pub const PAD: u8 = 35;

/// One decibel as a level. A bin below it gets a bar of height zero.
pub const ONE_DECIBEL: i32 = 1000;

/// The greatest of a run of levels and zero.
pub open spec fn max_level(s: Seq<i32>) -> int
    decreases s.len(),
{
    if s.len() == 0 {
        0
    } else if s.last() > max_level(s.drop_last()) {
        s.last() as int
    } else {
        max_level(s.drop_last())
    }
}

/// The least of a run of levels and zero.
pub open spec fn min_level(s: Seq<i32>) -> int
    decreases s.len(),
{
    if s.len() == 0 {
        0
    } else if s.last() < min_level(s.drop_last()) {
        s.last() as int
    } else {
        min_level(s.drop_last())
    }
}

/// `max_level` is an upper bound of the run and of zero, and it is zero or
/// one of the levels. `min_level` is the same from below.
pub proof fn lemma_min_max_level(s: Seq<i32>)
    ensures
        0 <= max_level(s) <= i32::MAX,
        i32::MIN <= min_level(s) <= 0,
        forall|i: int| 0 <= i < s.len() ==> min_level(s) <= #[trigger] s[i] <= max_level(s),
        max_level(s) == 0 || exists|i: int| 0 <= i < s.len() && s[i] == max_level(s),
        min_level(s) == 0 || exists|i: int| 0 <= i < s.len() && s[i] == min_level(s),
    decreases s.len(),
{
    if s.len() > 0 {
        let t = s.drop_last();
        lemma_min_max_level(t);
        assert forall|i: int| 0 <= i < s.len() implies min_level(s) <= #[trigger] s[i]
            <= max_level(s) by {
            if i < t.len() {
                assert(s[i] == t[i]);
            }
        }
        if max_level(s) != 0 {
            if s.last() > max_level(t) {
                assert(s[s.len() - 1] == max_level(s));
            } else {
                let i = choose|i: int| 0 <= i < t.len() && t[i] == max_level(t);
                assert(s[i] == max_level(s));
            }
        }
        if min_level(s) != 0 {
            if s.last() < min_level(t) {
                assert(s[s.len() - 1] == min_level(s));
            } else {
                let i = choose|i: int| 0 <= i < t.len() && t[i] == min_level(t);
                assert(s[i] == min_level(s));
            }
        }
    }
}

/// Loops through the levels and gets the least and the greatest of them,
/// neither on the far side of zero: the bars are anchored at zero.
pub fn get_min_max(data: &Vec<i32>) -> (r: (i32, i32))
    ensures
        r.0 == min_level(data@),
        r.1 == max_level(data@),
{
    let mut min: i32 = 0;
    let mut max: i32 = 0;
    let mut i: usize = 0;
    while i < data.len()
        invariant
            i <= data.len(),
            min == min_level(data@.subrange(0, i as int)),
            max == max_level(data@.subrange(0, i as int)),
        decreases data.len() - i,
    {
        assert(data@.subrange(0, i + 1).drop_last() =~= data@.subrange(0, i as int));
        let x: i32 = data[i];
        if x < min {
            min = x;
        }
        if x > max {
            max = x;
        }
        i = i + 1;
    }
    assert(data@.subrange(0, data.len() as int) =~= data@);
    (min, max)
}

/// The height of the bar of one bin, in rows above the lowest: the share
/// that the level has of the greatest level, of the rows above the lowest,
/// rounded down. A level under one decibel gives no height.
pub open spec fn bar_height(level: i32, max: int, rows: nat) -> nat {
    if level < ONE_DECIBEL || rows == 0 {
        0
    } else {
        ((level as int) * (rows - 1) / max) as nat
    }
}

/// The heights of the bars of a spectrum on a screen of `rows` rows.
pub open spec fn bar_heights(levels: Seq<i32>, rows: nat) -> Seq<nat> {
    Seq::new(levels.len(), |x: int| bar_height(levels[x], max_level(levels), rows))
}

/// The character of column `x` in row `y`, row 0 being the lowest.
pub open spec fn glyph(bars: Seq<nat>, x: int, y: int) -> u8 {
    if x >= bars.len() {
        BEYOND
    } else if bars[x] >= y {
        FILLED
    } else {
        BLANK
    }
}

/// The grid of a frame.
pub open spec fn frame_grid(bars: Seq<nat>, width: nat, height: nat) -> Seq<Seq<u8>> {
    Seq::new(height, |y: int| Seq::new(width, |x: int| glyph(bars, x, y)))
}

/// A row cut or padded to a width.
pub open spec fn resized_row(row: Seq<u8>, width: nat) -> Seq<u8> {
    if width <= row.len() {
        row.subrange(0, width as int)
    } else {
        row + Seq::new((width - row.len()) as nat, |i: int| PAD)
    }
}

/// A grid cut or extended to a height, and each of its rows to a width.
pub open spec fn resized_grid(grid: Seq<Seq<u8>>, height: nat, width: nat) -> Seq<Seq<u8>> {
    Seq::new(
        height,
        |y: int|
            if y < grid.len() {
                resized_row(grid[y], width)
            } else {
                resized_row(Seq::<u8>::empty(), width)
            },
    )
}

/// The columns that a screen of `max_x` columns leaves to the graph: all but
/// the last.
pub open spec fn columns(max_x: int) -> nat {
    if max_x <= 0 {
        0
    } else {
        (max_x - 1) as nat
    }
}

/// Resize the row buffer to width.
pub fn resize_rowbuf(row: &mut Vec<u8>, width: usize)
    ensures
        final(row)@ == resized_row(old(row)@, width as nat),
{
    while row.len() < width
        invariant
            old(row)@.len() <= row@.len() <= width || (row@ == old(row)@),
            row@.len() >= old(row)@.len(),
            row@.subrange(0, old(row)@.len() as int) == old(row)@,
            forall|i: int| old(row)@.len() <= i < row@.len() ==> row@[i] == PAD,
        decreases width - row.len(),
    {
        let ghost before = row@;
        row.push(PAD);
        assert(row@.subrange(0, old(row)@.len() as int) =~= before.subrange(
            0,
            old(row)@.len() as int,
        ));
    }
    while row.len() > width
        invariant
            row@.len() <= old(row)@.len() || row@.len() <= width,
            row@.len() >= width || row@ == resized_row(old(row)@, width as nat),
            row@.len() > width ==> row@ == old(row)@.subrange(0, row@.len() as int),
            row@.len() == width ==> row@ == resized_row(old(row)@, width as nat),
        decreases row.len(),
    {
        let ghost before = row@;
        let _ = row.pop();
        assert(row@ =~= before.subrange(0, row@.len() as int));
        assert(row@ =~= old(row)@.subrange(0, row@.len() as int));
    }
    assert(row@ =~= resized_row(old(row)@, width as nat));
}

/// What the rows of a grid hold.
pub open spec fn grid_of(rows: Seq<Vec<u8>>) -> Seq<Seq<u8>> {
    Seq::new(rows.len(), |y: int| rows[y]@)
}

/// One step of drawing a frame.
#[derive(Clone, Copy, Debug, PartialEq, Eq, Structural)]
pub enum DrawCommand {
    /// Write row `row` of the grid at line `y`, from column `x` on.
    AddBytes { y: i32, x: i32, row: usize },
    /// Write the caption at line `y`, from column `x` on.
    AddStr { y: i32, x: i32 },
    /// Make what was written show.
    Refresh,
}

/// What follows a step of drawing, given its status code.
#[derive(Clone, Copy, Debug, PartialEq, Eq, Structural)]
pub enum Drawn {
    /// Go on with the next step.
    Next,
    /// Leave the rest of the frame out. The frame has not failed.
    SkipFrame,
    /// The frame has failed with this code.
    Failed(i32),
}

/// What follows a step of drawing. A row that cannot be written (the
/// screen was resized under the frame) ends the frame, without failing it. The
/// caption is written for what it is worth. Only a refresh that fails makes the
/// frame fail.
pub open spec fn outcome(command: DrawCommand, status: i32) -> Drawn {
    match command {
        DrawCommand::AddBytes { .. } => if status < 0 {
            Drawn::SkipFrame
        } else {
            Drawn::Next
        },
        DrawCommand::AddStr { .. } => Drawn::Next,
        DrawCommand::Refresh => if status < 0 {
            Drawn::Failed(status)
        } else {
            Drawn::Next
        },
    }
}

/// Decides what follows a step of drawing from the status code that the
/// drawing primitive gave.
pub fn after_command(command: DrawCommand, status: i32) -> (r: Drawn)
    ensures
        r == outcome(command, status),
{
    match command {
        DrawCommand::AddBytes { .. } => {
            if status < 0 {
                Drawn::SkipFrame
            } else {
                Drawn::Next
            }
        },
        DrawCommand::AddStr { .. } => Drawn::Next,
        DrawCommand::Refresh => {
            if status < 0 {
                Drawn::Failed(status)
            } else {
                Drawn::Next
            }
        },
    }
}

/// The text of one decimal digit.
pub open spec fn digit_text(d: int) -> Seq<char> {
    if d == 0 {
        "0"@
    } else if d == 1 {
        "1"@
    } else if d == 2 {
        "2"@
    } else if d == 3 {
        "3"@
    } else if d == 4 {
        "4"@
    } else if d == 5 {
        "5"@
    } else if d == 6 {
        "6"@
    } else if d == 7 {
        "7"@
    } else if d == 8 {
        "8"@
    } else {
        "9"@
    }
}

/// A number written in decimal digits.
pub open spec fn decimal(n: nat) -> Seq<char>
    decreases n,
{
    if n < 10 {
        digit_text(n as int)
    } else {
        decimal(n / 10) + digit_text((n % 10) as int)
    }
}

/// The caption of a frame: the size of the graph and the number of bars.
pub open spec fn caption_text(width: nat, height: nat, bars: nat) -> Seq<char> {
    " width: "@ + decimal(width) + ", height: "@ + decimal(height) + ", bars: "@ + decimal(bars)
        + " "@
}

/// The steps of drawing a frame, in order: the rows from the lowest to the
/// highest, each on its line of the screen, then the caption in the upper
/// right corner where the line has room for it, then the refresh.
pub open spec fn frame_commands(height: nat, width: nat, caption_len: nat) -> Seq<DrawCommand> {
    Seq::new(
        height,
        |k: int| DrawCommand::AddBytes { y: (height - 1 - k) as i32, x: 0, row: k as usize },
    ) + (if caption_len <= width {
        seq![DrawCommand::AddStr { y: 0, x: (width - caption_len) as i32 }]
    } else {
        Seq::<DrawCommand>::empty()
    }) + seq![DrawCommand::Refresh]
}

fn digit_str(d: usize) -> (s: &'static str)
    requires
        d < 10,
    ensures
        s@ == digit_text(d as int),
{
    if d == 0 {
        "0"
    } else if d == 1 {
        "1"
    } else if d == 2 {
        "2"
    } else if d == 3 {
        "3"
    } else if d == 4 {
        "4"
    } else if d == 5 {
        "5"
    } else if d == 6 {
        "6"
    } else if d == 7 {
        "7"
    } else if d == 8 {
        "8"
    } else {
        "9"
    }
}

fn push_decimal(text: &mut String, n: usize)
    ensures
        final(text)@ == old(text)@ + decimal(n as nat),
    decreases n,
{
    if n >= 10 {
        push_decimal(text, n / 10);
    }
    text.append(digit_str(n % 10));
    assert(text@ =~= old(text)@ + decimal(n as nat));
}

fn bar_height_of(level: i32, max: i32, rows: usize) -> (h: usize)
    requires
        level <= max,
    ensures
        h == bar_height(level, max as int, rows as nat),
        h < rows || (rows == 0 && h == 0),
{
    if level < ONE_DECIBEL || rows == 0 {
        0
    } else {
        let scale: u128 = (rows - 1) as u128;
        let l: u128 = level as u128;
        let m: u128 = max as u128;
        assert(l * scale <= 0x7fff_ffff * 0xffff_ffff_ffff_ffff && (l * scale) / (m as int)
            <= scale) by (nonlinear_arith)
            requires
                0 < l <= m <= 0x7fff_ffff,
                0 <= scale <= 0xffff_ffff_ffff_ffff,
        ;
        let q: u128 = (l * scale) / m;
        q as usize
    }
}

/// The bar graph, as large as the screen was when a frame was last rendered.
pub struct Visualizer {
    /// The characters of each row, the lowest row first.
    rows: Vec<Vec<u8>>,
    /// The width of the graph when a frame was last rendered.
    width: usize,
    /// The height of the graph when a frame was last rendered.
    height: usize,
    /// The number of bars of the last frame.
    bars: usize,
}

impl Visualizer {
    /// The characters of the grid, the lowest row first.
    pub closed spec fn grid(&self) -> Seq<Seq<u8>> {
        grid_of(self.rows@)
    }

    /// The width of the grid in columns.
    pub closed spec fn cols(&self) -> nat {
        self.width as nat
    }

    /// The height of the grid in rows.
    pub closed spec fn lines(&self) -> nat {
        self.height as nat
    }

    /// The number of bars of the last frame.
    pub closed spec fn bar_count(&self) -> nat {
        self.bars as nat
    }

    /// The grid has `lines()` rows of `cols()` characters, and both fit a
    /// screen coordinate.
    pub closed spec fn wf(&self) -> bool {
        &&& self.rows@.len() == self.height
        &&& forall|y: int| 0 <= y < self.rows@.len() ==> (#[trigger] self.rows@[y])@.len() == self.width
        &&& self.width <= i32::MAX
        &&& self.height <= i32::MAX
    }

    /// What `wf` says, over the grid.
    pub proof fn lemma_wf_grid(&self)
        requires
            self.wf(),
        ensures
            self.grid().len() == self.lines(),
            forall|y: int| 0 <= y < self.lines() ==> (#[trigger] self.grid()[y]).len() == self.cols(),
            self.cols() <= i32::MAX,
            self.lines() <= i32::MAX,
    {
    }

    /// Instantiate a new visualizer, with an empty grid.
    pub fn new() -> (v: Visualizer)
        ensures
            v.wf(),
            v.grid() == Seq::<Seq<u8>>::empty(),
            v.cols() == 0,
            v.lines() == 0,
            v.bar_count() == 0,
    {
        let v = Visualizer { rows: Vec::new(), width: 0, height: 0, bars: 0 };
        assert(v.grid() =~= Seq::<Seq<u8>>::empty());
        v
    }

    /// Get the width of the screen in columns that the graph can use: all
    /// but the last. Callers can use this to determine the least amount of
    /// data that fills the screen. Where the size query failed, its code is
    /// the error.
    pub fn get_width(&self, win: &Window) -> (r: Result<usize, i32>)
        ensures
            r == if win.max_x < 0 {
                Err::<usize, i32>(win.max_x)
            } else {
                Ok::<usize, i32>(columns(win.max_x as int) as usize)
            },
    {
        match win.get_max_x() {
            Err(e) => Err(e),
            Ok(x) => {
                if x == 0 {
                    Ok(0)
                } else {
                    Ok((x - 1) as usize)
                }
            },
        }
    }

    /// The height of the grid in rows.
    pub fn get_height(&self) -> (h: usize)
        ensures
            h == self.lines(),
    {
        self.height
    }

    /// The width of the grid in columns.
    pub fn get_cols(&self) -> (w: usize)
        ensures
            w == self.cols(),
    {
        self.width
    }

    /// The number of bars of the last frame.
    pub fn get_bars(&self) -> (n: usize)
        ensures
            n == self.bar_count(),
    {
        self.bars
    }

    /// The characters of row `y`, row 0 being the lowest.
    pub fn get_row(&self, y: usize) -> (row: &Vec<u8>)
        requires
            y < self.grid().len(),
        ensures
            row@ == self.grid()[y as int],
    {
        &self.rows[y]
    }

    /// Adds or removes rows if the window size is changed. New rows are
    /// empty.
    fn update_row_count(&mut self, height: usize)
        ensures
            final(self).rows@.len() == height,
            forall|y: int|
                0 <= y < height ==> (#[trigger] final(self).rows@[y])@ == if y < old(
                    self,
                ).rows@.len() {
                    old(self).rows@[y]@
                } else {
                    Seq::<u8>::empty()
                },
            final(self).width == old(self).width,
            final(self).height == old(self).height,
            final(self).bars == old(self).bars,
    {
        while self.rows.len() < height
            invariant
                self.rows@.len() >= old(self).rows@.len(),
                self.rows@.len() <= height || self.rows@ == old(self).rows@,
                forall|y: int|
                    0 <= y < self.rows@.len() ==> (#[trigger] self.rows@[y])@ == if y < old(
                        self,
                    ).rows@.len() {
                        old(self).rows@[y]@
                    } else {
                        Seq::<u8>::empty()
                    },
                self.width == old(self).width,
                self.height == old(self).height,
                self.bars == old(self).bars,
            decreases height - self.rows.len(),
        {
            self.rows.push(Vec::new());
        }
        while self.rows.len() > height
            invariant
                self.rows@.len() >= height || self.rows@.len() >= old(self).rows@.len(),
                self.rows@.len() <= height ==> self.rows@.len() == height,
                forall|y: int|
                    0 <= y < self.rows@.len() ==> (#[trigger] self.rows@[y])@ == if y < old(
                        self,
                    ).rows@.len() {
                        old(self).rows@[y]@
                    } else {
                        Seq::<u8>::empty()
                    },
                self.width == old(self).width,
                self.height == old(self).height,
                self.bars == old(self).bars,
            decreases self.rows.len(),
        {
            let _ = self.rows.pop();
        }
    }

    /// Resizes each of the row buffers to the given width.
    fn resize_rowbufs(&mut self, width: usize)
        ensures
            final(self).rows@.len() == old(self).rows@.len(),
            forall|y: int|
                0 <= y < old(self).rows@.len() ==> (#[trigger] final(self).rows@[y])@
                    == resized_row(old(self).rows@[y]@, width as nat),
            final(self).width == old(self).width,
            final(self).height == old(self).height,
            final(self).bars == old(self).bars,
    {
        let mut y: usize = 0;
        while y < self.rows.len()
            invariant
                y <= self.rows@.len(),
                self.rows@.len() == old(self).rows@.len(),
                forall|k: int|
                    0 <= k < y ==> (#[trigger] self.rows@[k])@ == resized_row(
                        old(self).rows@[k]@,
                        width as nat,
                    ),
                forall|k: int|
                    y <= k < self.rows@.len() ==> (#[trigger] self.rows@[k])@ == old(
                        self,
                    ).rows@[k]@,
                self.width == old(self).width,
                self.height == old(self).height,
                self.bars == old(self).bars,
            decreases self.rows.len() - y,
        {
            resize_rowbuf(&mut self.rows[y], width);
            y = y + 1;
        }
    }

    /// Do any necessary adjustments for a window size change: the grid gets
    /// the rows and, but for the last, the columns of the screen. Rows and
    /// columns that stay keep what they hold. Where a size query failed, its
    /// code is the error and nothing changes.
    pub fn update_size(&mut self, win: &Window) -> (r: Result<(), i32>)
        requires
            old(self).wf(),
        ensures
            final(self).wf(),
            final(self).bar_count() == old(self).bar_count(),
            match win.max_yx() {
                Err(e) => r == Err::<(), i32>(e) && final(self).grid() == old(self).grid()
                    && final(self).cols() == old(self).cols() && final(self).lines() == old(
                    self,
                ).lines(),
                Ok((max_y, max_x)) => {
                    &&& r == Ok::<(), i32>(())
                    &&& final(self).lines() == max_y
                    &&& final(self).cols() == columns(max_x as int)
                    &&& final(self).grid() == resized_grid(
                        old(self).grid(),
                        max_y as nat,
                        columns(max_x as int),
                    )
                },
            },
    {
        let (max_y, max_x) = match win.get_max_yx() {
            Ok(yx) => yx,
            Err(e) => {
                return Err(e);
            },
        };
        let height: usize = max_y as usize;
        let width: usize = if max_x == 0 {
            0
        } else {
            (max_x - 1) as usize
        };
        if self.width != width || self.height != height {
            self.update_row_count(height);
            self.resize_rowbufs(width);
            self.width = width;
            self.height = height;
        }
        assert(self.grid() =~~= resized_grid(old(self).grid(), max_y as nat, columns(max_x as int)));
        Ok(())
    }

    /// The caption of the last frame: the size of the graph and the number
    /// of bars.
    pub fn caption(&self) -> (text: String)
        ensures
            text@ == caption_text(self.cols(), self.lines(), self.bar_count()),
    {
        let mut text: String = String::new();
        text.append(" width: ");
        push_decimal(&mut text, self.width);
        text.append(", height: ");
        push_decimal(&mut text, self.height);
        text.append(", bars: ");
        push_decimal(&mut text, self.bars);
        text.append(" ");
        assert(text@ =~= caption_text(self.cols(), self.lines(), self.bar_count()));
        text
    }

    /// The steps of drawing the grid as it stands, in order.
    pub fn draw_commands(&self) -> (commands: Vec<DrawCommand>)
        requires
            self.wf(),
        ensures
            commands@ == frame_commands(
                self.lines(),
                self.cols(),
                caption_text(self.cols(), self.lines(), self.bar_count()).len(),
            ),
    {
        let mut commands: Vec<DrawCommand> = Vec::new();
        let mut k: usize = 0;
        while k < self.height
            invariant
                self.wf(),
                k <= self.height,
                commands@.len() == k,
                forall|j: int|
                    0 <= j < k ==> commands@[j] == (DrawCommand::AddBytes {
                        y: (self.height - 1 - j) as i32,
                        x: 0,
                        row: j as usize,
                    }),
            decreases self.height - k,
        {
            commands.push(DrawCommand::AddBytes { y: (self.height - 1 - k) as i32, x: 0, row: k });
            k = k + 1;
        }
        let text = self.caption();
        let len: usize = text.as_str().unicode_len();
        if len <= self.width {
            commands.push(DrawCommand::AddStr { y: 0, x: (self.width - len) as i32 });
        }
        commands.push(DrawCommand::Refresh);
        assert(commands@ =~= frame_commands(
            self.lines(),
            self.cols(),
            caption_text(self.cols(), self.lines(), self.bar_count()).len(),
        ));
        commands
    }

    /// Render a single frame of the animation into the grid, and give the
    /// steps of drawing it.
    ///
    /// The grid is first brought to the size of the screen. The spectrum is
    /// scaled down to the width of the grid, each value gives a bar, and
    /// every cell of the grid is set: to `FILLED` where the bar of its
    /// column reaches its row, to `BLANK` above the bar, to `BEYOND` in a
    /// column for which the spectrum has no value. Where a size query
    /// failed, its code is the error and nothing changes.
    pub fn render_frame(&mut self, win: &Window, data: &Vec<i32>) -> (r: Result<
        Vec<DrawCommand>,
        i32,
    >)
        requires
            old(self).wf(),
        ensures
            final(self).wf(),
            match win.max_yx() {
                Err(e) => r == Err::<Vec<DrawCommand>, i32>(e) && final(self).grid() == old(
                    self,
                ).grid() && final(self).cols() == old(self).cols() && final(self).lines() == old(
                    self,
                ).lines() && final(self).bar_count() == old(self).bar_count(),
                Ok((max_y, max_x)) => {
                    let width = columns(max_x as int);
                    let height = max_y as nat;
                    let levels = scaled(data@, width);
                    &&& final(self).lines() == height
                    &&& final(self).cols() == width
                    &&& final(self).bar_count() == levels.len()
                    &&& final(self).grid() == frame_grid(bar_heights(levels, height), width, height)
                    &&& r matches Ok(commands)
                    &&& commands@ == frame_commands(
                        height,
                        width,
                        caption_text(width, height, levels.len()).len(),
                    )
                },
            },
    {
        match self.update_size(win) {
            Err(e) => {
                return Err(e);
            },
            Ok(_) => {},
        }
        let levels: Vec<i32> = scale_fft_output(data, self.width);
        let (_, max_val) = get_min_max(&levels);
        proof {
            lemma_min_max_level(levels@);
        }
        let mut bars: Vec<usize> = Vec::with_capacity(levels.len());
        let mut x: usize = 0;
        while x < levels.len()
            invariant
                x <= levels.len(),
                bars@.len() == x,
                max_val == max_level(levels@),
                forall|i: int| 0 <= i < levels@.len() ==> #[trigger] levels@[i] <= max_val,
                forall|i: int|
                    0 <= i < x ==> bars@[i] == bar_height(
                        levels@[i],
                        max_val as int,
                        self.height as nat,
                    ),
            decreases levels.len() - x,
        {
            let h: usize = bar_height_of(levels[x], max_val, self.height);
            bars.push(h);
            x = x + 1;
        }
        let ghost heights = bar_heights(levels@, self.height as nat);
        assert(heights.len() == bars@.len());
        assert(forall|i: int| 0 <= i < bars@.len() ==> bars@[i] == heights[i]);
        let mut y: usize = 0;
        while y < self.rows.len()
            invariant
                self.wf(),
                y <= self.rows@.len(),
                self.rows@.len() == self.height,
                heights.len() == bars@.len(),
                forall|i: int| 0 <= i < bars@.len() ==> bars@[i] == heights[i],
                self.width == final_width(win),
                self.height == final_height(win),
                self.bars == old(self).bars,
                forall|k: int|
                    0 <= k < y ==> (#[trigger] self.rows@[k])@ == Seq::new(
                        self.width as nat,
                        |c: int| glyph(heights, c, k),
                    ),
            decreases self.rows.len() - y,
        {
            let mut c: usize = 0;
            while c < self.width
                invariant
                    y < self.rows@.len(),
                    self.rows@.len() == self.height,
                    c <= self.width,
                    self.width <= i32::MAX,
                    self.height <= i32::MAX,
                    heights.len() == bars@.len(),
                    forall|i: int| 0 <= i < bars@.len() ==> bars@[i] == heights[i],
                    self.width == final_width(win),
                    self.height == final_height(win),
                    self.bars == old(self).bars,
                    forall|k: int|
                        0 <= k < self.rows@.len() ==> (#[trigger] self.rows@[k])@.len()
                            == self.width,
                    forall|k: int|
                        0 <= k < y ==> (#[trigger] self.rows@[k])@ == Seq::new(
                            self.width as nat,
                            |j: int| glyph(heights, j, k),
                        ),
                    forall|j: int|
                        0 <= j < c ==> self.rows@[y as int]@[j] == glyph(heights, j, y as int),
                decreases self.width - c,
            {
                let ch: u8 = if c >= bars.len() {
                    BEYOND
                } else if bars[c] >= y {
                    FILLED
                } else {
                    BLANK
                };
                self.rows[y][c] = ch;
                c = c + 1;
            }
            assert(self.rows@[y as int]@ =~= Seq::new(
                self.width as nat,
                |j: int| glyph(heights, j, y as int),
            ));
            y = y + 1;
        }
        self.bars = bars.len();
        assert(self.grid() =~~= frame_grid(heights, self.width as nat, self.height as nat));
        let commands = self.draw_commands();
        Ok(commands)
    }
}

/// The width that a grid has after it was brought to the size of a screen.
pub open spec fn final_width(win: &Window) -> nat {
    columns(win.max_x as int)
}

/// The height that a grid has after it was brought to the size of a screen.
pub open spec fn final_height(win: &Window) -> nat {
    if win.max_y < 0 {
        0
    } else {
        win.max_y as nat
    }
}

} // verus!
