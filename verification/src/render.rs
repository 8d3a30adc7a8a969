//! Rendering a frame as lines of glyphs.

use vstd::prelude::*;
use crate::config::Configuration;
use vstd::arithmetic::div_mod::{lemma_div_pos_is_pos, lemma_fundamental_div_mod, lemma_mod_bound};
use crate::frame::{
    channel, channel_is_zero, grid_height, is_black, lemma_cell_in_grid, target_height, Frame,
    Grid, Pixel,
};
use crate::resample::{luma_of, luma_plane, resample, scalable, MAX_DIMENSION};
use crate::text::{color_escape, push_color_escape, push_reset_escape, reset_escape};
use crate::tone::{
    glyph_index, glyph_position, lemma_extremes, lemma_inversion_mirrors, lemma_position_in_ramp,
    level_of, Sample, LEVEL_MAX,
};

verus! {

/// The glyph ramp, darkest first.
pub open spec fn glyph_ramp() -> Seq<char> {
    seq![' ', '.', ':', '-', '=', '+', '*', '#', '%', '@']
}

/// The glyph ramp as a value.
pub fn standard_ramp() -> (ramp: Vec<char>)
    ensures
        ramp@ == glyph_ramp(),
{
    let ramp = vec![' ', '.', ':', '-', '=', '+', '*', '#', '%', '@'];
    assert(ramp@ =~= glyph_ramp());
    ramp
}

/// What is sampled from a pixel: its colour in colour mode, else its luma.
pub open spec fn sample_of(p: Pixel, color: bool) -> Sample {
    if color {
        Sample::Rgb { r: p.r, g: p.g, b: p.b }
    } else {
        Sample::Luma { value: luma_of(p) }
    }
}

/// The glyph that stands for a sample.
pub open spec fn glyph_of(sample: Sample, config: Configuration, ramp: Seq<char>) -> char {
    ramp[glyph_position(level_of(sample), config.contrast, config.invert, ramp.len() as int)]
}

/// The text of one cell: the glyph, after its colour sequence for a colour sample.
pub open spec fn cell_text(sample: Sample, config: Configuration, ramp: Seq<char>) -> Seq<char> {
    match sample {
        Sample::Rgb { r, g, b } => color_escape(r, g, b).push(glyph_of(sample, config, ramp)),
        Sample::Luma { value } => seq![glyph_of(sample, config, ramp)],
    }
}

/// The text of the first `count` cells of row `row`.
pub open spec fn cells_text(grid: Grid, row: int, count: int, config: Configuration, ramp: Seq<char>) -> Seq<char>
    decreases count,
{
    if count <= 0 {
        Seq::empty()
    } else {
        cells_text(grid, row, count - 1, config, ramp) + cell_text(
            sample_of(grid.pixel(count - 1, row), config.color),
            config,
            ramp,
        )
    }
}

/// What ends a line: a newline, after a colour reset in colour mode.
pub open spec fn line_end(color: bool) -> Seq<char> {
    if color {
        reset_escape().push('\n')
    } else {
        seq!['\n']
    }
}

/// The text of the first `count` rows, each with its line end.
pub open spec fn lines_text(grid: Grid, count: int, config: Configuration, ramp: Seq<char>) -> Seq<char>
    decreases count,
{
    if count <= 0 {
        Seq::empty()
    } else {
        lines_text(grid, count - 1, config, ramp) + cells_text(
            grid,
            count - 1,
            grid.width as int,
            config,
            ramp,
        ) + line_end(config.color)
    }
}

/// The text of a whole grid: every row from the top, every cell from the left.
pub open spec fn rendered_text(grid: Grid, config: Configuration, ramp: Seq<char>) -> Seq<char> {
    lines_text(grid, grid.height as int, config, ramp)
}

/// Appends the text of one cell.
pub fn push_cell(out: &mut String, sample: Sample, config: &Configuration, ramp: &[char])
    requires
        config.wf(),
        ramp@.len() >= 1,
    ensures
        final(out)@ == old(out)@ + cell_text(sample, *config, ramp@),
{
    let index = glyph_index(sample.level(), config.contrast, config.invert, ramp.len());
    let glyph = ramp[index];
    match sample {
        Sample::Rgb { r, g, b } => {
            push_color_escape(out, r, g, b);
        },
        Sample::Luma { value } => {},
    }
    out.push(glyph);
    assert(out@ =~= old(out)@ + cell_text(sample, *config, ramp@));
}

/// Renders a grid that already has one pixel for every character cell.
pub fn render_grid(grid: &Frame, config: &Configuration, ramp: &[char]) -> (text: String)
    requires
        grid.wf(),
        config.wf(),
        ramp@.len() >= 1,
    ensures
        text@ == rendered_text(grid@, *config, ramp@),
{
    let plane: Vec<u8> = if config.color || grid.width == 0 {
        Vec::new()
    } else {
        luma_plane(grid)
    };
    let mut text = String::new();
    let mut y: u32 = 0;
    while y < grid.height
        invariant
            y <= grid.height,
            grid.wf(),
            config.wf(),
            ramp@.len() >= 1,
            !config.color && grid.width > 0 ==> plane@.len() == grid@.pixels.len(),
            !config.color && grid.width > 0 ==> forall|i: int|
                0 <= i < plane@.len() ==> plane@[i] == luma_of(#[trigger] grid@.pixels[i]),
            text@ == lines_text(grid@, y as int, *config, ramp@),
        decreases grid.height - y,
    {
        let ghost above = text@;
        let mut x: u32 = 0;
        while x < grid.width
            invariant
                x <= grid.width,
                y < grid.height,
                grid.wf(),
                config.wf(),
                ramp@.len() >= 1,
                !config.color && grid.width > 0 ==> plane@.len() == grid@.pixels.len(),
                !config.color && grid.width > 0 ==> forall|i: int|
                    0 <= i < plane@.len() ==> plane@[i] == luma_of(#[trigger] grid@.pixels[i]),
                text@ == above + cells_text(grid@, y as int, x as int, *config, ramp@),
            decreases grid.width - x,
        {
            proof {
                lemma_cell_in_grid(x as int, y as int, grid.width as int, grid.height as int);
                grid.lemma_view_wf();
            }
            let sample = if config.color {
                let p = grid.pixel(x, y);
                Sample::Rgb { r: p.r, g: p.g, b: p.b }
            } else {
                let cells: usize = plane.len();
                assert(y * grid.width + x < cells);
                let cell: usize = y as usize * grid.width as usize + x as usize;
                Sample::Luma { value: plane[cell] }
            };
            assert(sample == sample_of(grid@.pixel(x as int, y as int), config.color));
            push_cell(&mut text, sample, config, ramp);
            x = x + 1;
            assert(text@ =~= above + cells_text(grid@, y as int, x as int, *config, ramp@));
        }
        if config.color {
            push_reset_escape(&mut text);
        }
        text.push('\n');
        y = y + 1;
        assert(text@ =~= lines_text(grid@, y as int, *config, ramp@));
    }
    text
}

/// Where the glyph of column `x` of row `y` stands in the plain text of a
/// grid `width` columns wide: every row takes `width` glyphs and a newline.
pub open spec fn plain_offset(width: int, x: int, y: int) -> int {
    y * (width + 1) + x
}

/// Without colour, the first `count` cells of a row are `count` characters,
/// the glyph of each cell in turn.
pub proof fn lemma_plain_cells(grid: Grid, row: int, count: int, config: Configuration, ramp: Seq<char>)
    requires
        !config.color,
        0 <= count,
    ensures
        cells_text(grid, row, count, config, ramp).len() == count,
        forall|x: int|
            0 <= x < count ==> #[trigger] cells_text(grid, row, count, config, ramp)[x] == glyph_of(
                sample_of(grid.pixel(x, row), false),
                config,
                ramp,
            ),
    decreases count,
{
    if count > 0 {
        lemma_plain_cells(grid, row, count - 1, config, ramp);
    }
}

/// Without colour, the first `count` rows are `count` lines of `width`
/// glyphs and a newline each.
pub proof fn lemma_plain_lines(grid: Grid, count: int, config: Configuration, ramp: Seq<char>)
    requires
        !config.color,
        0 <= count,
    ensures
        lines_text(grid, count, config, ramp).len() == count * (grid.width + 1),
        forall|x: int, y: int|
            0 <= x < grid.width && 0 <= y < count ==> lines_text(grid, count, config, ramp)[#[trigger] plain_offset(
                grid.width as int,
                x,
                y,
            )] == glyph_of(sample_of(grid.pixel(x, y), false), config, ramp),
        forall|y: int|
            0 <= y < count ==> lines_text(grid, count, config, ramp)[#[trigger] plain_offset(
                grid.width as int,
                grid.width as int,
                y,
            )] == '\n',
    decreases count,
{
    let w = grid.width as int;
    if count > 0 {
        lemma_plain_lines(grid, count - 1, config, ramp);
        lemma_plain_cells(grid, count - 1, w, config, ramp);
        let above = lines_text(grid, count - 1, config, ramp);
        let cells = cells_text(grid, count - 1, w, config, ramp);
        let all = lines_text(grid, count, config, ramp);
        assert(all == above + cells + line_end(false));
        assert(count * (w + 1) == (count - 1) * (w + 1) + (w + 1)) by (nonlinear_arith);
        assert(above.len() == (count - 1) * (w + 1));
        assert forall|x: int, y: int| 0 <= x <= w && 0 <= y < count implies {
            &&& (y < count - 1 ==> 0 <= #[trigger] plain_offset(w, x, y) < above.len())
            &&& (y == count - 1 ==> plain_offset(w, x, y) == above.len() + x)
        } by {
            assert(0 <= y * (w + 1) && (y + 1) * (w + 1) <= (count - 1) * (w + 1) || y == count
                - 1) by (nonlinear_arith)
                requires
                    0 <= y < count,
                    0 <= w,
            ;
            assert((y + 1) * (w + 1) == y * (w + 1) + (w + 1)) by (nonlinear_arith);
        }
        assert forall|x: int, y: int| 0 <= x < w && 0 <= y < count implies all[#[trigger] plain_offset(
            w,
            x,
            y,
        )] == glyph_of(sample_of(grid.pixel(x, y), false), config, ramp) by {
            if y == count - 1 {
                assert(all[above.len() + x] == cells[x]);
            } else {
                assert(all[plain_offset(w, x, y)] == above[plain_offset(w, x, y)]);
            }
        }
        assert forall|y: int| 0 <= y < count implies all[#[trigger] plain_offset(w, w, y)]
            == '\n' by {
            if y == count - 1 {
                assert(all[above.len() + w] == line_end(false)[0]);
            } else {
                assert(all[plain_offset(w, w, y)] == above[plain_offset(w, w, y)]);
            }
        }
    } else {
        assert(count * (w + 1) == 0) by (nonlinear_arith)
            requires
                count == 0,
        ;
    }
}

/// Without colour, the text of a grid is one line for each row: `width`
/// characters, the glyph of each cell in turn, and then a newline.
pub proof fn lemma_plain_text_shape(grid: Grid, config: Configuration, ramp: Seq<char>)
    requires
        !config.color,
    ensures
        rendered_text(grid, config, ramp).len() == grid.height * (grid.width + 1),
        forall|x: int, y: int|
            0 <= x < grid.width && 0 <= y < grid.height ==> rendered_text(grid, config, ramp)[#[trigger] plain_offset(
                grid.width as int,
                x,
                y,
            )] == glyph_of(sample_of(grid.pixel(x, y), false), config, ramp),
        forall|y: int|
            0 <= y < grid.height ==> rendered_text(grid, config, ramp)[#[trigger] plain_offset(
                grid.width as int,
                grid.width as int,
                y,
            )] == '\n',
{
    lemma_plain_lines(grid, grid.height as int, config, ramp);
}

/// Every glyph that is written is a glyph of the ramp.
pub proof fn lemma_glyph_from_ramp(sample: Sample, config: Configuration, ramp: Seq<char>)
    requires
        config.wf(),
        ramp.len() >= 1,
    ensures
        ramp.contains(glyph_of(sample, config, ramp)),
{
    lemma_position_in_ramp(level_of(sample), config.contrast, config.invert, ramp.len() as int);
}

/// At a contrast factor of one, a luminance rendered with inversion gives
/// the cell that 255 less that luminance gives without inversion.
pub proof fn lemma_inverted_cell_mirrors(value: u8, config: Configuration, ramp: Seq<char>)
    requires
        config.wf(),
        config.contrast.is_neutral(),
        config.invert,
    ensures
        cell_text(Sample::Luma { value }, config, ramp) == cell_text(
            Sample::Luma { value: (255 - value) as u8 },
            Configuration { invert: false, ..config },
            ramp,
        ),
{
    let level = level_of(Sample::Luma { value });
    assert(level_of(Sample::Luma { value: (255 - value) as u8 }) == LEVEL_MAX - level);
    lemma_inversion_mirrors(level, config.contrast, ramp.len() as int);
}

/// Rendering depends on nothing but the pixels, the settings and the ramp:
/// grids with the same pixels render to the same text, character for character.
pub proof fn lemma_render_repeatable(first: Grid, second: Grid, config: Configuration, ramp: Seq<char>)
    requires
        first.width == second.width,
        first.height == second.height,
        first.pixels =~= second.pixels,
    ensures
        rendered_text(first, config, ramp) == rendered_text(second, config, ramp),
{
    assert(first == second);
}

/// The text of `rows` lines that each hold `width` times the same glyph and
/// then a newline.
pub open spec fn solid_text(width: int, rows: int, glyph: char) -> Seq<char> {
    Seq::new(
        (rows * (width + 1)) as nat,
        |k: int|
            if k % (width + 1) == width {
                '\n'
            } else {
                glyph
            },
    )
}

/// Without colour and with a contrast factor of at least one, a grid that
/// is black throughout renders as the first glyph of the ramp in every
/// cell, and with inversion as the last.
pub proof fn lemma_black_grid_text(grid: Grid, config: Configuration, ramp: Seq<char>)
    requires
        grid.wf(),
        config.wf(),
        !config.color,
        config.contrast.numer >= config.contrast.denom,
        ramp.len() >= 1,
        is_black(grid),
    ensures
        rendered_text(grid, config, ramp) == solid_text(
            grid.width as int,
            grid.height as int,
            if config.invert {
                ramp.last()
            } else {
                ramp.first()
            },
        ),
{
    let w = grid.width as int;
    let h = grid.height as int;
    let text = rendered_text(grid, config, ramp);
    let glyph = if config.invert {
        ramp.last()
    } else {
        ramp.first()
    };
    let solid = solid_text(w, h, glyph);
    lemma_plain_text_shape(grid, config, ramp);
    lemma_extremes(config.contrast, ramp.len() as int);
    assert(0 <= h * (w + 1)) by (nonlinear_arith)
        requires
            0 <= h,
            0 <= w,
    ;
    assert(text.len() == solid.len());
    assert forall|k: int| 0 <= k < text.len() implies text[k] == solid[k] by {
        let y = k / (w + 1);
        let x = k % (w + 1);
        lemma_fundamental_div_mod(k, w + 1);
        lemma_mod_bound(k, w + 1);
        lemma_div_pos_is_pos(k, w + 1);
        assert(y < h) by (nonlinear_arith)
            requires
                k == (w + 1) * y + x,
                0 <= x,
                k < h * (w + 1),
                0 < w + 1,
        ;
        assert(plain_offset(w, x, y) == k) by (nonlinear_arith)
            requires
                k == (w + 1) * y + x,
                plain_offset(w, x, y) == y * (w + 1) + x,
        ;
        if x < w {
            lemma_cell_in_grid(x, y, w, h);
            let p = grid.pixel(x, y);
            assert(channel(p, 0) == 0 && channel(p, 1) == 0 && channel(p, 2) == 0);
            assert(luma_of(p) == 0);
            assert(level_of(sample_of(p, false)) == 0);
            assert(text[plain_offset(w, x, y)] == glyph_of(sample_of(p, false), config, ramp));
        } else {
            assert(text[plain_offset(w, w, y)] == '\n');
        }
    }
    assert(text =~= solid);
}

/// Whether `grid` can be what scaling `source` to `width` columns gives: it
/// has `width` columns and the number of rows that goes with them; where
/// that is the size of the source already, it is the source; and a channel
/// that is zero throughout the source is zero throughout the grid.
pub open spec fn scaled_from(grid: Grid, source: Grid, width: nat) -> bool {
    &&& grid.wf()
    &&& grid.width == width
    &&& grid.height == grid_height(source.width as int, source.height as int, width as int)
    &&& (grid.width == source.width && grid.height == source.height ==> grid == source)
    &&& forall|index: int|
        0 <= index < 4 && #[trigger] channel_is_zero(source, index) ==> channel_is_zero(
            grid,
            index,
        )
}

/// Whether a source can be scaled to `width` columns: neither the source
/// nor the grid is larger than scaling is asked for, and the buffers fit
/// the machine's address space.
pub open spec fn fits(source: Grid, width: nat) -> bool {
    scalable(
        source.width as int,
        source.height as int,
        width as int,
        grid_height(source.width as int, source.height as int, width as int),
    )
}

/// Tells whether `frame` can be scaled to `width` columns: it has at least
/// one column, and the source and the grid are of a size that fits.
pub fn can_scale(frame: &Frame, width: u32) -> (ok: bool)
    ensures
        ok == (frame.width > 0 && fits(frame@, width as nat)),
{
    if frame.width == 0 || frame.width > MAX_DIMENSION || frame.height > MAX_DIMENSION || width
        > MAX_DIMENSION {
        return false;
    }
    let rows = target_height(frame.width, frame.height, width);
    if rows > MAX_DIMENSION {
        return false;
    }
    assert(frame.width * rows <= 0xffff_ffff * 0xffff_ffff && width * rows <= 0xffff_ffff
        * 0xffff_ffff) by (nonlinear_arith)
        requires
            frame.width <= 0xffff_ffff,
            width <= 0xffff_ffff,
            rows <= 0xffff_ffff,
    ;
    let limit: u128 = isize::MAX as u128;
    16 * (frame.width as u128 * rows as u128) <= limit && 4 * (width as u128 * rows as u128)
        <= limit
}

/// Scales a frame to `width` columns and the number of rows that keeps its
/// shape on a terminal.
pub fn scale_to_grid(frame: &Frame, width: u32) -> (grid: Frame)
    requires
        frame.wf(),
        frame.width > 0,
        fits(frame@, width as nat),
    ensures
        grid.wf(),
        scaled_from(grid@, frame@, width as nat),
{
    let rows = target_height(frame.width, frame.height, width);
    let grid = resample(frame, width, rows);
    proof {
        grid.lemma_view_wf();
        if grid.width == frame.width && grid.height == frame.height {
            assert(grid@.pixels =~= frame@.pixels);
        }
    }
    grid
}

/// Renders a frame without colour, `config.width` characters wide, with the
/// standard ramp: the frame is scaled to the character grid, and the grid
/// is rendered.
///
/// The text is that of some grid that scaling can give. It has one line for
/// each row of the grid, at least one, and each line is `config.width`
/// glyphs of the ramp and a newline. Which pixel values the resampling
/// filter produces is not fixed here, with two exceptions: a frame that
/// already has the size of the grid is rendered as it is, and a frame that
/// is black throughout is rendered as a black grid.
///
/// Colour output is softened between scaling and rendering by a blur that
/// works in floating point, which this library does not hold. For colour, a
/// caller scales with `scale_to_grid`, applies the blur, and renders with
/// `render_grid`.
pub fn image_to_ascii(frame: &Frame, config: &Configuration) -> (text: String)
    requires
        frame.wf(),
        frame.width > 0,
        config.wf(),
        !config.color,
        fits(frame@, config.width as nat),
    ensures
        exists|grid: Grid| #[trigger]
            scaled_from(grid, frame@, config.width as nat) && text@ == rendered_text(
                grid,
                *config,
                glyph_ramp(),
            ),
        grid_height(frame.width as int, frame.height as int, config.width as int) >= 1,
        text@.len() == grid_height(frame.width as int, frame.height as int, config.width as int)
            * (config.width + 1),
        forall|y: int|
            0 <= y < grid_height(frame.width as int, frame.height as int, config.width as int)
                ==> text@[#[trigger] plain_offset(config.width as int, config.width as int, y)]
                == '\n',
        forall|x: int, y: int|
            0 <= x < config.width && 0 <= y < grid_height(
                frame.width as int,
                frame.height as int,
                config.width as int,
            ) ==> glyph_ramp().contains(
                text@[#[trigger] plain_offset(config.width as int, x, y)],
            ),
        is_black(frame@) && config.contrast.numer >= config.contrast.denom ==> text@ == solid_text(
            config.width as int,
            grid_height(frame.width as int, frame.height as int, config.width as int),
            if config.invert {
                '@'
            } else {
                ' '
            },
        ),
{
    let grid = scale_to_grid(frame, config.width);
    let ramp = standard_ramp();
    let text = render_grid(&grid, config, ramp.as_slice());
    proof {
        let w = config.width as int;
        assert(scaled_from(grid@, frame@, config.width as nat));
        lemma_plain_text_shape(grid@, *config, glyph_ramp());
        assert forall|x: int, y: int| 0 <= x < w && 0 <= y < grid@.height implies glyph_ramp().contains(
            text@[#[trigger] plain_offset(w, x, y)],
        ) by {
            lemma_glyph_from_ramp(sample_of(grid@.pixel(x, y), false), *config, glyph_ramp());
        }
        if is_black(frame@) && config.contrast.numer >= config.contrast.denom {
            assert(channel_is_zero(frame@, 0));
            assert(channel_is_zero(frame@, 1));
            assert(channel_is_zero(frame@, 2));
            assert(is_black(grid@));
            lemma_black_grid_text(grid@, *config, glyph_ramp());
            assert(glyph_ramp().first() == ' ' && glyph_ramp().last() == '@');
        }
    }
    text
}

} // verus!
