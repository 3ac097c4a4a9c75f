use vstd::prelude::*;
use single_value_channel::Updater;

verus! {

pub const SCREEN_WIDTH: usize = 64;

pub const SCREEN_HEIGHT: usize = 32;

const SPRITE_WIDTH: usize = 8;

/// Pixel colour the presentation side paints for a set framebuffer bit.
pub const FOREGROUND_COLOR_RGB: u32 = 0x00_9900;

/// Pixel colour the presentation side paints for a clear framebuffer bit.
pub const BACKGROUND_COLOR_RGB: u32 = 0x00_0000;

#[verifier::external_type_specification]
#[verifier::external_body]
#[verifier::reject_recursive_types(T)]
pub struct ExUpdater<T>(Updater<T>);

/// The updating half of the single-slot channel that carries framebuffer
/// snapshots to the presentation side; it overwrites, never queues.
pub type DisplaySender = Updater<Option<Vec<bool>>>;

/// Flat index of the pixel in sprite column `col` and sprite row `row` of a
/// sprite whose top-left corner is at screen position (`nx`, `ny`); the
/// framebuffer is stored row-major, 64 pixels to a row.
pub open spec fn pix(nx: int, ny: int, col: int, row: int) -> int {
    (ny + row) * 64 + (nx + col)
}

/// Bit `col` of a sprite row byte, most significant bit first.
pub open spec fn sprite_bit(b: u8, col: int) -> bool
    recommends
        0 <= col < 8,
{
    (b >> ((7 - col) as u8)) & 1 == 1
}

/// Whether framebuffer index `k` is one of the pixels a draw touches, for
/// the sprite pixels that come before row `r`, column `c` in drawing order
/// (all of the sprite when `r` is the row count and `c` is 0).  A sprite
/// pixel that would fall off the right or bottom edge of the screen is
/// clipped, not wrapped, and touches nothing.
pub open spec fn covered_below(nx: int, ny: int, r: int, c: int, k: int) -> bool {
    exists|row: int, col: int|
        0 <= row && 0 <= col < 8 && (row < r || (row == r && col < c)) && nx + col < 64 && ny + row
            < 32 && k == pix(nx, ny, col, row)
}

/// The sprite pixel at (`row`, `col`) lands on the screen, hits a lit
/// framebuffer pixel, and is itself set — the draw erases that pixel.
pub open spec fn pair_hit(fb: Seq<bool>, sprite: Seq<u8>, nx: int, ny: int, row: int, col: int) -> bool {
    0 <= row < sprite.len() && 0 <= col < 8 && nx + col < 64 && ny + row < 32 && fb[pix(nx, ny, col, row)]
        && sprite_bit(sprite[row], col)
}

/// Whether drawing `sprite` at (`nx`, `ny`) over `fb` erases some pixel:
/// the collision the flag register reports.
pub open spec fn draw_collision(fb: Seq<bool>, sprite: Seq<u8>, nx: int, ny: int) -> bool {
    exists|row: int, col: int| pair_hit(fb, sprite, nx, ny, row, col)
}

/// How a draw changes the framebuffer: every on-screen sprite pixel is
/// XORed into place and every other pixel keeps its value.
pub open spec fn draw_updates(old_fb: Seq<bool>, new_fb: Seq<bool>, sprite: Seq<u8>, nx: int, ny: int) -> bool {
    &&& new_fb.len() == old_fb.len()
    &&& forall|row: int, col: int|
        0 <= row < sprite.len() && 0 <= col < 8 && nx + col < 64 && ny + row < 32
            ==> new_fb[#[trigger] pix(nx, ny, col, row)] == (old_fb[pix(nx, ny, col, row)]
            != sprite_bit(sprite[row], col))
    &&& forall|k: int|
        0 <= k < new_fb.len() && !covered_below(nx, ny, sprite.len() as int, 0, k)
            ==> new_fb[k] == old_fb[k]
}

/// Two sprite pixels that land on the same framebuffer index are the same
/// sprite pixel.
proof fn lemma_pix_injective(nx: int, ny: int, col1: int, row1: int, col2: int, row2: int)
    requires
        0 <= nx + col1 < 64,
        0 <= nx + col2 < 64,
        0 <= ny + row1,
        0 <= ny + row2,
        pix(nx, ny, col1, row1) == pix(nx, ny, col2, row2),
    ensures
        col1 == col2,
        row1 == row2,
{
}

/// The 64x32 monochrome framebuffer and the sprite compositor; after each
/// draw it publishes a snapshot of the grid to the presentation side.
pub struct Renderer {
    display_content: Vec<bool>,
    display_sender: DisplaySender,
}

impl View for Renderer {
    type V = Seq<bool>;

    closed spec fn view(&self) -> Seq<bool> {
        self.display_content@
    }
}

/// Relies on single_value_channel::Updater::has_no_receiver: reports
/// whether the receiving half of the channel has been dropped.
#[verifier::external_body]
fn display_has_no_receiver(sender: &DisplaySender) -> bool {
    sender.has_no_receiver()
}

/// Relies on single_value_channel::Updater::update: overwrites the single
/// slot of the channel with the snapshot, so the receiver only ever sees
/// the most recent value; fails exactly when the receiver is gone.
#[verifier::external_body]
fn display_update(sender: &DisplaySender, value: Vec<bool>) -> bool {
    sender.update(Some(value)).is_ok()
}

impl Renderer {
    pub open spec fn wf(&self) -> bool {
        self@.len() == SCREEN_WIDTH * SCREEN_HEIGHT
    }

    /// A renderer over a cleared screen, publishing to `display_sender`.
    pub fn new(display_sender: DisplaySender) -> (r: Self)
        ensures
            r.wf(),
            forall|k: int| 0 <= k < r@.len() ==> !r@[k],
    {
        let mut display_content: Vec<bool> = Vec::new();
        let mut i: usize = 0;
        while i < SCREEN_WIDTH * SCREEN_HEIGHT
            invariant
                i == display_content@.len(),
                i <= SCREEN_WIDTH * SCREEN_HEIGHT,
                forall|k: int| 0 <= k < i ==> !display_content@[k],
            decreases SCREEN_WIDTH * SCREEN_HEIGHT - i,
        {
            display_content.push(false);
            i = i + 1;
        }
        Renderer { display_content, display_sender }
    }

    /// Clears every pixel.
    pub fn clear_display(&mut self)
        requires
            old(self).wf(),
        ensures
            final(self).wf(),
            forall|k: int| 0 <= k < final(self)@.len() ==> !final(self)@[k],
    {
        let mut i: usize = 0;
        while i < SCREEN_WIDTH * SCREEN_HEIGHT
            invariant
                self.wf(),
                i <= SCREEN_WIDTH * SCREEN_HEIGHT,
                forall|k: int| 0 <= k < i ==> !self@[k],
            decreases SCREEN_WIDTH * SCREEN_HEIGHT - i,
        {
            self.display_content[i] = false;
            i = i + 1;
        }
    }

    /// A copy of the framebuffer, for publication.
    fn snapshot(&self) -> (r: Vec<bool>)
        ensures
            r@ == self@,
    {
        let mut r: Vec<bool> = Vec::new();
        let mut i: usize = 0;
        while i < self.display_content.len()
            invariant
                i == r@.len(),
                i <= self.display_content@.len(),
                forall|k: int| 0 <= k < i ==> r@[k] == self.display_content@[k],
            decreases self.display_content@.len() - i,
        {
            r.push(self.display_content[i]);
            i = i + 1;
        }
        proof {
            assert(r@ =~= self@);
        }
        r
    }

    /// Composites `sprite` at screen position (`target_x`, `target_y`): the
    /// start position wraps modulo the screen size once, each sprite bit is
    /// XORed into the grid, and pixels that would fall off the right or
    /// bottom edge are clipped.  Returns whether any lit pixel was erased,
    /// then publishes a snapshot of the grid.
    pub fn draw_sprite(&mut self, sprite: &[u8], target_x: u8, target_y: u8) -> (pixel_erased: bool)
        requires
            old(self).wf(),
        ensures
            final(self).wf(),
            draw_updates(
                old(self)@,
                final(self)@,
                sprite@,
                target_x as int % 64,
                target_y as int % 32,
            ),
            pixel_erased == draw_collision(
                old(self)@,
                sprite@,
                target_x as int % 64,
                target_y as int % 32,
            ),
    {
        let mut pixel_erased = false;
        // wrap the start position once when it lies out of bounds
        let normalized_x = target_x as usize % SCREEN_WIDTH;
        let normalized_y = target_y as usize % SCREEN_HEIGHT;
        let ghost fb0 = self@;
        let ghost nx = normalized_x as int;
        let ghost ny = normalized_y as int;
        let mut sprite_y: usize = 0;
        while sprite_y < sprite.len()
            invariant
                self.wf(),
                self@.len() == fb0.len(),
                nx == target_x as int % 64,
                ny == target_y as int % 32,
                normalized_x == nx,
                normalized_y == ny,
                0 <= nx < 64,
                0 <= ny < 32,
                sprite_y <= sprite@.len(),
                forall|row: int, col: int|
                    0 <= row < sprite_y && 0 <= col < 8 && nx + col < 64 && ny + row < 32
                        ==> self@[#[trigger] pix(nx, ny, col, row)] == (fb0[pix(nx, ny, col, row)]
                        != sprite_bit(sprite@[row], col)),
                forall|k: int|
                    0 <= k < fb0.len() && !covered_below(nx, ny, sprite_y as int, 0, k)
                        ==> self@[k] == fb0[k],
                pixel_erased == exists|row: int, col: int|
                    #[trigger] pair_hit(fb0, sprite@, nx, ny, row, col) && row < sprite_y,
            decreases sprite@.len() - sprite_y,
        {
            let sprite_line_byte = sprite[sprite_y];
            let mut col: usize = 0;
            while col < SPRITE_WIDTH
                invariant
                    self.wf(),
                    self@.len() == fb0.len(),
                    normalized_x == nx,
                    normalized_y == ny,
                    0 <= nx < 64,
                    0 <= ny < 32,
                    sprite_y < sprite@.len(),
                    sprite_line_byte == sprite@[sprite_y as int],
                    col <= 8,
                    forall|row: int, c: int|
                        0 <= row && 0 <= c < 8 && (row < sprite_y || (row == sprite_y && c < col))
                            && row < sprite@.len() && nx + c < 64 && ny + row < 32
                            ==> self@[#[trigger] pix(nx, ny, c, row)] == (fb0[pix(nx, ny, c, row)]
                            != sprite_bit(sprite@[row], c)),
                    forall|k: int|
                        0 <= k < fb0.len() && !covered_below(nx, ny, sprite_y as int, col as int, k)
                            ==> self@[k] == fb0[k],
                    pixel_erased == exists|row: int, c: int|
                        #[trigger] pair_hit(fb0, sprite@, nx, ny, row, c) && (row < sprite_y || (
                        row == sprite_y && c < col)),
                decreases SPRITE_WIDTH - col,
            {
                if sprite_y < SCREEN_HEIGHT && normalized_y + sprite_y < SCREEN_HEIGHT
                    && normalized_x + col < SCREEN_WIDTH {
                    let pixel_x = normalized_x + col;
                    let pixel_y = normalized_y + sprite_y;
                    let idx = pixel_y * SCREEN_WIDTH + pixel_x;
                    proof {
                        assert(idx == pix(nx, ny, col as int, sprite_y as int));
                        assert(idx < 2048);
                        assert(!covered_below(nx, ny, sprite_y as int, col as int, idx as int))
                            by {
                            if covered_below(nx, ny, sprite_y as int, col as int, idx as int) {
                                let (row2, col2) = choose|row2: int, col2: int|
                                    0 <= row2 && 0 <= col2 < 8 && (row2 < sprite_y || (row2
                                        == sprite_y && col2 < col)) && nx + col2 < 64 && ny + row2
                                        < 32 && idx == pix(nx, ny, col2, row2);
                                lemma_pix_injective(
                                    nx,
                                    ny,
                                    col as int,
                                    sprite_y as int,
                                    col2,
                                    row2,
                                );
                            }
                        }
                    }
                    let shift: u8 = (7 - col) as u8;
                    let bit_set = (sprite_line_byte >> shift) & 1 == 1;
                    let pixel = self.display_content[idx];
                    let ghost pre = self@;
                    if pixel && bit_set {
                        pixel_erased = true;
                    }
                    self.display_content[idx] = pixel != bit_set;
                    proof {
                        assert(bit_set == sprite_bit(sprite@[sprite_y as int], col as int));
                        assert(pre[idx as int] == fb0[idx as int]);
                        assert forall|row: int, c: int|
                            0 <= row && 0 <= c < 8 && (row < sprite_y || (row == sprite_y && c < col
                                + 1)) && row < sprite@.len() && nx + c < 64 && ny + row < 32
                            implies self@[#[trigger] pix(nx, ny, c, row)] == (fb0[pix(
                            nx,
                            ny,
                            c,
                            row,
                        )] != sprite_bit(sprite@[row], c)) by {
                            if pix(nx, ny, c, row) == idx {
                                lemma_pix_injective(nx, ny, c, row, col as int, sprite_y as int);
                            }
                        }
                        assert forall|k: int|
                            0 <= k < fb0.len() && !covered_below(
                                nx,
                                ny,
                                sprite_y as int,
                                col as int + 1,
                                k,
                            ) implies self@[k] == fb0[k] by {
                            if k != idx {
                                assert(!covered_below(nx, ny, sprite_y as int, col as int, k));
                            } else {
                                assert(covered_below(
                                    nx,
                                    ny,
                                    sprite_y as int,
                                    col as int + 1,
                                    idx as int,
                                ));
                            }
                        }
                        if pre[idx as int] && bit_set {
                            assert(pair_hit(fb0, sprite@, nx, ny, sprite_y as int, col as int));
                        }
                        assert(pixel_erased == exists|row: int, c: int|
                            #[trigger] pair_hit(fb0, sprite@, nx, ny, row, c) && (row < sprite_y
                                || (row == sprite_y && c < col + 1)));
                    }
                } else {
                    proof {
                        assert forall|k: int|
                            0 <= k < fb0.len() && !covered_below(
                                nx,
                                ny,
                                sprite_y as int,
                                col as int + 1,
                                k,
                            ) implies self@[k] == fb0[k] by {
                            assert(!covered_below(nx, ny, sprite_y as int, col as int, k));
                        }
                    }
                }
                col = col + 1;
            }
            proof {
                assert forall|k: int|
                    0 <= k < fb0.len() && !covered_below(nx, ny, sprite_y as int + 1, 0, k)
                    implies self@[k] == fb0[k] by {
                    if covered_below(nx, ny, sprite_y as int, 8, k) {
                        let (row2, col2) = choose|row2: int, col2: int|
                            0 <= row2 && 0 <= col2 < 8 && (row2 < sprite_y || (row2 == sprite_y
                                && col2 < 8)) && nx + col2 < 64 && ny + row2 < 32 && k == pix(
                                nx,
                                ny,
                                col2,
                                row2,
                            );
                        assert(row2 < sprite_y as int + 1);
                        assert(covered_below(nx, ny, sprite_y as int + 1, 0, k));
                    }
                }
            }
            sprite_y = sprite_y + 1;
        }
        let snapshot = self.snapshot();
        if !display_has_no_receiver(&self.display_sender) {
            let _ = display_update(&self.display_sender, snapshot);
        }
        pixel_erased
    }

    /// The pixel in column `x` of row `y`.
    pub fn pixel(&self, x: usize, y: usize) -> (r: bool)
        requires
            self.wf(),
            x < SCREEN_WIDTH,
            y < SCREEN_HEIGHT,
        ensures
            r == self@[y * 64 + x],
    {
        self.display_content[y * SCREEN_WIDTH + x]
    }
}

/// Drawing any sprite over a cleared screen reports no collision: a
/// collision needs a lit pixel underneath, and every pixel is clear.
pub proof fn lemma_draw_on_cleared_screen_no_collision(
    fb: Seq<bool>,
    sprite: Seq<u8>,
    nx: int,
    ny: int,
)
    requires
        fb.len() == 2048,
        forall|k: int| 0 <= k < fb.len() ==> !fb[k],
        0 <= nx < 64,
        0 <= ny < 32,
    ensures
        !draw_collision(fb, sprite, nx, ny),
{
    if draw_collision(fb, sprite, nx, ny) {
        let (row, col) = choose|row: int, col: int| pair_hit(fb, sprite, nx, ny, row, col);
        assert(0 <= pix(nx, ny, col, row) < 2048);
        assert(false);
    }
}

/// Turns a framebuffer snapshot into packed pixels for the window: one
/// colour for lit pixels and one for clear ones.
pub fn update_pixels(frame_buffer: &mut Vec<u32>, display_content: &Vec<bool>)
    requires
        old(frame_buffer)@.len() == display_content@.len(),
    ensures
        final(frame_buffer)@.len() == old(frame_buffer)@.len(),
        forall|i: int|
            0 <= i < final(frame_buffer)@.len() ==> final(frame_buffer)@[i] == (if display_content@[i] {
                FOREGROUND_COLOR_RGB
            } else {
                BACKGROUND_COLOR_RGB
            }),
{
    let mut i: usize = 0;
    while i < frame_buffer.len()
        invariant
            frame_buffer@.len() == old(frame_buffer)@.len(),
            frame_buffer@.len() == display_content@.len(),
            i <= frame_buffer@.len(),
            forall|k: int|
                0 <= k < i ==> frame_buffer@[k] == (if display_content@[k] {
                    FOREGROUND_COLOR_RGB
                } else {
                    BACKGROUND_COLOR_RGB
                }),
        decreases frame_buffer@.len() - i,
    {
        let rgb: u32 = if display_content[i] {
            FOREGROUND_COLOR_RGB
        } else {
            BACKGROUND_COLOR_RGB
        };
        frame_buffer[i] = rgb;
        i = i + 1;
    }
}

} // verus!
