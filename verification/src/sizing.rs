//! How large the output of a transcode is: the row pitch and the number of
//! rows a target format is laid out with, and the bytes they take.

use crate::formats::TranscoderTextureFormat;
use vstd::arithmetic::div_mod::lemma_div_is_ordered;
use vstd::arithmetic::mul::lemma_mul_inequality;
use vstd::arithmetic::mul::lemma_mul_is_commutative;
use vstd::arithmetic::power2::is_pow2;
use vstd::prelude::*;

verus! {

/// The number of blocks of `block` pixels that it takes to cover `pixels`
/// pixels: `pixels / block`, rounded up.
pub open spec fn blocks_covering(pixels: nat, block: nat) -> nat
    recommends
        block > 0,
{
    ((pixels + block - 1) / (block as int)) as nat
}

impl TranscoderTextureFormat {
    /// The row pitch that a level `original_width` pixels wide has when none
    /// is asked for: the blocks that cover its width in a block format, its
    /// width in a raw pixel format.
    pub open spec fn default_row_pitch(self, original_width: u32) -> nat {
        blocks_covering(original_width as nat, self.spec_block_width() as nat)
    }

    /// The rows that a level `original_height` pixels high has when no
    /// number of rows is asked for: the rows of blocks that cover its
    /// height in a block format, its height in a raw pixel format.
    pub open spec fn default_row_count(self, original_height: u32) -> nat {
        blocks_covering(original_height as nat, self.spec_block_height() as nat)
    }

    /// The row pitch of the output, in blocks or pixels: the override as it
    /// is given, or the default where none is given. A swizzled format has
    /// no row pitch to override and keeps the default.
    pub open spec fn row_pitch(self, original_width: u32, row_pitch_override: Option<u32>) -> nat {
        if row_pitch_override is Some && !self.spec_has_swizzled_layout() {
            row_pitch_override->0 as nat
        } else {
            self.default_row_pitch(original_width)
        }
    }

    /// The rows of the output, in rows of blocks or rows of pixels. Only a
    /// raw pixel format takes an override; a block format always has the
    /// rows of blocks that cover the level's height.
    pub open spec fn row_count(self, original_height: u32, row_count_override: Option<u32>) -> nat {
        if row_count_override is Some && !self.spec_is_compressed() {
            row_count_override->0 as nat
        } else {
            self.default_row_count(original_height)
        }
    }

    /// The blocks or pixels that the output holds: row pitch times rows.
    pub open spec fn minimum_output_blocks_or_pixels(
        self,
        original_width: u32,
        original_height: u32,
        row_pitch_override: Option<u32>,
        row_count_override: Option<u32>,
    ) -> nat {
        self.row_pitch(original_width, row_pitch_override) * self.row_count(
            original_height,
            row_count_override,
        )
    }

    /// The bytes that the output takes: row pitch times rows times the
    /// bytes of one block or pixel.
    pub open spec fn minimum_output_bytes(
        self,
        original_width: u32,
        original_height: u32,
        row_pitch_override: Option<u32>,
        row_count_override: Option<u32>,
    ) -> nat {
        self.minimum_output_blocks_or_pixels(
            original_width,
            original_height,
            row_pitch_override,
            row_count_override,
        ) * (self.spec_bytes_per_block_or_pixel() as nat)
    }

    /// The row pitch of the output, in blocks or pixels.
    pub fn resolve_row_pitch(self, original_width: u32, row_pitch_override: Option<u32>) -> (pitch:
        u32)
        ensures
            pitch == self.row_pitch(original_width, row_pitch_override),
    {
        match row_pitch_override {
            Some(pitch) if !self.has_swizzled_layout() => pitch,
            _ => covering_blocks(original_width, self.block_width()),
        }
    }

    /// The rows of the output, in rows of blocks or rows of pixels.
    pub fn resolve_row_count(self, original_height: u32, row_count_override: Option<u32>) -> (rows:
        u32)
        ensures
            rows == self.row_count(original_height, row_count_override),
    {
        match row_count_override {
            Some(rows) if !self.is_compressed() => rows,
            _ => covering_blocks(original_height, self.block_height()),
        }
    }

    /// The blocks or pixels that the output of a transcode holds, or `None`
    /// where that number does not fit in 32 bits.
    pub fn checked_minimum_output_buffer_blocks_or_pixels(
        self,
        original_width: u32,
        original_height: u32,
        _total_slice_blocks: u32,
        output_row_pitch_in_blocks_or_pixels: Option<u32>,
        output_rows_in_pixels: Option<u32>,
    ) -> (size: Option<u32>)
        ensures
            size is Some <==> self.minimum_output_blocks_or_pixels(
                original_width,
                original_height,
                output_row_pitch_in_blocks_or_pixels,
                output_rows_in_pixels,
            ) <= u32::MAX,
            size matches Some(units) ==> units == self.minimum_output_blocks_or_pixels(
                original_width,
                original_height,
                output_row_pitch_in_blocks_or_pixels,
                output_rows_in_pixels,
            ),
    {
        let pitch: u32 = self.resolve_row_pitch(original_width, output_row_pitch_in_blocks_or_pixels);
        let rows: u32 = self.resolve_row_count(original_height, output_rows_in_pixels);
        pitch.checked_mul(rows)
    }

    /// The bytes that the output of a transcode takes, or `None` where that
    /// number does not fit in 32 bits.
    pub fn checked_minimum_output_buffer_bytes(
        self,
        original_width: u32,
        original_height: u32,
        total_slice_blocks: u32,
        output_row_pitch_in_blocks_or_pixels: Option<u32>,
        output_rows_in_pixels: Option<u32>,
    ) -> (size: Option<u32>)
        ensures
            size is Some <==> self.minimum_output_bytes(
                original_width,
                original_height,
                output_row_pitch_in_blocks_or_pixels,
                output_rows_in_pixels,
            ) <= u32::MAX,
            size matches Some(bytes) ==> bytes == self.minimum_output_bytes(
                original_width,
                original_height,
                output_row_pitch_in_blocks_or_pixels,
                output_rows_in_pixels,
            ),
    {
        let unit: u32 = self.bytes_per_block_or_pixel();
        let ghost units_needed = self.minimum_output_blocks_or_pixels(
            original_width,
            original_height,
            output_row_pitch_in_blocks_or_pixels,
            output_rows_in_pixels,
        );
        match self.checked_minimum_output_buffer_blocks_or_pixels(
            original_width,
            original_height,
            total_slice_blocks,
            output_row_pitch_in_blocks_or_pixels,
            output_rows_in_pixels,
        ) {
            Some(units) => units.checked_mul(unit),
            None => {
                assert(units_needed * (unit as nat) > u32::MAX) by (nonlinear_arith)
                    requires
                        units_needed > u32::MAX,
                        unit >= 1,
                ;
                None
            },
        }
    }

    /// The blocks or pixels that the output of a transcode holds.
    ///
    /// The size follows from the pixel dimensions, the target format and the
    /// overrides; the blocks of the level in its universal format do not
    /// enter.
    pub fn calculate_minimum_output_buffer_blocks_or_pixels(
        self,
        original_width: u32,
        original_height: u32,
        _total_slice_blocks: u32,
        output_row_pitch_in_blocks_or_pixels: Option<u32>,
        output_rows_in_pixels: Option<u32>,
    ) -> (size: u32)
        requires
            self.minimum_output_blocks_or_pixels(
                original_width,
                original_height,
                output_row_pitch_in_blocks_or_pixels,
                output_rows_in_pixels,
            ) <= u32::MAX,
        ensures
            size == self.minimum_output_blocks_or_pixels(
                original_width,
                original_height,
                output_row_pitch_in_blocks_or_pixels,
                output_rows_in_pixels,
            ),
    {
        let pitch: u32 = self.resolve_row_pitch(original_width, output_row_pitch_in_blocks_or_pixels);
        let rows: u32 = self.resolve_row_count(original_height, output_rows_in_pixels);
        pitch * rows
    }

    /// The bytes that the output of a transcode takes: the least size of a
    /// buffer that can hold it.
    ///
    /// The size follows from the pixel dimensions, the target format and the
    /// overrides; `total_slice_blocks`, the blocks of the level in its
    /// universal format, does not enter.
    pub fn calculate_minimum_output_buffer_bytes(
        self,
        original_width: u32,
        original_height: u32,
        total_slice_blocks: u32,
        output_row_pitch_in_blocks_or_pixels: Option<u32>,
        output_rows_in_pixels: Option<u32>,
    ) -> (size: u32)
        requires
            self.minimum_output_bytes(
                original_width,
                original_height,
                output_row_pitch_in_blocks_or_pixels,
                output_rows_in_pixels,
            ) <= u32::MAX,
        ensures
            size == self.minimum_output_bytes(
                original_width,
                original_height,
                output_row_pitch_in_blocks_or_pixels,
                output_rows_in_pixels,
            ),
    {
        let unit: u32 = self.bytes_per_block_or_pixel();
        let ghost units_needed = self.minimum_output_blocks_or_pixels(
            original_width,
            original_height,
            output_row_pitch_in_blocks_or_pixels,
            output_rows_in_pixels,
        );
        assert(units_needed <= units_needed * (unit as nat)) by (nonlinear_arith)
            requires
                unit >= 1,
        ;
        let units: u32 = self.calculate_minimum_output_buffer_blocks_or_pixels(
            original_width,
            original_height,
            total_slice_blocks,
            output_row_pitch_in_blocks_or_pixels,
            output_rows_in_pixels,
        );
        units * unit
    }
}

/// Whether `value` is a power of two: 1, 2, 4, 8 and so on.
pub fn is_power_of_two(value: u32) -> (power: bool)
    ensures
        power == is_pow2(value as int),
{
    if value == 0 {
        proof {
            reveal(is_pow2);
        }
        return false;
    }
    let mut rest: u32 = value;
    while rest % 2 == 0
        invariant
            rest > 0,
            is_pow2(rest as int) == is_pow2(value as int),
        decreases rest,
    {
        proof {
            reveal(is_pow2);
        }
        rest = rest / 2;
    }
    proof {
        reveal(is_pow2);
    }
    rest == 1
}

/// `pixels / block`, rounded up.
fn covering_blocks(pixels: u32, block: u32) -> (blocks: u32)
    requires
        block > 0,
    ensures
        blocks == blocks_covering(pixels as nat, block as nat),
{
    let whole: u32 = pixels / block;
    let rest: u32 = pixels % block;
    proof {
        lemma_rounding_up(pixels as int, block as int);
    }
    if rest == 0 {
        whole
    } else {
        whole + 1
    }
}

/// Rounding a quotient up adds one to it exactly where the division leaves
/// a remainder.
proof fn lemma_rounding_up(pixels: int, block: int)
    requires
        pixels >= 0,
        block > 0,
    ensures
        (pixels + block - 1) / block == pixels / block + (if pixels % block == 0 {
            0int
        } else {
            1int
        }),
        pixels / block <= pixels,
        pixels % block != 0 ==> pixels / block < pixels,
{
    let q = pixels / block;
    let r = pixels % block;
    vstd::arithmetic::div_mod::lemma_fundamental_div_mod(pixels, block);
    vstd::arithmetic::div_mod::lemma_mod_bound(pixels, block);
    vstd::arithmetic::mul::lemma_mul_is_commutative(block, q);
    assert(pixels == q * block + r);
    assert(q >= 0 && q <= pixels - r) by (nonlinear_arith)
        requires
            pixels == q * block + r,
            0 <= r < block,
            pixels >= 0,
            block > 0,
    ;
    if r == 0 {
        vstd::arithmetic::div_mod::lemma_fundamental_div_mod_converse(
            pixels + block - 1,
            block,
            q,
            block - 1,
        );
    } else {
        assert((q + 1) * block == q * block + block) by (nonlinear_arith);
        vstd::arithmetic::div_mod::lemma_fundamental_div_mod_converse(
            pixels + block - 1,
            block,
            q + 1,
            r - 1,
        );
    }
}

/// It takes no fewer blocks to cover more pixels.
pub proof fn blocks_covering_is_monotonic(fewer: nat, more: nat, block: nat)
    requires
        fewer <= more,
        block > 0,
    ensures
        blocks_covering(fewer, block) <= blocks_covering(more, block),
{
    lemma_div_is_ordered(fewer + block - 1, more + block - 1, block as int);
}

/// The output of a transcode does not shrink when the level grows: for one
/// target format and one pair of overrides, a level that is at least as wide
/// and at least as high takes at least as many bytes.
pub proof fn minimum_output_bytes_is_monotonic(
    format: TranscoderTextureFormat,
    original_width: u32,
    original_height: u32,
    wider: u32,
    higher: u32,
    row_pitch_override: Option<u32>,
    row_count_override: Option<u32>,
)
    requires
        original_width <= wider,
        original_height <= higher,
    ensures
        format.minimum_output_blocks_or_pixels(
            original_width,
            original_height,
            row_pitch_override,
            row_count_override,
        ) <= format.minimum_output_blocks_or_pixels(
            wider,
            higher,
            row_pitch_override,
            row_count_override,
        ),
        format.minimum_output_bytes(
            original_width,
            original_height,
            row_pitch_override,
            row_count_override,
        ) <= format.minimum_output_bytes(wider, higher, row_pitch_override, row_count_override),
{
    let pitch = format.row_pitch(original_width, row_pitch_override);
    let wider_pitch = format.row_pitch(wider, row_pitch_override);
    let rows = format.row_count(original_height, row_count_override);
    let more_rows = format.row_count(higher, row_count_override);
    let unit = format.spec_bytes_per_block_or_pixel() as nat;
    blocks_covering_is_monotonic(
        original_width as nat,
        wider as nat,
        format.spec_block_width() as nat,
    );
    blocks_covering_is_monotonic(
        original_height as nat,
        higher as nat,
        format.spec_block_height() as nat,
    );
    assert(pitch <= wider_pitch);
    assert(rows <= more_rows);
    lemma_mul_inequality(pitch as int, wider_pitch as int, rows as int);
    lemma_mul_is_commutative(wider_pitch as int, rows as int);
    lemma_mul_is_commutative(wider_pitch as int, more_rows as int);
    lemma_mul_inequality(rows as int, more_rows as int, wider_pitch as int);
    assert(pitch * rows <= wider_pitch * more_rows);
    lemma_mul_inequality((pitch * rows) as int, (wider_pitch * more_rows) as int, unit as int);
}

/// With no override, the output of a transcode covers the level: in a block
/// format it holds the blocks that cover the width times the rows of blocks
/// that cover the height, in a raw pixel format one pixel for each pixel of
/// the level.
pub proof fn default_output_covers_level(
    format: TranscoderTextureFormat,
    original_width: u32,
    original_height: u32,
)
    ensures
        format.minimum_output_blocks_or_pixels(original_width, original_height, None, None)
            == blocks_covering(original_width as nat, format.spec_block_width() as nat)
            * blocks_covering(original_height as nat, format.spec_block_height() as nat),
        !format.spec_is_compressed() ==> format.minimum_output_blocks_or_pixels(
            original_width,
            original_height,
            None,
            None,
        ) == original_width * original_height,
{
    assert(blocks_covering(original_width as nat, 1) == original_width);
    assert(blocks_covering(original_height as nat, 1) == original_height);
}

} // verus!
