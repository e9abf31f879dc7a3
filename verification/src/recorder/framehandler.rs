//! The thumbnail generator: batches decoded frames, and for every batch lays
//! out one sprite sheet, one tooltip strip and the cues that address them.
//!
//! The generator decides what is written and where. Scaling, cropping and
//! encoding the images, and writing the files, is the caller's part.

use crate::utils::text::{decimal, decimal_text, digit_char, padded_text, zero_padded};
use vstd::prelude::*;

verus! {

/// Width of one slice of a sprite sheet, in pixels.
pub const SPRITE_WIDTH: u32 = 4;

/// Height of a sprite sheet, in pixels.
pub const SPRITE_HEIGHT: u32 = 54;

/// Number of frames in a full batch, and of slices in every sprite sheet.
pub const SPRITE_COUNT: usize = 6;

/// Width of a frame, in pixels.
pub const WIDTH: u32 = 720;

/// Height of a frame, in pixels.
pub const HEIGHT: u32 = 480;

/// Bytes of one frame: three per pixel.
pub const FRAME_BYTES: usize = 1036800;

/// Seconds in a day.
pub const DAY_SECONDS: u32 = 86400;

/// Why the generator refused a frame or a flush.
#[derive(Clone, Copy, Debug, PartialEq, Eq, Structural)]
pub enum FrameError {
    /// The frame does not hold one image of the expected size.
    Malformed,
    /// The batch index has reached the end of its range.
    Exhausted,
}

/// A rectangle of pixels.
#[derive(Clone, Copy, Debug, PartialEq, Eq, Structural)]
pub struct Rect {
    pub x: u32,
    pub y: u32,
    pub width: u32,
    pub height: u32,
}

/// How a frame becomes one slice of a sprite sheet: scale it to `width` by
/// `height`, then keep `crop`.
#[derive(Clone, Copy, Debug, PartialEq, Eq, Structural)]
pub struct SpriteCut {
    pub width: u32,
    pub height: u32,
    pub crop: Rect,
}

/// The width that keeps the aspect of a `rows` by `cols` image scaled to the
/// height of a sprite sheet, rounded to the nearest pixel, halves upwards.
pub open spec fn scaled_width(rows: nat, cols: nat) -> nat {
    (2 * cols * SPRITE_HEIGHT as nat + rows) / (2 * rows)
}

/// The cut of a `rows` by `cols` image: `None` for an image without rows,
/// for one whose scaled width is beyond `i32::MAX`, and for one so narrow
/// that a slice does not fit into it.
pub open spec fn sprite_cut(rows: nat, cols: nat) -> Option<SpriteCut> {
    let width = scaled_width(rows, cols);
    if rows == 0 || width > i32::MAX || width < SPRITE_WIDTH {
        None
    } else {
        Some(
            SpriteCut {
                width: width as u32,
                height: SPRITE_HEIGHT,
                crop: Rect {
                    x: (width / 2 - 2) as u32,
                    y: 0,
                    width: SPRITE_WIDTH,
                    height: SPRITE_HEIGHT,
                },
            },
        )
    }
}

/// The scaled width is the exact width `cols * 54 / rows` to within half a
/// pixel: scaling keeps the aspect.
pub proof fn lemma_scaling_keeps_aspect(rows: nat, cols: nat)
    requires
        rows > 0,
    ensures
        2 * scaled_width(rows, cols) * rows <= 2 * cols * SPRITE_HEIGHT as nat + rows,
        2 * cols * (SPRITE_HEIGHT as nat) < 2 * scaled_width(rows, cols) * rows + rows,
{
    let n = 2 * cols * SPRITE_HEIGHT as nat + rows;
    let d = 2 * rows;
    let q = n / d;
    assert(q * d <= n && n < q * d + d) by (nonlinear_arith)
        requires
            d > 0,
            q == n / d,
    ;
    assert(q * d == 2 * q * rows) by (nonlinear_arith)
        requires
            d == 2 * rows,
    ;
}

/// A slice lies inside the scaled image, around its horizontal centre.
pub proof fn lemma_cut_fits(rows: nat, cols: nat)
    requires
        sprite_cut(rows, cols) is Some,
    ensures
        ({
            let cut = sprite_cut(rows, cols)->0;
            &&& cut.crop.x + cut.crop.width <= cut.width
            &&& cut.crop.y + cut.crop.height <= cut.height
            &&& cut.crop.x + 2 == cut.width / 2
        }),
{
}

/// Lays out the slice of a `rows` by `cols` image.
pub fn create_sprite(rows: u32, cols: u32) -> (cut: Option<SpriteCut>)
    ensures
        cut == sprite_cut(rows as nat, cols as nat),
{
    if rows == 0 {
        return None;
    }
    let numerator: u64 = 108 * (cols as u64) + rows as u64;
    let width: u64 = numerator / (2 * (rows as u64));
    assert(numerator == 2 * (cols as nat) * (SPRITE_HEIGHT as nat) + rows as nat);
    if width > i32::MAX as u64 || width < SPRITE_WIDTH as u64 {
        return None;
    }
    Some(
        SpriteCut {
            width: width as u32,
            height: SPRITE_HEIGHT,
            crop: Rect {
                x: (width / 2 - 2) as u32,
                y: 0,
                width: SPRITE_WIDTH,
                height: SPRITE_HEIGHT,
            },
        },
    )
}

/// The cut of every frame: frames are `WIDTH` by `HEIGHT`.
pub open spec fn frame_cut() -> SpriteCut {
    SpriteCut {
        width: 81,
        height: SPRITE_HEIGHT,
        crop: Rect { x: 38, y: 0, width: SPRITE_WIDTH, height: SPRITE_HEIGHT },
    }
}

/// Lays out the slice of a frame.
pub fn create_sprites() -> (cut: SpriteCut)
    ensures
        cut == frame_cut(),
        Some(cut) == sprite_cut(HEIGHT as nat, WIDTH as nat),
{
    proof {
        assert(2 * (WIDTH as nat) * (SPRITE_HEIGHT as nat) + HEIGHT as nat == 78240);
        assert(2 * (HEIGHT as nat) == 960);
        assert(78240nat / 960 == 81);
        assert(scaled_width(HEIGHT as nat, WIDTH as nat) == 81);
    }
    match create_sprite(HEIGHT, WIDTH) {
        Some(cut) => cut,
        None => SpriteCut {
            width: 81,
            height: SPRITE_HEIGHT,
            crop: Rect { x: 38, y: 0, width: SPRITE_WIDTH, height: SPRITE_HEIGHT },
        },
    }
}

/// The frame that fills each slot of a strip made of `count` frames: the
/// frames in order, then the last frame again until `SPRITE_COUNT` slots are
/// filled. No frames make no strip; more frames than slots make a longer
/// strip.
pub open spec fn slot_order(count: nat) -> Seq<usize> {
    if count == 0 {
        Seq::empty()
    } else {
        Seq::new(
            if count < SPRITE_COUNT {
                SPRITE_COUNT as nat
            } else {
                count
            },
            |i: int|
                if i < count {
                    i as usize
                } else {
                    (count - 1) as usize
                },
        )
    }
}

/// A strip of one to `SPRITE_COUNT` frames has `SPRITE_COUNT` slots: every
/// frame once, in order, and then the last frame in each slot that is left.
pub proof fn lemma_strip_is_full(count: nat)
    requires
        0 < count <= SPRITE_COUNT,
    ensures
        slot_order(count).len() == SPRITE_COUNT,
        forall|i: int| 0 <= i < count ==> #[trigger] slot_order(count)[i] == i,
        forall|i: int| count <= i < SPRITE_COUNT ==> #[trigger] slot_order(count)[i] == count - 1,
{
}

/// Lays out the slots of a strip made of `count` frames.
pub fn concat_sprites(count: usize) -> (slots: Vec<usize>)
    ensures
        slots@ == slot_order(count as nat),
{
    let mut slots: Vec<usize> = Vec::new();
    if count == 0 {
        assert(slots@ =~= slot_order(count as nat));
        return slots;
    }
    let mut i: usize = 0;
    while i < count
        invariant
            0 < count,
            i <= count,
            slots@.len() == i,
            forall|j: int| 0 <= j < i ==> slots@[j] == j,
        decreases count - i,
    {
        slots.push(i);
        i = i + 1;
    }
    while i < SPRITE_COUNT
        invariant
            0 < count,
            count <= i,
            i <= SPRITE_COUNT || i == count,
            slots@.len() == i,
            forall|j: int| 0 <= j < count ==> slots@[j] == j,
            forall|j: int| count <= j < i ==> slots@[j] == count - 1,
        decreases SPRITE_COUNT - i,
    {
        slots.push(count - 1);
        i = i + 1;
    }
    assert(slots@ =~= slot_order(count as nat));
    slots
}

/// A number below 100 in two digits.
pub open spec fn two_digits(n: nat) -> Seq<char> {
    seq![digit_char(n / 10), digit_char(n % 10)]
}

/// A second of the day as hours, minutes, seconds and milliseconds:
/// `HH:MM:SS.000`.
pub open spec fn clock_text(second: nat) -> Seq<char> {
    two_digits(second / 3600) + seq![':'] + two_digits((second / 60) % 60) + seq![':']
        + two_digits(second % 60) + seq!['.', '0', '0', '0']
}

/// The second of the day that a count of seconds falls on. Only the low 32
/// bits of the count are looked at.
pub open spec fn clock_second(seconds: nat) -> nat {
    (seconds % 0x1_0000_0000) % (DAY_SECONDS as nat)
}

/// The pattern of a time of day: hour, minute and second in two digits
/// each, and the milliseconds in three.
pub const CLOCK_PATTERN: &'static str = "%H:%M:%S%.3f";

/// `NaiveTime::from_num_seconds_from_midnight_opt` and `NaiveTime::format` of
/// chrono: the time `second` seconds after midnight, without a fraction,
/// formatted with `CLOCK_PATTERN`, is the hour, the minute and the second in
/// two digits each, separated by colons, then a dot and three zeros.
#[verifier::external_body]
fn midnight_clock(second: u32, nano: u32, pattern: &str) -> (text: String)
    requires
        second < DAY_SECONDS,
        nano == 0,
        pattern@ == CLOCK_PATTERN@,
    ensures
        text@ == clock_text(second as nat),
{
    let time = chrono::NaiveTime::from_num_seconds_from_midnight_opt(second, nano);
    format!("{}", time.unwrap_or_default().format(pattern))
}

/// A count of seconds as a time of day.
pub fn format_seconds(seconds: usize) -> (text: String)
    ensures
        text@ == clock_text(clock_second(seconds as nat)),
{
    let low: u64 = (seconds as u64) % 0x1_0000_0000;
    let second: u32 = (low % (DAY_SECONDS as u64)) as u32;
    midnight_clock(second, 0, CLOCK_PATTERN)
}

/// The header that a cue file begins with.
pub open spec fn cue_header() -> Seq<char> {
    "WEBVTT\n\n"@
}

/// The number of the cue of slot `slot` (counted from 1) of batch `idx`.
pub open spec fn cue_number(idx: nat, slot: nat) -> nat {
    slot + idx * SPRITE_COUNT as nat
}

/// The second at which the cue of slot `slot` (counted from 1) of batch `idx`
/// begins.
pub open spec fn cue_start(idx: nat, slot: nat) -> nat {
    (idx + slot - 1) as nat + idx * SPRITE_COUNT as nat
}

/// The second at which that cue ends: one later.
pub open spec fn cue_end(idx: nat, slot: nat) -> nat {
    idx + slot + idx * SPRITE_COUNT as nat
}

/// The region of the tooltip strip that slot `slot` (counted from 1) shows.
pub open spec fn cue_region(slot: nat) -> Rect
    recommends
        1 <= slot <= SPRITE_COUNT,
{
    Rect { x: ((slot - 1) * WIDTH) as u32, y: 0, width: WIDTH, height: HEIGHT }
}

/// The name of the tooltip strip of batch `idx`, without its directory.
pub open spec fn tooltip_name(idx: nat) -> Seq<char> {
    "tooltips_"@ + padded_text(idx, 5) + ".jpg"@
}

/// One cue: its number, its time range, and the region of the tooltip strip
/// that it shows, each on a line of its own, and an empty line.
pub open spec fn cue_block(idx: nat, slot: nat) -> Seq<char> {
    let region = cue_region(slot);
    decimal_text(cue_number(idx, slot)) + "\n"@ + clock_text(clock_second(cue_start(idx, slot)))
        + " --> "@ + clock_text(clock_second(cue_end(idx, slot))) + "\n"@ + tooltip_name(idx)
        + "#xywh="@ + decimal_text(region.x as nat) + ","@ + decimal_text(region.y as nat) + ","@
        + decimal_text(region.width as nat) + ","@ + decimal_text(region.height as nat) + "\n"@
        + "\n"@
}

/// The cues of the first `slots` slots of batch `idx`, in order.
pub open spec fn cue_blocks(idx: nat, slots: nat) -> Seq<char>
    decreases slots,
{
    if slots == 0 {
        Seq::empty()
    } else {
        cue_blocks(idx, (slots - 1) as nat) + cue_block(idx, slots)
    }
}

/// What the flush of batch `idx` appends to the cue file: the header before
/// the first batch of a session, and one cue for every slot.
pub open spec fn flush_text(idx: nat) -> Seq<char> {
    if idx == 0 {
        cue_header() + cue_blocks(idx, SPRITE_COUNT as nat)
    } else {
        cue_blocks(idx, SPRITE_COUNT as nat)
    }
}

/// What the cue file of a session holds after `batches` flushes.
pub open spec fn cue_file_text(batches: nat) -> Seq<char>
    decreases batches,
{
    if batches == 0 {
        Seq::empty()
    } else {
        cue_file_text((batches - 1) as nat) + flush_text((batches - 1) as nat)
    }
}

/// The cues of all batches before `batches`, in order, without any header.
pub open spec fn all_cue_blocks(batches: nat) -> Seq<char>
    decreases batches,
{
    if batches == 0 {
        Seq::empty()
    } else {
        all_cue_blocks((batches - 1) as nat) + cue_blocks(
            (batches - 1) as nat,
            SPRITE_COUNT as nat,
        )
    }
}

/// Whether a cue comes before another in the cue file.
pub open spec fn cue_precedes(idx: nat, slot: nat, later_idx: nat, later_slot: nat) -> bool {
    idx < later_idx || (idx == later_idx && slot < later_slot)
}

/// Every cue spans one second, and a cue ends before any later cue begins:
/// start offsets increase strictly through the file and no two ranges overlap.
pub proof fn lemma_cues_do_not_overlap(idx: nat, slot: nat, later_idx: nat, later_slot: nat)
    requires
        1 <= slot <= SPRITE_COUNT,
        1 <= later_slot <= SPRITE_COUNT,
        cue_precedes(idx, slot, later_idx, later_slot),
    ensures
        cue_end(idx, slot) == cue_start(idx, slot) + 1,
        cue_end(idx, slot) <= cue_start(later_idx, later_slot),
        cue_start(idx, slot) < cue_start(later_idx, later_slot),
        cue_number(idx, slot) < cue_number(later_idx, later_slot),
{
}

/// After the first flush a cue file is the header followed by the cues of
/// all batches, in order.
proof fn lemma_one_header(batches: nat)
    requires
        batches >= 1,
    ensures
        cue_file_text(batches) == cue_header() + all_cue_blocks(batches),
    decreases batches,
{
    if batches == 1 {
        assert(cue_file_text(0) =~= Seq::<char>::empty());
        assert(all_cue_blocks(0) =~= Seq::<char>::empty());
        assert(cue_file_text(1) =~= cue_header() + all_cue_blocks(1));
    } else {
        lemma_one_header((batches - 1) as nat);
        assert(cue_file_text(batches) =~= cue_header() + all_cue_blocks(batches));
    }
}

/// Whether a text is free of the letter that the header begins with.
pub open spec fn headerless(text: Seq<char>) -> bool {
    forall|i: int| 0 <= i < text.len() ==> text[i] != 'W'
}

/// Two texts without that letter make a text without it.
proof fn lemma_headerless_concat(first: Seq<char>, second: Seq<char>)
    requires
        headerless(first),
        headerless(second),
    ensures
        headerless(first + second),
{
}

/// A number in decimal has only digits.
proof fn lemma_decimal_headerless(n: nat)
    ensures
        headerless(decimal_text(n)),
        headerless(padded_text(n, 5)),
    decreases n,
{
    if n >= 10 {
        lemma_decimal_headerless(n / 10);
    }
}

/// A time of day has only digits, colons and a dot.
proof fn lemma_clock_headerless(second: nat)
    ensures
        headerless(clock_text(second)),
{
}

/// One cue does not hold the letter that the header begins with.
proof fn lemma_cue_block_headerless(idx: nat, slot: nat)
    ensures
        headerless(cue_block(idx, slot)),
{
    reveal_strlit("\n");
    reveal_strlit(" --> ");
    reveal_strlit("tooltips_");
    reveal_strlit(".jpg");
    reveal_strlit("#xywh=");
    reveal_strlit(",");
    let region = cue_region(slot);
    lemma_decimal_headerless(cue_number(idx, slot));
    lemma_decimal_headerless(idx);
    lemma_decimal_headerless(region.x as nat);
    lemma_decimal_headerless(region.y as nat);
    lemma_decimal_headerless(region.width as nat);
    lemma_decimal_headerless(region.height as nat);
    lemma_clock_headerless(clock_second(cue_start(idx, slot)));
    lemma_clock_headerless(clock_second(cue_end(idx, slot)));
    assert(headerless("\n"@));
    assert(headerless(" --> "@));
    assert(headerless("tooltips_"@));
    assert(headerless(".jpg"@));
    assert(headerless("#xywh="@));
    assert(headerless(","@));
    let name = tooltip_name(idx);
    lemma_headerless_concat("tooltips_"@, padded_text(idx, 5));
    lemma_headerless_concat("tooltips_"@ + padded_text(idx, 5), ".jpg"@);
    let t1 = decimal_text(cue_number(idx, slot)) + "\n"@;
    let t2 = t1 + clock_text(clock_second(cue_start(idx, slot)));
    let t3 = t2 + " --> "@;
    let t4 = t3 + clock_text(clock_second(cue_end(idx, slot)));
    let t5 = t4 + "\n"@;
    let t6 = t5 + name;
    let t7 = t6 + "#xywh="@;
    let t8 = t7 + decimal_text(region.x as nat);
    let t9 = t8 + ","@;
    let t10 = t9 + decimal_text(region.y as nat);
    let t11 = t10 + ","@;
    let t12 = t11 + decimal_text(region.width as nat);
    let t13 = t12 + ","@;
    let t14 = t13 + decimal_text(region.height as nat);
    let t15 = t14 + "\n"@;
    let t16 = t15 + "\n"@;
    assert(headerless(t1));
    assert(headerless(t2));
    assert(headerless(t3));
    assert(headerless(t4));
    assert(headerless(t5));
    assert(headerless(t6));
    assert(headerless(t7));
    assert(headerless(t8));
    assert(headerless(t9));
    assert(headerless(t10));
    assert(headerless(t11));
    assert(headerless(t12));
    assert(headerless(t13));
    assert(headerless(t14));
    assert(headerless(t15));
    assert(headerless(t16));
    assert(t16 == cue_block(idx, slot));
}

/// The cues of a batch do not hold the letter that the header begins with.
proof fn lemma_cue_blocks_headerless(idx: nat, slots: nat)
    ensures
        headerless(cue_blocks(idx, slots)),
    decreases slots,
{
    if slots > 0 {
        lemma_cue_blocks_headerless(idx, (slots - 1) as nat);
        lemma_cue_block_headerless(idx, slots);
        lemma_headerless_concat(cue_blocks(idx, (slots - 1) as nat), cue_block(idx, slots));
    }
}

/// The header stands at the very beginning of a cue file and nowhere else:
/// what follows it, the cues of all batches, holds no `W`, the letter that
/// the header begins with.
pub proof fn lemma_header_occurs_once(batches: nat)
    requires
        batches >= 1,
    ensures
        cue_file_text(batches) == cue_header() + all_cue_blocks(batches),
        cue_header().len() == 8,
        cue_header()[0] == 'W',
        headerless(all_cue_blocks(batches)),
    decreases batches,
{
    reveal_strlit("WEBVTT\n\n");
    lemma_one_header(batches);
    lemma_cue_blocks_headerless((batches - 1) as nat, SPRITE_COUNT as nat);
    if batches > 1 {
        lemma_header_occurs_once((batches - 1) as nat);
        lemma_headerless_concat(
            all_cue_blocks((batches - 1) as nat),
            cue_blocks((batches - 1) as nat, SPRITE_COUNT as nat),
        );
    } else {
        assert(all_cue_blocks(0) =~= Seq::<char>::empty());
        assert(all_cue_blocks(1) =~= cue_blocks(0, SPRITE_COUNT as nat));
    }
}

/// The text of one cue.
fn cue_block_text(idx: usize, slot: usize) -> (text: String)
    requires
        1 <= slot <= SPRITE_COUNT,
        idx * 7 + 6 <= usize::MAX,
    ensures
        text@ == cue_block(idx as nat, slot as nat),
{
    let number = slot + idx * 6;
    let from = (idx + slot - 1) + idx * 6;
    let to = (idx + slot) + idx * 6;
    let x = (slot - 1) * 720;
    let mut text = decimal(number as u64);
    text.append("\n");
    text.append(format_seconds(from).as_str());
    text.append(" --> ");
    text.append(format_seconds(to).as_str());
    text.append("\n");
    text.append("tooltips_");
    text.append(zero_padded(idx as u64, 5).as_str());
    text.append(".jpg");
    text.append("#xywh=");
    text.append(decimal(x as u64).as_str());
    text.append(",");
    text.append(decimal(0).as_str());
    text.append(",");
    text.append(decimal(WIDTH as u64).as_str());
    text.append(",");
    text.append(decimal(HEIGHT as u64).as_str());
    text.append("\n");
    text.append("\n");
    proof {
        let region = cue_region(slot as nat);
        assert(region.x as nat == x as nat);
        assert(tooltip_name(idx as nat) == "tooltips_"@ + padded_text(idx as nat, 5) + ".jpg"@);
        assert(text@ =~= cue_block(idx as nat, slot as nat));
    }
    text
}

/// What the flush of batch `idx` appends to the cue file.
fn flush_cues(idx: usize) -> (text: String)
    requires
        idx * 7 + 6 <= usize::MAX,
    ensures
        text@ == flush_text(idx as nat),
{
    let mut text = String::new();
    if idx == 0 {
        text.append("WEBVTT\n\n");
    }
    let ghost head = text@;
    assert(head =~= if idx == 0 {
        cue_header()
    } else {
        Seq::<char>::empty()
    });
    let mut slot: usize = 1;
    assert(text@ =~= head + cue_blocks(idx as nat, 0));
    while slot <= SPRITE_COUNT
        invariant
            1 <= slot <= SPRITE_COUNT + 1,
            idx * 7 + 6 <= usize::MAX,
            text@ == head + cue_blocks(idx as nat, (slot - 1) as nat),
        decreases SPRITE_COUNT + 1 - slot,
    {
        let block = cue_block_text(idx, slot);
        text.append(block.as_str());
        assert(text@ =~= head + cue_blocks(idx as nat, slot as nat));
        slot = slot + 1;
    }
    assert(text@ =~= flush_text(idx as nat));
    text
}

/// What one flush writes: a sprite sheet, a tooltip strip, and cues.
#[derive(Clone, Debug, PartialEq, Eq)]
pub struct SpriteBatch {
    /// The number of the batch within its session, from 0.
    pub index: usize,
    /// The frames of the batch, in the order in which they arrived.
    pub frames: Vec<Vec<u8>>,
    /// How each frame becomes a slice of the sprite sheet.
    pub cut: SpriteCut,
    /// For each slot of the two strips, from the left, the frame that fills
    /// it, by its place in `frames`.
    pub slots: Vec<usize>,
    /// The file of the sprite sheet: the slices of the frames in `slots`,
    /// side by side.
    pub sprite_file: String,
    /// The file of the tooltip strip: the frames in `slots`, side by side.
    pub tooltip_file: String,
    /// The cue file.
    pub cue_file: String,
    /// What is appended to the cue file.
    pub cue_text: String,
}

/// What a [`SpriteBatch`] holds.
pub struct SpriteBatchModel {
    pub index: nat,
    pub frames: Seq<Seq<u8>>,
    pub cut: SpriteCut,
    pub slots: Seq<usize>,
    pub sprite_file: Seq<char>,
    pub tooltip_file: Seq<char>,
    pub cue_file: Seq<char>,
    pub cue_text: Seq<char>,
}

/// What a run of frames holds.
pub open spec fn frames_model(frames: Seq<Vec<u8>>) -> Seq<Seq<u8>> {
    frames.map_values(|frame: Vec<u8>| frame@)
}

impl View for SpriteBatch {
    type V = SpriteBatchModel;

    open spec fn view(&self) -> SpriteBatchModel {
        SpriteBatchModel {
            index: self.index as nat,
            frames: frames_model(self.frames@),
            cut: self.cut,
            slots: self.slots@,
            sprite_file: self.sprite_file@,
            tooltip_file: self.tooltip_file@,
            cue_file: self.cue_file@,
            cue_text: self.cue_text@,
        }
    }
}

impl SpriteBatch {
    /// Whether this batch begins the cue file of its session: the file is
    /// then created, or emptied if it is there, before the text is written.
    pub fn starts_cue_file(&self) -> (first: bool)
        ensures
            first == (self@.index == 0),
    {
        self.index == 0
    }
}

/// What a [`FrameHandlerImpl`] holds.
pub struct FrameHandlerModel {
    /// The frames of the batch that is being filled.
    pub frames: Seq<Seq<u8>>,
    /// The number of the batch that is being filled, from 0.
    pub idx: nat,
    /// The directory that everything is written to.
    pub output_path: Seq<char>,
}

impl FrameHandlerModel {
    /// A batch that is being filled holds fewer than `SPRITE_COUNT` frames,
    /// each of them one whole image.
    pub open spec fn wf(self) -> bool {
        &&& self.frames.len() < SPRITE_COUNT
        &&& forall|i: int| 0 <= i < self.frames.len() ==> (#[trigger] self.frames[i]).len() == FRAME_BYTES
    }

    /// Whether the batch index has run out: the cues of this batch would
    /// have times beyond `usize::MAX`.
    pub open spec fn exhausted(self) -> bool {
        self.idx * 7 + 6 > usize::MAX
    }

    /// The file of the sprite sheet of the current batch.
    pub open spec fn sprite_file(self) -> Seq<char> {
        self.output_path + "/sprite_"@ + padded_text(self.idx, 5) + ".jpg"@
    }

    /// The file of the tooltip strip of the current batch.
    pub open spec fn tooltip_file(self) -> Seq<char> {
        self.output_path + "/"@ + tooltip_name(self.idx)
    }

    /// The cue file.
    pub open spec fn cue_file(self) -> Seq<char> {
        self.output_path + "/thumbnails.vtt"@
    }

    /// What flushing the current batch writes.
    pub open spec fn batch(self) -> SpriteBatchModel {
        SpriteBatchModel {
            index: self.idx,
            frames: self.frames,
            cut: frame_cut(),
            slots: slot_order(self.frames.len()),
            sprite_file: self.sprite_file(),
            tooltip_file: self.tooltip_file(),
            cue_file: self.cue_file(),
            cue_text: flush_text(self.idx),
        }
    }

    /// The generator after a flush: an empty batch with the next index.
    pub open spec fn flushed(self) -> FrameHandlerModel {
        FrameHandlerModel { frames: Seq::empty(), idx: self.idx + 1, ..self }
    }

    /// The generator with one more frame in its batch.
    pub open spec fn with_frame(self, frame: Seq<u8>) -> FrameHandlerModel {
        FrameHandlerModel { frames: self.frames.push(frame), ..self }
    }

    /// The generator at the start of a session: an empty batch with index 0.
    /// Files that were written stay.
    pub open spec fn reset(self) -> FrameHandlerModel {
        FrameHandlerModel { frames: Seq::empty(), idx: 0, ..self }
    }

    /// Whether a collect signal makes the generator flush before it takes
    /// the next frame.
    pub open spec fn flushes_first(self, collect: bool) -> bool {
        collect && self.frames.len() > 0
    }

    /// Whether the next frame completes the batch.
    pub open spec fn fills(self, collect: bool) -> bool {
        !self.flushes_first(collect) && self.frames.len() + 1 == SPRITE_COUNT
    }

    /// Why the next frame is refused, if it is.
    pub open spec fn frame_error(self, frame: Seq<u8>, collect: bool) -> Option<FrameError> {
        if frame.len() != FRAME_BYTES {
            Some(FrameError::Malformed)
        } else if (self.flushes_first(collect) || self.fills(collect)) && self.exhausted() {
            Some(FrameError::Exhausted)
        } else {
            None
        }
    }

    /// The generator after the next frame. A refused frame changes nothing.
    pub open spec fn after_frame(self, frame: Seq<u8>, collect: bool) -> FrameHandlerModel {
        if self.frame_error(frame, collect) is Some {
            self
        } else if self.flushes_first(collect) {
            self.flushed().with_frame(frame)
        } else if self.fills(collect) {
            self.flushed()
        } else {
            self.with_frame(frame)
        }
    }

    /// What the next frame makes the generator write, if anything.
    pub open spec fn frame_batch(self, frame: Seq<u8>, collect: bool) -> Option<SpriteBatchModel> {
        if self.frame_error(frame, collect) is Some {
            None
        } else if self.flushes_first(collect) {
            Some(self.batch())
        } else if self.fills(collect) {
            Some(self.with_frame(frame).batch())
        } else {
            None
        }
    }

    /// Why a flush is refused, if it is.
    pub open spec fn flush_error(self) -> Option<FrameError> {
        if self.frames.len() > 0 && self.exhausted() {
            Some(FrameError::Exhausted)
        } else {
            None
        }
    }

    /// The generator after a flush on request. An empty batch is not
    /// flushed, and a refused flush changes nothing.
    pub open spec fn after_flush(self) -> FrameHandlerModel {
        if self.frames.len() == 0 || self.exhausted() {
            self
        } else {
            self.flushed()
        }
    }

    /// What a flush on request writes, if anything.
    pub open spec fn flush_batch(self) -> Option<SpriteBatchModel> {
        if self.frames.len() == 0 || self.exhausted() {
            None
        } else {
            Some(self.batch())
        }
    }
}

/// Whatever frames arrive and whenever a flush is asked for, the batch that
/// is being filled stays below `SPRITE_COUNT` frames, and every batch that
/// is written holds between one and `SPRITE_COUNT` frames.
pub proof fn lemma_batch_stays_bounded(state: FrameHandlerModel, frame: Seq<u8>, collect: bool)
    requires
        state.wf(),
    ensures
        state.after_frame(frame, collect).wf(),
        state.after_flush().wf(),
        state.reset().wf(),
        state.frame_batch(frame, collect) matches Some(batch) ==> 1 <= batch.frames.len()
            <= SPRITE_COUNT,
        state.flush_batch() matches Some(batch) ==> 1 <= batch.frames.len() < SPRITE_COUNT,
{
}

/// Every batch that is written fills both strips completely: `SPRITE_COUNT`
/// slots of one width each, the frames in order and then the last frame
/// again, so a batch of `k` frames shows its last frame `SPRITE_COUNT - k + 1`
/// times.
pub proof fn lemma_batch_is_full_width(state: FrameHandlerModel)
    requires
        0 < state.frames.len() <= SPRITE_COUNT,
    ensures
        state.batch().slots.len() == SPRITE_COUNT,
        state.batch().cut.crop.width == SPRITE_WIDTH,
        forall|i: int|
            0 <= i < state.frames.len() ==> #[trigger] state.batch().slots[i] == i,
        forall|i: int|
            state.frames.len() <= i < SPRITE_COUNT ==> #[trigger] state.batch().slots[i]
                == state.frames.len() - 1,
        forall|i: int|
            0 <= i < SPRITE_COUNT ==> 0 <= #[trigger] state.batch().slots[i]
                < state.frames.len(),
{
    lemma_strip_is_full(state.frames.len());
}

/// After a reset, the flushes of a session write batches 0, 1, 2 and so on:
/// the cue file of the session is what `cue_file_text` says.
pub proof fn lemma_flushes_number_batches(state: FrameHandlerModel)
    requires
        state.frames.len() > 0,
        !state.exhausted(),
    ensures
        state.after_flush().idx == state.idx + 1,
        state.flush_batch()->0.cue_text == flush_text(state.idx),
        cue_file_text(state.idx) + state.flush_batch()->0.cue_text == cue_file_text(
            state.after_flush().idx,
        ),
{
}

/// Consumes decoded frames and lays out thumbnails.
pub trait FrameHandler {
    /// Takes one frame, and with `collect` a request to flush what came
    /// before it.
    fn handle_frame(&mut self, frame: Vec<u8>, collect: bool) -> Result<
        Option<SpriteBatch>,
        FrameError,
    >;

    /// Flushes the batch that is being filled.
    fn collect_frames(&mut self) -> Result<Option<SpriteBatch>, FrameError>;

    /// Begins a new session.
    fn reset(&mut self);
}

/// The thumbnail generator of one recorder.
#[derive(Debug)]
pub struct FrameHandlerImpl {
    frames: Vec<Vec<u8>>,
    idx: usize,
    output_path: String,
}

impl View for FrameHandlerImpl {
    type V = FrameHandlerModel;

    closed spec fn view(&self) -> FrameHandlerModel {
        FrameHandlerModel {
            frames: frames_model(self.frames@),
            idx: self.idx as nat,
            output_path: self.output_path@,
        }
    }
}

impl FrameHandlerImpl {
    #[verifier::type_invariant]
    spec fn well_formed(self) -> bool {
        &&& self.frames@.len() < SPRITE_COUNT
        &&& forall|i: int| 0 <= i < self.frames@.len() ==> (#[trigger] self.frames@[i])@.len() == FRAME_BYTES
    }

    /// A generator that writes into `output_path`.
    pub fn new(output_path: String) -> (handler: FrameHandlerImpl)
        ensures
            handler@ == (FrameHandlerModel {
                frames: Seq::empty(),
                idx: 0,
                output_path: output_path@,
            }),
            handler@.wf(),
    {
        let handler = FrameHandlerImpl { frames: Vec::new(), idx: 0, output_path };
        assert(frames_model(handler.frames@) =~= Seq::empty());
        handler
    }

    /// A generator that writes into `output_path` and goes on with batch
    /// `idx` of a session that was begun before.
    pub fn at_batch(output_path: String, idx: usize) -> (handler: FrameHandlerImpl)
        ensures
            handler@ == (FrameHandlerModel {
                frames: Seq::empty(),
                idx: idx as nat,
                output_path: output_path@,
            }),
            handler@.wf(),
    {
        let handler = FrameHandlerImpl { frames: Vec::new(), idx, output_path };
        assert(frames_model(handler.frames@) =~= Seq::empty());
        handler
    }

    /// How many frames the batch that is being filled holds.
    pub fn pending(&self) -> (count: usize)
        ensures
            count == self@.frames.len(),
            self@.wf(),
    {
        proof {
            use_type_invariant(self);
        }
        self.frames.len()
    }

    /// The number of the batch that is being filled.
    pub fn batch_index(&self) -> (idx: usize)
        ensures
            idx == self@.idx,
    {
        self.idx
    }

    /// Whether the batch index has run out.
    pub fn is_exhausted(&self) -> (exhausted: bool)
        ensures
            exhausted == self@.exhausted(),
    {
        self.idx > (usize::MAX - 6) / 7
    }

    /// Lays out the batch made of `frames`, which are taken out of the
    /// generator.
    fn lay_out(&self, frames: Vec<Vec<u8>>) -> (batch: SpriteBatch)
        requires
            !self@.exhausted(),
        ensures
            batch@ == (FrameHandlerModel { frames: frames_model(frames@), ..self@ }).batch(),
    {
        let idx = self.idx;
        let number = zero_padded(idx as u64, 5);
        let mut sprite_file = self.output_path.clone();
        sprite_file.append("/sprite_");
        sprite_file.append(number.as_str());
        sprite_file.append(".jpg");
        let mut tooltip_file = self.output_path.clone();
        tooltip_file.append("/");
        tooltip_file.append("tooltips_");
        tooltip_file.append(number.as_str());
        tooltip_file.append(".jpg");
        let mut cue_file = self.output_path.clone();
        cue_file.append("/thumbnails.vtt");
        let slots = concat_sprites(frames.len());
        let cue_text = flush_cues(idx);
        proof {
            let model = FrameHandlerModel { frames: frames_model(frames@), ..self@ };
            assert(tooltip_file@ =~= model.tooltip_file());
            assert(sprite_file@ =~= model.sprite_file());
        }
        SpriteBatch {
            index: idx,
            frames,
            cut: create_sprites(),
            slots,
            sprite_file,
            tooltip_file,
            cue_file,
            cue_text,
        }
    }
}

impl FrameHandler for FrameHandlerImpl {
    fn handle_frame(&mut self, frame: Vec<u8>, collect: bool) -> (result: Result<
        Option<SpriteBatch>,
        FrameError,
    >)
        ensures
            final(self)@ == old(self)@.after_frame(frame@, collect),
            final(self)@.wf(),
            match result {
                Ok(Some(batch)) => old(self)@.frame_error(frame@, collect) is None && old(
                    self,
                )@.frame_batch(frame@, collect) == Some(batch@),
                Ok(None) => old(self)@.frame_error(frame@, collect) is None && old(
                    self,
                )@.frame_batch(frame@, collect) is None,
                Err(error) => old(self)@.frame_error(frame@, collect) == Some(error),
            },
    {
        proof {
            use_type_invariant(&*self);
        }
        if frame.len() != FRAME_BYTES {
            return Err(FrameError::Malformed);
        }
        let pending = self.frames.len();
        let flushes_first = collect && pending > 0;
        let fills = !flushes_first && pending + 1 == SPRITE_COUNT;
        if (flushes_first || fills) && self.is_exhausted() {
            return Err(FrameError::Exhausted);
        }
        let ghost before = self.frames@;
        let mut batch_frames: Vec<Vec<u8>> = Vec::new();
        std::mem::swap(&mut self.frames, &mut batch_frames);
        assert(frames_model(self.frames@) =~= Seq::empty());
        if flushes_first {
            let batch = self.lay_out(batch_frames);
            self.idx = self.idx + 1;
            let mut next: Vec<Vec<u8>> = Vec::new();
            next.push(frame);
            assert(frames_model(next@) =~= Seq::<Seq<u8>>::empty().push(frame@));
            self.frames = next;
            Ok(Some(batch))
        } else if !fills {
            batch_frames.push(frame);
            assert(frames_model(batch_frames@) =~= frames_model(before).push(frame@));
            self.frames = batch_frames;
            Ok(None)
        } else {
            batch_frames.push(frame);
            assert(frames_model(batch_frames@) =~= frames_model(before).push(frame@));
            let batch = self.lay_out(batch_frames);
            self.idx = self.idx + 1;
            Ok(Some(batch))
        }
    }

    fn collect_frames(&mut self) -> (result: Result<Option<SpriteBatch>, FrameError>)
        ensures
            final(self)@ == old(self)@.after_flush(),
            final(self)@.wf(),
            match result {
                Ok(Some(batch)) => old(self)@.flush_error() is None && old(self)@.flush_batch()
                    == Some(batch@),
                Ok(None) => old(self)@.flush_error() is None && old(self)@.flush_batch() is None,
                Err(error) => old(self)@.flush_error() == Some(error),
            },
    {
        proof {
            use_type_invariant(&*self);
        }
        if self.frames.len() == 0 {
            return Ok(None);
        }
        if self.is_exhausted() {
            return Err(FrameError::Exhausted);
        }
        let mut batch_frames: Vec<Vec<u8>> = Vec::new();
        std::mem::swap(&mut self.frames, &mut batch_frames);
        assert(frames_model(self.frames@) =~= Seq::empty());
        let batch = self.lay_out(batch_frames);
        self.idx = self.idx + 1;
        Ok(Some(batch))
    }

    fn reset(&mut self)
        ensures
            final(self)@ == old(self)@.reset(),
            final(self)@.wf(),
    {
        self.frames = Vec::new();
        self.idx = 0;
        assert(frames_model(self.frames@) =~= Seq::empty());
    }
}

} // verus!
