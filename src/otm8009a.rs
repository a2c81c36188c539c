//! The OTM8009A driver: the command streams of its operations.

use vstd::prelude::*;
use crate::command::{
    delay_model, long_model, models, push_delay, push_long, push_read, push_short, read_model,
    short_model, Step, StepModel,
};
use crate::regs::{
    OTM8009A_CMD_CASET, OTM8009A_CMD_COLMOD, OTM8009A_CMD_DISPON, OTM8009A_CMD_ID1,
    OTM8009A_CMD_MADCTR, OTM8009A_CMD_NOP, OTM8009A_CMD_PASET, OTM8009A_CMD_RAMRD,
    OTM8009A_CMD_RAMWR, OTM8009A_CMD_SLPOUT, OTM8009A_CMD_TEEON, OTM8009A_CMD_WRCABC,
    OTM8009A_CMD_WRCABCMB, OTM8009A_CMD_WRCTRLD, OTM8009A_CMD_WRDISBV, OTM8009A_CMD_WRTESCN,
    OTM8009A_COLMOD_RGB888, OTM8009A_ID1, OTM8009A_MADCTR_BGR, OTM8009A_MADCTR_MODE_LANDSCAPE,
    OTM8009A_MADCTR_MODE_PORTRAIT, OTM8009A_TEEON_TELOM_VBLANKING_INFO_ONLY,
};
use crate::session::{
    lemma_all_accepted_succeeds, lemma_first_failure_ends, Session, SessionModel,
};
use crate::{ColorMap, FrameRate, Mode, Otm8009AConfig};

verus! {

/// The model of a page select: a NOP whose parameter picks the vendor register page.
pub open spec fn page(p: u8) -> StepModel {
    short_model(OTM8009A_CMD_NOP, p)
}

fn push_page(v: &mut Vec<Step>, p: u8)
    ensures
        models(final(v)@) == models(old(v)@).push(page(p)),
{
    push_short(v, OTM8009A_CMD_NOP, p);
}

/// Enters command 2 mode and enables the address shift function, which opens
/// the vendor register file.
pub open spec fn unlock_steps() -> Seq<StepModel> {
    seq![
        page(0x00),
        long_model(0xff, seq![0x80u8, 0x09, 0x01]),
        page(0x80),
        long_model(0xff, seq![0x80u8, 0x09])
    ]
}

/// Source output level during porch and non-display area to ground, each followed by a settling pause.
pub open spec fn precharge_steps() -> Seq<StepModel> {
    seq![
        page(0x80),
        short_model(0xc4, 0x30),
        delay_model(10),
        page(0x8a),
        short_model(0xc4, 0x40),
        delay_model(10)
    ]
}

/// GVDD test mode, pump 4 and 5 voltages, column inversion and the VCOM level.
pub open spec fn power_steps() -> Seq<StepModel> {
    seq![
        page(0xb1),
        short_model(0xc5, 0xa9),
        page(0x91),
        short_model(0xc5, 0x34),
        page(0xb4),
        short_model(0xc0, 0x50),
        page(0x00),
        short_model(0xd9, 0x4e)
    ]
}

/// Oscillator, VGH/VGL pumps, GVDD/NGVDD, source timing and RGB video mode.
pub open spec fn timing_steps() -> Seq<StepModel> {
    seq![
        page(0xa1),
        short_model(0xc1, 0x08),
        page(0x92),
        short_model(0xc5, 0x01),
        page(0x95),
        short_model(0xc5, 0x34),
        page(0x00),
        long_model(0xd8, seq![0x79u8, 0x79]),
        page(0x94),
        short_model(0xc5, 0x33),
        page(0xa3),
        short_model(0xc0, 0x1b),
        page(0x82),
        short_model(0xc5, 0x83),
        page(0x81),
        short_model(0xc4, 0x83),
        page(0xa1),
        short_model(0xc1, 0x0e),
        page(0xa6),
        long_model(0xb3, seq![0x00u8, 0x01])
    ]
}

/// Gate-on-array start, clock and end timing.
pub open spec fn goa_steps() -> Seq<StepModel> {
    seq![
        page(0x80),
        long_model(0xce, seq![0x85u8, 0x01, 0x00, 0x84, 0x01, 0x00]),
        page(0xa0),
        long_model(0xce, seq![0x18u8, 0x04, 0x03, 0x39, 0x00, 0x00, 0x00, 0x18, 0x03, 0x03, 0x3a, 0x00, 0x00, 0x00]),
        page(0xb0),
        long_model(0xce, seq![0x18u8, 0x02, 0x03, 0x3b, 0x00, 0x00, 0x00, 0x18, 0x01, 0x03, 0x3c, 0x00, 0x00, 0x00]),
        page(0xc0),
        long_model(0xcf, seq![0x01u8, 0x01, 0x20, 0x20, 0x00, 0x00, 0x01, 0x02, 0x00, 0x00]),
        page(0xd0),
        short_model(0xcf, 0x00)
    ]
}

/// The panel control registers, CB80h to CBF0h.
pub open spec fn panel_control_steps() -> Seq<StepModel> {
    seq![
        page(0x80),
        long_model(0xcb, seq![0x00u8, 0x00, 0x00, 0x00, 0x00, 0x00, 0x00, 0x00, 0x00, 0x00]),
        page(0x90),
        long_model(0xcb, seq![0x00u8, 0x00, 0x00, 0x00, 0x00, 0x00, 0x00, 0x00, 0x00, 0x00, 0x00, 0x00, 0x00, 0x00, 0x00]),
        page(0xa0),
        long_model(0xcb, seq![0x00u8, 0x00, 0x00, 0x00, 0x00, 0x00, 0x00, 0x00, 0x00, 0x00, 0x00, 0x00, 0x00, 0x00, 0x00]),
        page(0xb0),
        long_model(0xcb, seq![0x00u8, 0x00, 0x00, 0x00, 0x00, 0x00, 0x00, 0x00, 0x00, 0x00]),
        page(0xc0),
        long_model(0xcb, seq![0x00u8, 0x04, 0x04, 0x04, 0x04, 0x04, 0x00, 0x00, 0x00, 0x00, 0x00, 0x00, 0x00, 0x00, 0x00]),
        page(0xd0),
        long_model(0xcb, seq![0x00u8, 0x00, 0x00, 0x00, 0x00, 0x00, 0x04, 0x04, 0x04, 0x04, 0x04, 0x00, 0x00, 0x00, 0x00]),
        page(0xe0),
        long_model(0xcb, seq![0x00u8, 0x00, 0x00, 0x00, 0x00, 0x00, 0x00, 0x00, 0x00, 0x00]),
        page(0xf0),
        long_model(0xcb, seq![0xffu8, 0xff, 0xff, 0xff, 0xff, 0xff, 0xff, 0xff, 0xff, 0xff])
    ]
}

/// The panel pad mapping registers, CC80h to CCD0h.
pub open spec fn panel_mapping_steps() -> Seq<StepModel> {
    seq![
        page(0x80),
        long_model(0xcc, seq![0x00u8, 0x26, 0x09, 0x0b, 0x01, 0x25, 0x00, 0x00, 0x00, 0x00]),
        page(0x90),
        long_model(0xcc, seq![0x00u8, 0x00, 0x00, 0x00, 0x00, 0x00, 0x00, 0x00, 0x00, 0x00, 0x00, 0x26, 0x0a, 0x0c, 0x02]),
        page(0xa0),
        long_model(0xcc, seq![0x25u8, 0x00, 0x00, 0x00, 0x00, 0x00, 0x00, 0x00, 0x00, 0x00, 0x00, 0x00, 0x00, 0x00, 0x00]),
        page(0xb0),
        long_model(0xcc, seq![0x00u8, 0x25, 0x0c, 0x0a, 0x02, 0x26, 0x00, 0x00, 0x00, 0x00]),
        page(0xc0),
        long_model(0xcc, seq![0x00u8, 0x00, 0x00, 0x00, 0x00, 0x00, 0x00, 0x00, 0x00, 0x00, 0x00, 0x25, 0x0b, 0x09, 0x01]),
        page(0xd0),
        long_model(0xcc, seq![0x26u8, 0x00, 0x00, 0x00, 0x00, 0x00, 0x00, 0x00, 0x00, 0x00, 0x00, 0x00, 0x00, 0x00, 0x00])
    ]
}

/// Pump 1 clock, source bias and porch settings, then the return to the standard command set.
pub open spec fn vendor_exit_steps() -> Seq<StepModel> {
    seq![
        page(0x81),
        short_model(0xc5, 0x66),
        page(0xb6),
        short_model(0xf5, 0x06),
        page(0xb1),
        short_model(0xc6, 0x06),
        page(0x00),
        long_model(0xff, seq![0xffu8, 0xff, 0xff])
    ]
}

/// The positive and negative gamma correction tables.
pub open spec fn gamma_steps() -> Seq<StepModel> {
    seq![
        page(0x00),
        page(0x00),
        long_model(0xe1, seq![0x00u8, 0x09, 0x0f, 0x0e, 0x07, 0x10, 0x0b, 0x0a, 0x04, 0x07, 0x0b, 0x08, 0x0f, 0x10, 0x0a, 0x01]),
        page(0x00),
        long_model(0xe2, seq![0x00u8, 0x09, 0x0f, 0x0e, 0x07, 0x10, 0x0b, 0x0a, 0x04, 0x07, 0x0b, 0x08, 0x0f, 0x10, 0x0a, 0x01])
    ]
}

/// Sleep out, the pause the panel needs after it, and the RGB888 pixel format.
pub open spec fn wake_steps() -> Seq<StepModel> {
    seq![
        short_model(OTM8009A_CMD_SLPOUT, 0x00),
        delay_model(120),
        short_model(OTM8009A_CMD_COLMOD, OTM8009A_COLMOD_RGB888)
    ]
}

/// Brightness, display control, CABC mode and minimum brightness, display on, and the start of memory write.
pub open spec fn display_on_steps() -> Seq<StepModel> {
    seq![
        short_model(OTM8009A_CMD_WRDISBV, 0x7f),
        short_model(OTM8009A_CMD_WRCTRLD, 0x2c),
        short_model(OTM8009A_CMD_WRCABC, 0x02),
        short_model(OTM8009A_CMD_WRCABCMB, 0xff),
        short_model(OTM8009A_CMD_DISPON, 0x00),
        page(0x00),
        short_model(OTM8009A_CMD_RAMWR, 0x00)
    ]
}

fn push_unlock(v: &mut Vec<Step>)
    ensures
        models(final(v)@) == models(old(v)@) + unlock_steps(),
{
    push_page(v, 0x00);
    push_long(v, 0xff, vec![0x80, 0x09, 0x01]);
    push_page(v, 0x80);
    push_long(v, 0xff, vec![0x80, 0x09]);
    assert(models(v@) =~= models(old(v)@) + unlock_steps());
}

fn push_precharge(v: &mut Vec<Step>)
    ensures
        models(final(v)@) == models(old(v)@) + precharge_steps(),
{
    push_page(v, 0x80);
    push_short(v, 0xc4, 0x30);
    push_delay(v, 10);
    push_page(v, 0x8a);
    push_short(v, 0xc4, 0x40);
    push_delay(v, 10);
    assert(models(v@) =~= models(old(v)@) + precharge_steps());
}

fn push_power(v: &mut Vec<Step>)
    ensures
        models(final(v)@) == models(old(v)@) + power_steps(),
{
    push_page(v, 0xb1);
    push_short(v, 0xc5, 0xa9);
    push_page(v, 0x91);
    push_short(v, 0xc5, 0x34);
    push_page(v, 0xb4);
    push_short(v, 0xc0, 0x50);
    push_page(v, 0x00);
    push_short(v, 0xd9, 0x4e);
    assert(models(v@) =~= models(old(v)@) + power_steps());
}

fn push_timing(v: &mut Vec<Step>)
    ensures
        models(final(v)@) == models(old(v)@) + timing_steps(),
{
    push_page(v, 0xa1);
    push_short(v, 0xc1, 0x08);
    push_page(v, 0x92);
    push_short(v, 0xc5, 0x01);
    push_page(v, 0x95);
    push_short(v, 0xc5, 0x34);
    push_page(v, 0x00);
    push_long(v, 0xd8, vec![0x79, 0x79]);
    push_page(v, 0x94);
    push_short(v, 0xc5, 0x33);
    push_page(v, 0xa3);
    push_short(v, 0xc0, 0x1b);
    push_page(v, 0x82);
    push_short(v, 0xc5, 0x83);
    push_page(v, 0x81);
    push_short(v, 0xc4, 0x83);
    push_page(v, 0xa1);
    push_short(v, 0xc1, 0x0e);
    push_page(v, 0xa6);
    push_long(v, 0xb3, vec![0x00, 0x01]);
    assert(models(v@) =~= models(old(v)@) + timing_steps());
}

fn push_goa(v: &mut Vec<Step>)
    ensures
        models(final(v)@) == models(old(v)@) + goa_steps(),
{
    push_page(v, 0x80);
    push_long(v, 0xce, vec![0x85, 0x01, 0x00, 0x84, 0x01, 0x00]);
    push_page(v, 0xa0);
    push_long(v, 0xce, vec![0x18, 0x04, 0x03, 0x39, 0x00, 0x00, 0x00, 0x18, 0x03, 0x03, 0x3a, 0x00, 0x00, 0x00]);
    push_page(v, 0xb0);
    push_long(v, 0xce, vec![0x18, 0x02, 0x03, 0x3b, 0x00, 0x00, 0x00, 0x18, 0x01, 0x03, 0x3c, 0x00, 0x00, 0x00]);
    push_page(v, 0xc0);
    push_long(v, 0xcf, vec![0x01, 0x01, 0x20, 0x20, 0x00, 0x00, 0x01, 0x02, 0x00, 0x00]);
    push_page(v, 0xd0);
    push_short(v, 0xcf, 0x00);
    assert(models(v@) =~= models(old(v)@) + goa_steps());
}

fn push_panel_control(v: &mut Vec<Step>)
    ensures
        models(final(v)@) == models(old(v)@) + panel_control_steps(),
{
    push_page(v, 0x80);
    push_long(v, 0xcb, vec![0x00, 0x00, 0x00, 0x00, 0x00, 0x00, 0x00, 0x00, 0x00, 0x00]);
    push_page(v, 0x90);
    push_long(v, 0xcb, vec![0x00, 0x00, 0x00, 0x00, 0x00, 0x00, 0x00, 0x00, 0x00, 0x00, 0x00, 0x00, 0x00, 0x00, 0x00]);
    push_page(v, 0xa0);
    push_long(v, 0xcb, vec![0x00, 0x00, 0x00, 0x00, 0x00, 0x00, 0x00, 0x00, 0x00, 0x00, 0x00, 0x00, 0x00, 0x00, 0x00]);
    push_page(v, 0xb0);
    push_long(v, 0xcb, vec![0x00, 0x00, 0x00, 0x00, 0x00, 0x00, 0x00, 0x00, 0x00, 0x00]);
    push_page(v, 0xc0);
    push_long(v, 0xcb, vec![0x00, 0x04, 0x04, 0x04, 0x04, 0x04, 0x00, 0x00, 0x00, 0x00, 0x00, 0x00, 0x00, 0x00, 0x00]);
    push_page(v, 0xd0);
    push_long(v, 0xcb, vec![0x00, 0x00, 0x00, 0x00, 0x00, 0x00, 0x04, 0x04, 0x04, 0x04, 0x04, 0x00, 0x00, 0x00, 0x00]);
    push_page(v, 0xe0);
    push_long(v, 0xcb, vec![0x00, 0x00, 0x00, 0x00, 0x00, 0x00, 0x00, 0x00, 0x00, 0x00]);
    push_page(v, 0xf0);
    push_long(v, 0xcb, vec![0xff, 0xff, 0xff, 0xff, 0xff, 0xff, 0xff, 0xff, 0xff, 0xff]);
    assert(models(v@) =~= models(old(v)@) + panel_control_steps());
}

fn push_panel_mapping(v: &mut Vec<Step>)
    ensures
        models(final(v)@) == models(old(v)@) + panel_mapping_steps(),
{
    push_page(v, 0x80);
    push_long(v, 0xcc, vec![0x00, 0x26, 0x09, 0x0b, 0x01, 0x25, 0x00, 0x00, 0x00, 0x00]);
    push_page(v, 0x90);
    push_long(v, 0xcc, vec![0x00, 0x00, 0x00, 0x00, 0x00, 0x00, 0x00, 0x00, 0x00, 0x00, 0x00, 0x26, 0x0a, 0x0c, 0x02]);
    push_page(v, 0xa0);
    push_long(v, 0xcc, vec![0x25, 0x00, 0x00, 0x00, 0x00, 0x00, 0x00, 0x00, 0x00, 0x00, 0x00, 0x00, 0x00, 0x00, 0x00]);
    push_page(v, 0xb0);
    push_long(v, 0xcc, vec![0x00, 0x25, 0x0c, 0x0a, 0x02, 0x26, 0x00, 0x00, 0x00, 0x00]);
    push_page(v, 0xc0);
    push_long(v, 0xcc, vec![0x00, 0x00, 0x00, 0x00, 0x00, 0x00, 0x00, 0x00, 0x00, 0x00, 0x00, 0x25, 0x0b, 0x09, 0x01]);
    push_page(v, 0xd0);
    push_long(v, 0xcc, vec![0x26, 0x00, 0x00, 0x00, 0x00, 0x00, 0x00, 0x00, 0x00, 0x00, 0x00, 0x00, 0x00, 0x00, 0x00]);
    assert(models(v@) =~= models(old(v)@) + panel_mapping_steps());
}

fn push_vendor_exit(v: &mut Vec<Step>)
    ensures
        models(final(v)@) == models(old(v)@) + vendor_exit_steps(),
{
    push_page(v, 0x81);
    push_short(v, 0xc5, 0x66);
    push_page(v, 0xb6);
    push_short(v, 0xf5, 0x06);
    push_page(v, 0xb1);
    push_short(v, 0xc6, 0x06);
    push_page(v, 0x00);
    push_long(v, 0xff, vec![0xff, 0xff, 0xff]);
    assert(models(v@) =~= models(old(v)@) + vendor_exit_steps());
}

fn push_gamma(v: &mut Vec<Step>)
    ensures
        models(final(v)@) == models(old(v)@) + gamma_steps(),
{
    push_page(v, 0x00);
    push_page(v, 0x00);
    push_long(v, 0xe1, vec![0x00, 0x09, 0x0f, 0x0e, 0x07, 0x10, 0x0b, 0x0a, 0x04, 0x07, 0x0b, 0x08, 0x0f, 0x10, 0x0a, 0x01]);
    push_page(v, 0x00);
    push_long(v, 0xe2, vec![0x00, 0x09, 0x0f, 0x0e, 0x07, 0x10, 0x0b, 0x0a, 0x04, 0x07, 0x0b, 0x08, 0x0f, 0x10, 0x0a, 0x01]);
    assert(models(v@) =~= models(old(v)@) + gamma_steps());
}

fn push_wake(v: &mut Vec<Step>)
    ensures
        models(final(v)@) == models(old(v)@) + wake_steps(),
{
    push_short(v, OTM8009A_CMD_SLPOUT, 0x00);
    push_delay(v, 120);
    push_short(v, OTM8009A_CMD_COLMOD, OTM8009A_COLMOD_RGB888);
    assert(models(v@) =~= models(old(v)@) + wake_steps());
}

fn push_display_on(v: &mut Vec<Step>)
    ensures
        models(final(v)@) == models(old(v)@) + display_on_steps(),
{
    push_short(v, OTM8009A_CMD_WRDISBV, 0x7f);
    push_short(v, OTM8009A_CMD_WRCTRLD, 0x2c);
    push_short(v, OTM8009A_CMD_WRCABC, 0x02);
    push_short(v, OTM8009A_CMD_WRCABCMB, 0xff);
    push_short(v, OTM8009A_CMD_DISPON, 0x00);
    push_page(v, 0x00);
    push_short(v, OTM8009A_CMD_RAMWR, 0x00);
    assert(models(v@) =~= models(old(v)@) + display_on_steps());
}

/// The frame-rate byte: the 3-bit oscillator code repeated in both nibbles,
/// because the two nibbles drive clock domains that must run together.
pub open spec fn frame_rate_byte(fr: FrameRate) -> u8 {
    fr.spec_code() | ((fr.spec_code() << 4u8) as u8)
}

/// The memory access control byte: the orientation's addressing bits, with
/// the BGR bit set for BGR channel order.
pub open spec fn madctr_byte(mode: Mode, color_map: ColorMap) -> u8 {
    let base = match mode {
        Mode::Portrait => OTM8009A_MADCTR_MODE_PORTRAIT,
        Mode::Landscape => OTM8009A_MADCTR_MODE_LANDSCAPE,
    };
    match color_map {
        ColorMap::Rgb => base,
        ColorMap::Bgr => base | OTM8009A_MADCTR_BGR,
    }
}

/// The parameter of an address window from 0 to `last`: two 16-bit
/// big-endian values, the start (always 0) and `last`.
pub open spec fn window(last: u16) -> Seq<u8> {
    seq![0u8, 0u8, (last / 256) as u8, (last % 256) as u8]
}

/// The two bytes of `x`, most significant first.
pub open spec fn be_bytes(x: u16) -> Seq<u8> {
    seq![(x / 256) as u8, (x % 256) as u8]
}

/// Oscillator adjustment for idle and normal mode.
pub open spec fn frame_rate_steps(fr: FrameRate) -> Seq<StepModel> {
    seq![page(0x81), short_model(0xc1, frame_rate_byte(fr))]
}

/// Memory access control, then the column and the row address windows.
pub open spec fn addressing_steps(config: Otm8009AConfig) -> Seq<StepModel> {
    seq![
        short_model(OTM8009A_CMD_MADCTR, madctr_byte(config.mode, config.color_map)),
        long_model(OTM8009A_CMD_CASET, window((config.cols - 1) as u16)),
        long_model(OTM8009A_CMD_PASET, window((config.rows - 1) as u16))
    ]
}

/// Every step of `init` for `config`, in order.
pub open spec fn init_trace(config: Otm8009AConfig) -> Seq<StepModel> {
    unlock_steps() + precharge_steps() + power_steps() + frame_rate_steps(config.frame_rate)
        + timing_steps() + goa_steps() + panel_control_steps() + panel_mapping_steps()
        + vendor_exit_steps() + gamma_steps() + wake_steps() + addressing_steps(config)
        + display_on_steps()
}

/// Computes the frame-rate byte of `fr`.
pub fn frame_rate_value(fr: FrameRate) -> (r: u8)
    ensures
        r == frame_rate_byte(fr),
        r == fr.spec_code() * 17,
{
    let v = fr.code();
    let r = v | (v << 4u8);
    assert(v < 8u8 ==> (v | ((v << 4u8) as u8)) == v * 17u8) by (bit_vector);
    r
}

/// Computes the memory access control byte.
pub fn madctr_value(mode: Mode, color_map: ColorMap) -> (r: u8)
    ensures
        r == madctr_byte(mode, color_map),
        mode == Mode::Portrait && color_map == ColorMap::Rgb ==> r == 0x00,
        mode == Mode::Landscape && color_map == ColorMap::Rgb ==> r == 0x60,
        mode == Mode::Portrait && color_map == ColorMap::Bgr ==> r == 0x08,
        mode == Mode::Landscape && color_map == ColorMap::Bgr ==> r == 0x68,
{
    assert(0x00u8 | 0x08u8 == 0x08u8) by (bit_vector);
    assert(0x60u8 | 0x08u8 == 0x68u8) by (bit_vector);
    let base = match mode {
        Mode::Portrait => OTM8009A_MADCTR_MODE_PORTRAIT,
        Mode::Landscape => OTM8009A_MADCTR_MODE_LANDSCAPE,
    };
    match color_map {
        ColorMap::Rgb => base,
        ColorMap::Bgr => base | OTM8009A_MADCTR_BGR,
    }
}

/// Computes the two bytes of `x`, most significant first.
pub fn to_be_bytes(x: u16) -> (r: Vec<u8>)
    ensures
        r@ == be_bytes(x),
{
    vec![(x / 256) as u8, (x % 256) as u8]
}

/// Computes the parameter of the address window from 0 to `last`.
pub fn window_value(last: u16) -> (r: Vec<u8>)
    ensures
        r@ == window(last),
{
    vec![0, 0, (last / 256) as u8, (last % 256) as u8]
}

fn push_frame_rate(v: &mut Vec<Step>, fr: FrameRate)
    ensures
        models(final(v)@) == models(old(v)@) + frame_rate_steps(fr),
{
    push_page(v, 0x81);
    push_short(v, 0xc1, frame_rate_value(fr));
    assert(models(v@) =~= models(old(v)@) + frame_rate_steps(fr));
}

fn push_addressing(v: &mut Vec<Step>, config: &Otm8009AConfig)
    requires
        config.valid(),
    ensures
        models(final(v)@) == models(old(v)@) + addressing_steps(*config),
{
    push_short(v, OTM8009A_CMD_MADCTR, madctr_value(config.mode, config.color_map));
    push_long(v, OTM8009A_CMD_CASET, window_value(config.cols - 1));
    push_long(v, OTM8009A_CMD_PASET, window_value(config.rows - 1));
    assert(models(v@) =~= models(old(v)@) + addressing_steps(*config));
}

/// The length of the longest ramp that the memory check writes.
pub const MEMORY_CHECK_MAX: usize = 17;

/// The ramp 1, 2, ..., `n`.
pub open spec fn ramp(n: nat) -> Seq<u8> {
    Seq::new(n, |i: int| (i + 1) as u8)
}

/// The steps of the memory check: for each length from 17 down to 1, a GRAM
/// write of the ramp of that length, then a GRAM read of as many bytes.
pub open spec fn memory_check_trace() -> Seq<StepModel> {
    Seq::new(
        2 * MEMORY_CHECK_MAX as nat,
        |i: int|
            if i % 2 == 0 {
                long_model(OTM8009A_CMD_RAMWR, ramp((MEMORY_CHECK_MAX - i / 2) as nat))
            } else {
                read_model(OTM8009A_CMD_RAMRD, (MEMORY_CHECK_MAX - i / 2) as nat)
            },
    )
}

/// The steps that enable the tearing effect output at scan line `on_line`.
pub open spec fn te_output_trace(on_line: u16) -> Seq<StepModel> {
    seq![
        long_model(OTM8009A_CMD_WRTESCN, be_bytes(on_line)),
        short_model(OTM8009A_CMD_TEEON, OTM8009A_TEEON_TELOM_VBLANKING_INFO_ONLY)
    ]
}

/// The panel driver. It holds no state: everything lives in the panel itself.
pub struct Otm8009A {}

impl Otm8009A {
    pub fn new() -> (r: Otm8009A)
        ensures
            r == (Otm8009A {}),
    {
        Otm8009A {}
    }

    /// The steps that bring the panel from reset to streaming video.
    pub fn init_steps(&self, config: &Otm8009AConfig) -> (r: Vec<Step>)
        requires
            config.valid(),
        ensures
            models(r@) == init_trace(*config),
    {
        let mut v: Vec<Step> = Vec::new();
        push_unlock(&mut v);
        push_precharge(&mut v);
        push_power(&mut v);
        push_frame_rate(&mut v, config.frame_rate);
        push_timing(&mut v);
        push_goa(&mut v);
        push_panel_control(&mut v);
        push_panel_mapping(&mut v);
        push_vendor_exit(&mut v);
        push_gamma(&mut v);
        push_wake(&mut v);
        push_addressing(&mut v, config);
        push_display_on(&mut v);
        assert(models(v@) =~= init_trace(*config));
        v
    }

    /// Starts the initialisation of the panel for `config`.
    pub fn init<E>(&mut self, config: Otm8009AConfig) -> (r: Session<E>)
        requires
            config.valid(),
        ensures
            r@ == SessionModel::<E>::start(init_trace(config)),
    {
        Session::new(self.init_steps(&config))
    }

    /// Starts enabling the tearing effect output, on vertical blanking only,
    /// at scan line `on_line`.
    pub fn enable_te_output<E>(&mut self, on_line: u16) -> (r: Session<E>)
        ensures
            r@ == SessionModel::<E>::start(te_output_trace(on_line)),
    {
        let mut v: Vec<Step> = Vec::new();
        push_long(&mut v, OTM8009A_CMD_WRTESCN, to_be_bytes(on_line));
        push_short(&mut v, OTM8009A_CMD_TEEON, OTM8009A_TEEON_TELOM_VBLANKING_INFO_ONLY);
        assert(models(v@) =~= te_output_trace(on_line));
        Session::new(v)
    }

    /// The read of the ID1 register, one byte.
    pub fn id_read(&self) -> (r: Step)
        ensures
            r@ == read_model(OTM8009A_CMD_ID1, 1),
    {
        Step::Read { cmd: OTM8009A_CMD_ID1, len: 1 }
    }

    /// Whether the byte read from ID1 identifies an OTM8009A; a failed read
    /// is passed on as it is.
    pub fn id_matches<E>(&mut self, read: Result<u8, E>) -> (r: Result<bool, E>)
        ensures
            r == match read {
                Ok(b) => Ok::<bool, E>(b == OTM8009A_ID1),
                Err(e) => Err::<bool, E>(e),
            },
    {
        match read {
            Ok(b) => Ok(b == OTM8009A_ID1),
            Err(e) => Err(e),
        }
    }

    /// The steps of the memory check.
    pub fn memory_check_steps(&self) -> (r: Vec<Step>)
        ensures
            models(r@) == memory_check_trace(),
    {
        let mut v: Vec<Step> = Vec::new();
        let mut n: usize = MEMORY_CHECK_MAX;
        while n > 0
            invariant
                n <= MEMORY_CHECK_MAX,
                models(v@) == memory_check_trace().take(2 * (MEMORY_CHECK_MAX - n)),
            decreases n,
        {
            let mut buf: Vec<u8> = Vec::new();
            let mut i: usize = 0;
            while i < n
                invariant
                    i <= n <= MEMORY_CHECK_MAX,
                    buf@ == ramp(i as nat),
                decreases n - i,
            {
                buf.push((i + 1) as u8);
                i = i + 1;
                assert(buf@ =~= ramp(i as nat));
            }
            let ghost before = models(v@);
            push_long(&mut v, OTM8009A_CMD_RAMWR, buf);
            push_read(&mut v, OTM8009A_CMD_RAMRD, n);
            n = n - 1;
            assert(models(v@) =~= memory_check_trace().take(2 * (MEMORY_CHECK_MAX - n)));
        }
        assert(memory_check_trace().take(2 * MEMORY_CHECK_MAX as int) =~= memory_check_trace());
        v
    }

    /// Starts the memory check: GRAM writes and reads whose content is not
    /// compared, so only transport failures make it fail.
    pub fn memory_check<E>(&mut self) -> (r: Session<E>)
        ensures
            r@ == SessionModel::<E>::start(memory_check_trace()),
    {
        Session::new(self.memory_check_steps())
    }
}

/// `init` programs the frame rate by selecting page 0x81 and writing the
/// 3-bit oscillator code `v` of the configured rate as `v | (v << 4)` to
/// register 0xC1.
pub proof fn lemma_init_frame_rate(config: Otm8009AConfig)
    requires
        config.valid(),
    ensures
        init_trace(config)[18] == page(0x81),
        init_trace(config)[19] == short_model(
            0xc1,
            config.frame_rate.spec_code() | ((config.frame_rate.spec_code() << 4u8) as u8),
        ),
{
}

/// `init` writes the memory access control byte that the orientation and the
/// colour order select: 0x00 for portrait RGB, 0x60 for landscape RGB, 0x08
/// for portrait BGR and 0x68 for landscape BGR.
pub proof fn lemma_init_madctr(config: Otm8009AConfig)
    requires
        config.valid(),
    ensures
        init_trace(config)[94] == short_model(
            OTM8009A_CMD_MADCTR,
            madctr_byte(config.mode, config.color_map),
        ),
        madctr_byte(Mode::Portrait, ColorMap::Rgb) == 0x00,
        madctr_byte(Mode::Landscape, ColorMap::Rgb) == 0x60,
        madctr_byte(Mode::Portrait, ColorMap::Bgr) == 0x08,
        madctr_byte(Mode::Landscape, ColorMap::Bgr) == 0x68,
{
    assert(0x00u8 | 0x08u8 == 0x08u8) by (bit_vector);
    assert(0x60u8 | 0x08u8 == 0x68u8) by (bit_vector);
}

/// `init` sets the column window to end at `cols - 1` and the row window to
/// end at `rows - 1`, each as the last two bytes of a 4-byte parameter, most
/// significant byte first.
pub proof fn lemma_init_windows(config: Otm8009AConfig)
    requires
        config.valid(),
    ensures
        init_trace(config)[95] == long_model(
            OTM8009A_CMD_CASET,
            seq![0u8, 0u8, ((config.cols - 1) / 256) as u8, ((config.cols - 1) % 256) as u8],
        ),
        init_trace(config)[96] == long_model(
            OTM8009A_CMD_PASET,
            seq![0u8, 0u8, ((config.rows - 1) / 256) as u8, ((config.rows - 1) % 256) as u8],
        ),
{
}

/// Apart from the frame-rate byte, the memory access control byte and the two
/// address windows, `init` issues the same 104 steps in the same order for
/// every configuration.
pub proof fn lemma_init_fixed_part(a: Otm8009AConfig, b: Otm8009AConfig)
    requires
        a.valid(),
        b.valid(),
    ensures
        init_trace(a).len() == 104,
        init_trace(b).len() == 104,
        forall|i: int|
            0 <= i < 104 && i != 19 && !(94 <= i <= 96) ==> init_trace(a)[i] == init_trace(b)[i],
{
    assert forall|i: int| 0 <= i < 104 && i != 19 && !(94 <= i <= 96) implies init_trace(a)[i]
        == init_trace(b)[i] by {
    }
}

/// The memory check is 17 GRAM writes, each followed by a GRAM read of the
/// same length, with lengths 17, 16, ..., 1 in that order; each write carries
/// the ramp 1, 2, ... of its length.
pub proof fn lemma_memory_check_shape()
    ensures
        memory_check_trace().len() == 34,
        forall|j: int|
            0 <= j < 17 ==> #[trigger] memory_check_trace()[2 * j] == long_model(
                OTM8009A_CMD_RAMWR,
                ramp((17 - j) as nat),
            ) && memory_check_trace()[2 * j + 1] == read_model(OTM8009A_CMD_RAMRD, (17 - j) as nat),
        forall|n: nat, i: int| 0 <= i < n <= 17 ==> #[trigger] ramp(n)[i] == i + 1,
{
    assert forall|j: int| 0 <= j < 17 implies #[trigger] memory_check_trace()[2 * j] == long_model(
        OTM8009A_CMD_RAMWR,
        ramp((17 - j) as nat),
    ) && memory_check_trace()[2 * j + 1] == read_model(OTM8009A_CMD_RAMRD, (17 - j) as nat) by {
        assert((2 * j) % 2 == 0 && (2 * j) / 2 == j);
        assert((2 * j + 1) % 2 == 1 && (2 * j + 1) / 2 == j);
    }
}

/// If the transport accepts the first `k` steps of `init` and rejects step
/// `k` with `e`, `init` hands out no step after it and returns `e`.
pub proof fn lemma_init_first_failure<E>(
    config: Otm8009AConfig,
    outcomes: Seq<Result<(), E>>,
    k: nat,
    e: E,
)
    requires
        config.valid(),
        k < init_trace(config).len(),
        k < outcomes.len(),
        forall|i: int| 0 <= i < k ==> outcomes[i] is Ok,
        outcomes[k as int] == Err::<(), E>(e),
    ensures
        SessionModel::<E>::start(init_trace(config)).feed(outcomes).issued == k + 1,
        SessionModel::<E>::start(init_trace(config)).feed(outcomes).pending() is None,
        SessionModel::<E>::start(init_trace(config)).feed(outcomes).result() == Err::<(), E>(e),
{
    lemma_first_failure_ends(init_trace(config), outcomes, k, e);
}

/// The memory check succeeds if and only if the transport accepts all 34 of
/// its writes and reads; what the reads return plays no part.
pub proof fn lemma_memory_check_result<E>(outcomes: Seq<Result<(), E>>)
    requires
        outcomes.len() >= 34,
    ensures
        SessionModel::<E>::start(memory_check_trace()).feed(outcomes).pending() is None,
        SessionModel::<E>::start(memory_check_trace()).feed(outcomes).result() is Ok
            <==> forall|i: int| 0 <= i < 34 ==> outcomes[i] is Ok,
{
    lemma_memory_check_shape();
    let steps = memory_check_trace();
    if forall|i: int| 0 <= i < 34 ==> outcomes[i] is Ok {
        lemma_all_accepted_succeeds(steps, outcomes);
    } else {
        let k = choose|k: int| 0 <= k < 34 && !(outcomes[k] is Ok);
        lemma_first_failure_before(outcomes, k);
        let j = choose|j: int|
            0 <= j < 34 && !(outcomes[j] is Ok) && forall|i: int| 0 <= i < j ==> outcomes[i] is Ok;
        lemma_first_failure_ends(steps, outcomes, j as nat, outcomes[j]->Err_0);
    }
}

proof fn lemma_first_failure_before<E>(outcomes: Seq<Result<(), E>>, k: int)
    requires
        0 <= k < outcomes.len(),
        !(outcomes[k] is Ok),
    ensures
        exists|j: int|
            0 <= j <= k && !(outcomes[j] is Ok) && forall|i: int| 0 <= i < j ==> outcomes[i] is Ok,
    decreases k,
{
    if exists|i: int| 0 <= i < k && !(outcomes[i] is Ok) {
        let i = choose|i: int| 0 <= i < k && !(outcomes[i] is Ok);
        lemma_first_failure_before(outcomes, i);
    } else {
        assert(forall|i: int| 0 <= i < k ==> outcomes[i] is Ok);
    }
}

} // verus!
