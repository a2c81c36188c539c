//! Register addresses and parameter values of the OTM8009A command set.

use vstd::prelude::*;

verus! {

/// No operation; in vendor mode its parameter selects the register page.
pub const OTM8009A_CMD_NOP: u8 = 0x00;
/// Software reset.
pub const OTM8009A_CMD_SWRESET: u8 = 0x01;
/// Read the memory access control byte.
pub const OTM8009A_CMD_RDDMADCTL: u8 = 0x0B;
/// Read the pixel format.
pub const OTM8009A_CMD_RDDCOLMOD: u8 = 0x0C;
/// Sleep in.
pub const OTM8009A_CMD_SLPIN: u8 = 0x10;
/// Sleep out.
pub const OTM8009A_CMD_SLPOUT: u8 = 0x11;
/// Partial mode on.
pub const OTM8009A_CMD_PTLON: u8 = 0x12;
/// Display off.
pub const OTM8009A_CMD_DISPOFF: u8 = 0x28;
/// Display on.
pub const OTM8009A_CMD_DISPON: u8 = 0x29;
/// Column address set.
pub const OTM8009A_CMD_CASET: u8 = 0x2A;
/// Page (row) address set.
pub const OTM8009A_CMD_PASET: u8 = 0x2B;
/// Memory (GRAM) write.
pub const OTM8009A_CMD_RAMWR: u8 = 0x2C;
/// Memory (GRAM) read.
pub const OTM8009A_CMD_RAMRD: u8 = 0x2E;
/// Partial area, four parameters.
pub const OTM8009A_CMD_PLTAR: u8 = 0x30;
/// Tearing effect line off.
pub const OTM8009A_CMD_TEOFF: u8 = 0x34;
/// Tearing effect line on, one parameter (output mode).
pub const OTM8009A_CMD_TEEON: u8 = 0x35;
/// Tearing effect output on vertical blanking only.
pub const OTM8009A_TEEON_TELOM_VBLANKING_INFO_ONLY: u8 = 0x00;
/// Tearing effect output on vertical and horizontal blanking.
pub const OTM8009A_TEEON_TELOM_VBLANKING_AND_HBLANKING_INFO: u8 = 0x01;
/// Memory access control.
pub const OTM8009A_CMD_MADCTR: u8 = 0x36;
/// Memory access control value for portrait addressing.
pub const OTM8009A_MADCTR_MODE_PORTRAIT: u8 = 0x00;
/// Memory access control value for landscape addressing (MX = 1, MV = 1).
pub const OTM8009A_MADCTR_MODE_LANDSCAPE: u8 = 0x60;
/// Memory access control bit that selects BGR channel order.
pub const OTM8009A_MADCTR_BGR: u8 = 0x08;
/// Idle mode off.
pub const OTM8009A_CMD_IDMOFF: u8 = 0x38;
/// Idle mode on.
pub const OTM8009A_CMD_IDMON: u8 = 0x39;
/// Interface pixel format.
pub const OTM8009A_CMD_COLMOD: u8 = 0x3A;
/// Pixel format RGB565.
pub const OTM8009A_COLMOD_RGB565: u8 = 0x55;
/// Pixel format RGB888.
pub const OTM8009A_COLMOD_RGB888: u8 = 0x77;
/// Pixel format RGB888, three transfers.
pub const OTM8009A_COLMOD_RGB888_3T: u8 = 0xE7;
/// Memory write continue.
pub const OTM8009A_CMD_RAMWRC: u8 = 0x3C;
/// Memory read continue.
pub const OTM8009A_CMD_RAMRDC: u8 = 0x3E;
/// Write tearing effect scan line.
pub const OTM8009A_CMD_WRTESCN: u8 = 0x44;
/// Read tearing effect scan line.
pub const OTM8009A_CMD_RDSCNL: u8 = 0x45;
/// Write display brightness.
pub const OTM8009A_CMD_WRDISBV: u8 = 0x51;
/// Write display control.
pub const OTM8009A_CMD_WRCTRLD: u8 = 0x53;
/// Write content adaptive brightness control mode.
pub const OTM8009A_CMD_WRCABC: u8 = 0x55;
/// Write CABC minimum brightness.
pub const OTM8009A_CMD_WRCABCMB: u8 = 0x5E;
/// Read ID1.
pub const OTM8009A_CMD_ID1: u8 = 0xDA;
/// Read ID2.
pub const OTM8009A_CMD_ID2: u8 = 0xDB;
/// Read ID3.
pub const OTM8009A_CMD_ID3: u8 = 0xDC;
/// The ID1 value of an OTM8009A.
pub const OTM8009A_ID1: u8 = 0x40;

} // verus!
