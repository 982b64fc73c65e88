//! Register map of the acquisition FPGA: the Control and Status bitfields,
//! the AXI-Stream FIFO block through which all SPI/I2C traffic is tunnelled,
//! and the register addresses of the HMCAD1520 ADC.

use vstd::prelude::*;

verus! {

/// Control register offset in the user BAR.
pub const ADDR_CONTROL: usize = 0x0;

/// Status register offset in the user BAR.
pub const ADDR_STATUS: usize = 0x8;

/// FIFO interrupt status register.
pub const ADDR_FIFO_ISR: usize = 0x00020000;

/// FIFO interrupt enable register.
pub const ADDR_FIFO_IER: usize = 0x00020004;

/// FIFO transmit reset register.
pub const ADDR_FIFO_TDFR: usize = 0x00020008;

/// FIFO transmit vacancy register.
pub const ADDR_FIFO_TDFV: usize = 0x0002000c;

/// FIFO transmit data register.
pub const ADDR_FIFO_TDFD: usize = 0x00020010;

/// FIFO transmit length register.
pub const ADDR_FIFO_TLR: usize = 0x00020014;

// Control register bits.
pub const CTRL_DATAMOVER_HALT_N: u32 = 0x00000001;

pub const CTRL_FPGA_ACQ_RESET_N: u32 = 0x00000002;

pub const CTRL_CHANNEL_MUX_0: u32 = 0x00000010;

pub const CTRL_CHANNEL_MUX_1: u32 = 0x00000020;

pub const CTRL_RAIL_3V3_ENABLED: u32 = 0x01000000;

pub const CTRL_CLOCK_GEN_RESET_N: u32 = 0x02000000;

pub const CTRL_RAIL_5V_ENABLED: u32 = 0x04000000;

// Status register bits.
pub const STATUS_FIFO_OVERFLOW: u32 = 0x40000000;

pub const STATUS_DATAMOVER_ERROR: u32 = 0x80000000;

// FIFO interrupt status bits.
/// Transmit complete: at least one transmit has finished.
pub const FIFO_ISR_TC: u32 = 0x08000000;

/// Transmit packet overrun: a write hit a full transmit FIFO; the gateway
/// needs a reset to recover.
pub const FIFO_ISR_TPOE: u32 = 0x10000000;

/// The per-channel termination relay bit: bits 12 to 15 of Control.
pub open spec fn spec_ch_termination(index: int) -> u32 {
    if index == 0 {
        0x1000u32
    } else if index == 1 {
        0x2000u32
    } else if index == 2 {
        0x4000u32
    } else {
        0x8000u32
    }
}

/// The per-channel attenuator relay bit: bits 16 to 19 of Control.
pub open spec fn spec_ch_attenuator(index: int) -> u32 {
    if index == 0 {
        0x10000u32
    } else if index == 1 {
        0x20000u32
    } else if index == 2 {
        0x40000u32
    } else {
        0x80000u32
    }
}

/// The per-channel coupling relay bit: bits 20 to 23 of Control.
pub open spec fn spec_ch_coupling(index: int) -> u32 {
    if index == 0 {
        0x100000u32
    } else if index == 1 {
        0x200000u32
    } else if index == 2 {
        0x400000u32
    } else {
        0x800000u32
    }
}

/// A value of the Control register.
#[derive(Debug, Clone, Copy, PartialEq, Eq, Structural)]
pub struct Control {
    pub bits: u32,
}

impl Control {
    pub fn ch_termination(index: usize) -> (r: Control)
        requires
            index < 4,
        ensures
            r.bits == spec_ch_termination(index as int),
    {
        match index {
            0 => Control { bits: 0x1000 },
            1 => Control { bits: 0x2000 },
            2 => Control { bits: 0x4000 },
            _ => Control { bits: 0x8000 },
        }
    }

    pub fn ch_coupling(index: usize) -> (r: Control)
        requires
            index < 4,
        ensures
            r.bits == spec_ch_coupling(index as int),
    {
        match index {
            0 => Control { bits: 0x100000 },
            1 => Control { bits: 0x200000 },
            2 => Control { bits: 0x400000 },
            _ => Control { bits: 0x800000 },
        }
    }

    pub fn ch_attenuator(index: usize) -> (r: Control)
        requires
            index < 4,
        ensures
            r.bits == spec_ch_attenuator(index as int),
    {
        match index {
            0 => Control { bits: 0x10000 },
            1 => Control { bits: 0x20000 },
            2 => Control { bits: 0x40000 },
            _ => Control { bits: 0x80000 },
        }
    }
}

/// How many full 4 KiB pages the data mover has written, as reported in the
/// low 16 bits of the Status register.
pub open spec fn spec_pages_moved(bits: u32) -> int {
    (bits & 0xFFFF) as int
}

/// How many cycles the FIFO spent in overflow, as reported in bits 16 to 29
/// of the Status register.
pub open spec fn spec_overflow_cycles(bits: u32) -> int {
    ((bits >> 16) & 0x3FFF) as int
}

/// A value of the Status register.
#[derive(Debug, Clone, Copy, PartialEq, Eq, Structural)]
pub struct Status {
    pub bits: u32,
}

impl Status {
    pub fn overflow_cycles(&self) -> (r: u32)
        ensures
            r == spec_overflow_cycles(self.bits),
    {
        (self.bits >> 16) & 0x3FFF
    }

    pub fn pages_moved(self) -> (r: usize)
        ensures
            r == spec_pages_moved(self.bits),
            r <= 0xFFFF,
    {
        proof {
            let b = self.bits;
            assert(b & 0xFFFF <= 0xFFFF) by (bit_vector);
        }
        (self.bits & 0xFFFF) as usize
    }
}

// Register addresses of the HMCAD1520 ADC, written over SPI bus 0.
pub const ADDR_HMCAD1520_RESET: u8 = 0x00;

pub const ADDR_HMCAD1520_POWER: u8 = 0x0F;

pub const ADDR_HMCAD1520_LVDS_DRIVE: u8 = 0x11;

pub const ADDR_HMCAD1520_INVERT: u8 = 0x24;

pub const ADDR_HMCAD1520_QUAD_GAIN: u8 = 0x2A;

pub const ADDR_HMCAD1520_DUAL_GAIN: u8 = 0x2B;

pub const ADDR_HMCAD1520_CHNUM_CLKDIV: u8 = 0x31;

pub const ADDR_HMCAD1520_GAIN_CFG: u8 = 0x33;

pub const ADDR_HMCAD1520_INSEL12: u8 = 0x3A;

pub const ADDR_HMCAD1520_INSEL34: u8 = 0x3B;

pub const ADDR_HMCAD1520_LVDS_PHASE: u8 = 0x42;

pub const ADDR_HMCAD1520_RES_SEL: u8 = 0x46;

pub const ADDR_HMCAD1520_FS_CNTRL: u8 = 0x55;

} // verus!
