//! Device controller: bring-up, configuration, shutdown and streaming.
//!
//! Talking to the hardware takes positional I/O against the device nodes,
//! which this crate does not perform itself. Instead, the controller computes
//! the exact sequence of register transactions that each operation performs:
//! user-register writes, fixed settling delays, and waits on the FIFO
//! transmit-complete flag. Alongside the plan it tracks a shadow of the
//! Control register and the log of SPI/I2C packets pushed through the FIFO
//! gateway, so that what each operation does to the register state is pinned
//! down. A thin executor outside the crate replays the plan against the
//! device nodes; the decisions that depend on values read back (the FIFO
//! completion poll and the streamer) are verified functions here that the
//! executor consults.

use vstd::prelude::*;

use crate::params::{ChannelParameters, DeviceParameters};
use crate::config::{Coupling, Termination};
use crate::params::CoarseAttenuation;
use crate::regs::{
    spec_ch_attenuator, spec_ch_coupling, spec_ch_termination, spec_pages_moved, ADDR_CONTROL,
    ADDR_FIFO_ISR, ADDR_FIFO_TDFD, ADDR_FIFO_TLR, ADDR_HMCAD1520_CHNUM_CLKDIV,
    ADDR_HMCAD1520_DUAL_GAIN, ADDR_HMCAD1520_FS_CNTRL, ADDR_HMCAD1520_GAIN_CFG,
    ADDR_HMCAD1520_INSEL12, ADDR_HMCAD1520_INSEL34, ADDR_HMCAD1520_INVERT,
    ADDR_HMCAD1520_LVDS_DRIVE, ADDR_HMCAD1520_LVDS_PHASE, ADDR_HMCAD1520_POWER,
    ADDR_HMCAD1520_QUAD_GAIN, ADDR_HMCAD1520_RESET, ADDR_HMCAD1520_RES_SEL, CTRL_CHANNEL_MUX_0,
    CTRL_CHANNEL_MUX_1, CTRL_CLOCK_GEN_RESET_N, CTRL_DATAMOVER_HALT_N, CTRL_FPGA_ACQ_RESET_N,
    CTRL_RAIL_3V3_ENABLED, CTRL_RAIL_5V_ENABLED, FIFO_ISR_TC, FIFO_ISR_TPOE,
    STATUS_DATAMOVER_ERROR, STATUS_FIFO_OVERFLOW,
};
use crate::Error;

verus! {

/// One register transaction against the device.
#[derive(Debug, Clone, Copy, PartialEq, Eq, Structural)]
pub enum Transaction {
    /// Write `data` to the user-register BAR at byte offset `addr`.
    UserWrite { addr: usize, data: u32 },
    /// Wait at least `micros` microseconds before the next transaction.
    DelayMicros { micros: u64 },
    /// Poll the FIFO interrupt status register until the transmit-complete
    /// bit is observed, consulting [`fifo_wait_decision`] on every value.
    AwaitFifoTc,
}

/// What an observed FIFO interrupt status value means for a pending packet.
#[derive(Debug, Clone, Copy, PartialEq, Eq, Structural)]
pub enum FifoWait {
    /// The packet was transmitted.
    Done,
    /// The packet is still in flight; poll again.
    Continue,
    /// The transmit FIFO overran; the device needs a power cycle.
    Fatal,
}

/// Classify a FIFO interrupt status value read while waiting for a packet to
/// leave: a transmit packet overrun is fatal, otherwise the transmit-complete
/// bit decides whether the wait is over.
pub fn fifo_wait_decision(isr: u32) -> (r: FifoWait)
    ensures
        r == FifoWait::Fatal <==> isr & FIFO_ISR_TPOE != 0,
        r == FifoWait::Done <==> (isr & FIFO_ISR_TPOE == 0 && isr & FIFO_ISR_TC != 0),
        r == FifoWait::Continue <==> (isr & FIFO_ISR_TPOE == 0 && isr & FIFO_ISR_TC == 0),
{
    if isr & FIFO_ISR_TPOE != 0 {
        FifoWait::Fatal
    } else if isr & FIFO_ISR_TC != 0 {
        FifoWait::Done
    } else {
        FifoWait::Continue
    }
}

/// `c` with the `clear` bits cleared and then the `set` bits set.
pub open spec fn spec_masked(c: u32, clear: u32, set: u32) -> u32 {
    (c & !clear) | set
}

/// The FIFO data-register writes that enqueue `data`, one 32-bit word per
/// payload byte (the gateway consumes only the low byte of each word).
pub open spec fn fifo_word_xacts(data: Seq<u8>) -> Seq<Transaction> {
    Seq::new(data.len(), |i: int| Transaction::UserWrite { addr: ADDR_FIFO_TDFD, data: data[i] as u32 })
}

/// The whole transaction sequence of one FIFO packet: the data words, the
/// packet length in bytes of FIFO datapath (4 per payload byte), the
/// clearing of the transmit-complete flag, and the completion wait.
pub open spec fn fifo_xacts(data: Seq<u8>) -> Seq<Transaction> {
    fifo_word_xacts(data).push(
        Transaction::UserWrite { addr: ADDR_FIFO_TLR, data: (data.len() * 4) as u32 },
    ).push(Transaction::UserWrite { addr: ADDR_FIFO_ISR, data: FIFO_ISR_TC }).push(
        Transaction::AwaitFifoTc,
    )
}

/// An I2C packet as the gateway expects it: the I2C selector byte, the
/// device address, then the payload.
pub open spec fn i2c_packet(i2c_addr: u8, data: Seq<u8>) -> Seq<u8> {
    seq![0xffu8, i2c_addr] + data
}

/// The transactions of one I2C write: the FIFO packet followed by the fixed
/// settling delay of 50 microseconds per payload byte (the I2C engine runs at
/// 400 kHz and does not use TLAST to detect packet boundaries).
pub open spec fn i2c_xacts(i2c_addr: u8, data: Seq<u8>) -> Seq<Transaction> {
    fifo_xacts(i2c_packet(i2c_addr, data)).push(
        Transaction::DelayMicros { micros: (50 * data.len()) as u64 },
    )
}

/// An SPI packet: the bus selector byte (`0xfd - bus`), then the payload.
pub open spec fn spi_packet(spi_bus: u8, data: Seq<u8>) -> Seq<u8> {
    seq![(253 - spi_bus) as u8] + data
}

/// The transactions of one SPI write: the FIFO packet followed by a flat
/// 10 microsecond delay, enough for 160 bytes at 16 MHz.
pub open spec fn spi_xacts(spi_bus: u8, data: Seq<u8>) -> Seq<Transaction> {
    fifo_xacts(spi_packet(spi_bus, data)).push(Transaction::DelayMicros { micros: 10 })
}

/// The I2C payload of one PLL register write.
pub open spec fn pll_payload(reg_addr: u16, value: u8) -> Seq<u8> {
    seq![0x02u8, (reg_addr >> 8) as u8, (reg_addr & 0xff) as u8, value]
}

/// The I2C packet of one PLL register write.
pub open spec fn pll_packet(reg_addr: u16, value: u8) -> Seq<u8> {
    i2c_packet(0b11101000, pll_payload(reg_addr, value))
}

/// The PLL register write encoded in one init word: the address in the high
/// bits, the value in the low byte.
pub open spec fn pll_word_packet(word: u32) -> Seq<u8> {
    pll_packet((word >> 8) as u16, (word & 0xff) as u8)
}

pub open spec fn pll_word_xacts(word: u32) -> Seq<Transaction> {
    i2c_xacts(0b11101000, pll_payload((word >> 8) as u16, (word & 0xff) as u8))
}

/// The SPI payload of one ADC register write.
pub open spec fn adc_payload(reg_addr: u8, value: u16) -> Seq<u8> {
    seq![reg_addr, (value >> 8) as u8, (value & 0xff) as u8]
}

/// The SPI packet of one ADC register write, on bus 0.
pub open spec fn adc_packet(reg_addr: u8, value: u16) -> Seq<u8> {
    spi_packet(0, adc_payload(reg_addr, value))
}

pub open spec fn adc_xacts(reg_addr: u8, value: u16) -> Seq<Transaction> {
    spi_xacts(0, adc_payload(reg_addr, value))
}

/// The transactions of a sequence of operations, one sub-sequence per item.
pub open spec fn concat_map<A>(s: Seq<A>, f: spec_fn(A) -> Seq<Transaction>) -> Seq<Transaction>
    decreases s.len(),
{
    if s.len() == 0 {
        Seq::empty()
    } else {
        concat_map(s.drop_last(), f) + f(s.last())
    }
}

proof fn lemma_concat_map_take_step<A>(s: Seq<A>, f: spec_fn(A) -> Seq<Transaction>, i: int)
    requires
        0 <= i < s.len(),
    ensures
        concat_map(s.take(i + 1), f) == concat_map(s.take(i), f) + f(s[i]),
{
    assert(s.take(i + 1).drop_last() =~= s.take(i));
    assert(s.take(i + 1).last() == s[i]);
}

proof fn lemma_map_take_step<A, B>(s: Seq<A>, f: spec_fn(A) -> B, i: int)
    requires
        0 <= i < s.len(),
    ensures
        s.take(i + 1).map_values(f) == s.take(i).map_values(f).push(f(s[i])),
{
    assert(s.take(i + 1).map_values(f) =~= s.take(i).map_values(f).push(f(s[i])));
}

/// The device controller. It owns the shadow of the Control register, the
/// plan of transactions not yet handed to the executor, and (in spec) the
/// log of peripheral packets sent through the FIFO gateway.
pub struct Device {
    control: u32,
    plan: Vec<Transaction>,
    packets: Ghost<Seq<Seq<u8>>>,
}

impl Device {
    /// The shadow of the Control register: the value it holds once the plan
    /// so far has been executed.
    pub closed spec fn spec_control(self) -> u32 {
        self.control
    }

    /// The transactions planned and not yet taken by the executor.
    pub closed spec fn spec_plan(self) -> Seq<Transaction> {
        self.plan@
    }

    /// Every peripheral packet sent through the FIFO gateway since the
    /// controller was created, oldest first.
    pub closed spec fn spec_packets(self) -> Seq<Seq<u8>> {
        self.packets@
    }

    /// A fresh controller: Control starts from the all-zero power-on state,
    /// with nothing planned and nothing sent.
    pub fn new() -> (r: Result<Device, Error>)
        ensures
            r matches Ok(d) && d.spec_control() == 0 && d.spec_plan() == Seq::<
                Transaction,
            >::empty() && d.spec_packets() == Seq::<Seq<u8>>::empty(),
    {
        Ok(Device { control: 0, plan: Vec::new(), packets: Ghost(Seq::empty()) })
    }

    /// The value the Control register holds once the plan so far has been
    /// executed.
    pub fn control(&self) -> (r: u32)
        ensures
            r == self.spec_control(),
    {
        self.control
    }

    /// Hand the planned transactions to the executor, leaving the plan empty.
    pub fn take_plan(&mut self) -> (r: Vec<Transaction>)
        ensures
            r@ == old(self).spec_plan(),
            final(self).spec_plan() == Seq::<Transaction>::empty(),
            final(self).spec_control() == old(self).spec_control(),
            final(self).spec_packets() == old(self).spec_packets(),
    {
        let mut taken = Vec::new();
        core::mem::swap(&mut taken, &mut self.plan);
        taken
    }

    /// Plan a write of `value` to the Control register and track it in the
    /// shadow.
    fn write_control(&mut self, value: u32)
        ensures
            final(self).spec_control() == value,
            final(self).spec_plan() == old(self).spec_plan().push(
                (Transaction::UserWrite { addr: ADDR_CONTROL, data: value }),
            ),
            final(self).spec_packets() == old(self).spec_packets(),
    {
        self.plan.push(Transaction::UserWrite { addr: ADDR_CONTROL, data: value });
        self.control = value;
    }

    /// Plan a read-modify-write of the Control register: clear the `clear`
    /// bits, set the `set` bits.
    fn modify_control(&mut self, clear: u32, set: u32)
        ensures
            final(self).spec_control() == spec_masked(old(self).spec_control(), clear, set),
            final(self).spec_plan() == old(self).spec_plan().push(
                (Transaction::UserWrite {
                    addr: ADDR_CONTROL,
                    data: spec_masked(old(self).spec_control(), clear, set),
                }),
            ),
            final(self).spec_packets() == old(self).spec_packets(),
    {
        let value = (self.control & !clear) | set;
        self.write_control(value);
    }

    /// Plan one FIFO packet: enqueue the payload into the transmit FIFO one
    /// word per byte, start transmission, clear the transmit-complete flag
    /// and wait for it to come back.
    fn write_fifo(&mut self, data: &[u8])
        requires
            data@.len() <= 0x100_0000,
        ensures
            final(self).spec_control() == old(self).spec_control(),
            final(self).spec_plan() == old(self).spec_plan() + fifo_xacts(data@),
            final(self).spec_packets() == old(self).spec_packets().push(data@),
    {
        let ghost plan0 = self.plan@;
        let mut i: usize = 0;
        while i < data.len()
            invariant
                i <= data@.len(),
                self.plan@ == plan0 + fifo_word_xacts(data@.take(i as int)),
                self.control == old(self).spec_control(),
                self.packets@ == old(self).spec_packets(),
            decreases data@.len() - i,
        {
            self.plan.push(Transaction::UserWrite { addr: ADDR_FIFO_TDFD, data: data[i] as u32 });
            proof {
                assert(fifo_word_xacts(data@.take(i + 1)) =~= fifo_word_xacts(
                    data@.take(i as int),
                ).push(Transaction::UserWrite { addr: ADDR_FIFO_TDFD, data: data@[i as int] as u32 }));
                assert(self.plan@ =~= plan0 + fifo_word_xacts(data@.take(i + 1)));
            }
            i += 1;
        }
        proof {
            assert(data@.take(data@.len() as int) =~= data@);
        }
        self.plan.push(Transaction::UserWrite { addr: ADDR_FIFO_TLR, data: (data.len() * 4) as u32 });
        self.plan.push(Transaction::UserWrite { addr: ADDR_FIFO_ISR, data: FIFO_ISR_TC });
        self.plan.push(Transaction::AwaitFifoTc);
        proof {
            self.packets@ = self.packets@.push(data@);
            assert(self.plan@ =~= plan0 + fifo_xacts(data@));
        }
    }

    /// Plan one I2C write through the FIFO gateway, with its settling delay.
    fn write_i2c(&mut self, i2c_addr: u8, data: &[u8])
        requires
            data@.len() <= 0x10_0000,
        ensures
            final(self).spec_control() == old(self).spec_control(),
            final(self).spec_plan() == old(self).spec_plan() + i2c_xacts(i2c_addr, data@),
            final(self).spec_packets() == old(self).spec_packets().push(
                i2c_packet(i2c_addr, data@),
            ),
    {
        let mut packet: Vec<u8> = Vec::new();
        packet.push(0xff);  // select I2C
        packet.push(i2c_addr);
        let mut i: usize = 0;
        while i < data.len()
            invariant
                i <= data@.len(),
                packet@ == seq![0xffu8, i2c_addr] + data@.take(i as int),
            decreases data@.len() - i,
        {
            packet.push(data[i]);
            proof {
                assert(packet@ =~= seq![0xffu8, i2c_addr] + data@.take(i + 1));
            }
            i += 1;
        }
        proof {
            assert(data@.take(data@.len() as int) =~= data@);
            assert(packet@ == i2c_packet(i2c_addr, data@));
        }
        self.write_fifo(packet.as_slice());
        self.plan.push(Transaction::DelayMicros { micros: 50 * (data.len() as u64) });
        proof {
            assert(self.plan@ =~= old(self).spec_plan() + i2c_xacts(i2c_addr, data@));
        }
    }

    /// Plan one SPI write through the FIFO gateway, with its settling delay.
    /// Bus 0 is the ADC; buses 2 to 5 are the four PGAs.
    fn write_spi(&mut self, spi_bus: u8, data: &[u8])
        requires
            spi_bus <= 5,
            data@.len() <= 0x10_0000,
        ensures
            final(self).spec_control() == old(self).spec_control(),
            final(self).spec_plan() == old(self).spec_plan() + spi_xacts(spi_bus, data@),
            final(self).spec_packets() == old(self).spec_packets().push(
                spi_packet(spi_bus, data@),
            ),
    {
        let mut packet: Vec<u8> = Vec::new();
        packet.push(0xfd - spi_bus);
        let mut i: usize = 0;
        while i < data.len()
            invariant
                i <= data@.len(),
                spi_bus <= 5,
                packet@ == seq![(253 - spi_bus) as u8] + data@.take(i as int),
            decreases data@.len() - i,
        {
            packet.push(data[i]);
            proof {
                assert(packet@ =~= seq![(253 - spi_bus) as u8] + data@.take(i + 1));
            }
            i += 1;
        }
        proof {
            assert(data@.take(data@.len() as int) =~= data@);
            assert(packet@ == spi_packet(spi_bus, data@));
        }
        self.write_fifo(packet.as_slice());
        self.plan.push(Transaction::DelayMicros { micros: 10 });
        proof {
            assert(self.plan@ =~= old(self).spec_plan() + spi_xacts(spi_bus, data@));
        }
    }

    /// Plan one PLL register write over I2C.
    fn write_pll_register(&mut self, reg_addr: u16, value: u8)
        ensures
            final(self).spec_control() == old(self).spec_control(),
            final(self).spec_plan() == old(self).spec_plan() + i2c_xacts(
                0b11101000,
                pll_payload(reg_addr, value),
            ),
            final(self).spec_packets() == old(self).spec_packets().push(
                pll_packet(reg_addr, value),
            ),
    {
        let payload: [u8; 4] = [
            0x02,  // register write
            (reg_addr >> 8) as u8,  // register address high
            (reg_addr & 0xff) as u8,  // register address low
            value,
        ];
        proof {
            assert(payload@ =~= pll_payload(reg_addr, value));
        }
        self.write_i2c(0b11101000, payload.as_slice());
    }

    /// Plan the PLL register writes of a whole init blob.
    fn init_pll_registers(&mut self, init_words: &[u32])
        ensures
            final(self).spec_control() == old(self).spec_control(),
            final(self).spec_plan() == old(self).spec_plan() + concat_map(
                init_words@,
                |w: u32| pll_word_xacts(w),
            ),
            final(self).spec_packets() == old(self).spec_packets() + init_words@.map_values(
                |w: u32| pll_word_packet(w),
            ),
    {
        let ghost plan0 = self.plan@;
        let ghost packets0 = self.packets@;
        let mut i: usize = 0;
        proof {
            assert(init_words@.take(0int).map_values(|w: u32| pll_word_packet(w)) =~= Seq::<
                Seq<u8>,
            >::empty());
            assert(packets0 + init_words@.take(0int).map_values(|w: u32| pll_word_packet(w))
                =~= packets0);
        }
        while i < init_words.len()
            invariant
                i <= init_words@.len(),
                self.control == old(self).spec_control(),
                self.plan@ == plan0 + concat_map(
                    init_words@.take(i as int),
                    |w: u32| pll_word_xacts(w),
                ),
                self.packets@ == packets0 + init_words@.take(i as int).map_values(
                    |w: u32| pll_word_packet(w),
                ),
            decreases init_words@.len() - i,
        {
            let word = init_words[i];
            self.write_pll_register((word >> 8) as u16, (word & 0xff) as u8);
            proof {
                lemma_concat_map_take_step(init_words@, |w: u32| pll_word_xacts(w), i as int);
                lemma_map_take_step(init_words@, |w: u32| pll_word_packet(w), i as int);
                assert(self.plan@ =~= plan0 + concat_map(
                    init_words@.take(i + 1),
                    |w: u32| pll_word_xacts(w),
                ));
                assert(self.packets@ =~= packets0 + init_words@.take(i + 1).map_values(
                    |w: u32| pll_word_packet(w),
                ));
            }
            i += 1;
        }
        proof {
            assert(init_words@.take(init_words@.len() as int) =~= init_words@);
        }
    }

    /// Plan one ADC register write over SPI bus 0.
    fn write_adc_register(&mut self, reg_addr: u8, value: u16)
        ensures
            final(self).spec_control() == old(self).spec_control(),
            final(self).spec_plan() == old(self).spec_plan() + adc_xacts(reg_addr, value),
            final(self).spec_packets() == old(self).spec_packets().push(
                adc_packet(reg_addr, value),
            ),
    {
        let payload: [u8; 3] = [reg_addr, (value >> 8) as u8, (value & 0xff) as u8];
        proof {
            assert(payload@ =~= adc_payload(reg_addr, value));
        }
        self.write_spi(0, payload.as_slice());
    }

    /// Plan the ADC register writes of a whole init table.
    fn init_adc_registers(&mut self, init_pairs: &[(u8, u16)])
        ensures
            final(self).spec_control() == old(self).spec_control(),
            final(self).spec_plan() == old(self).spec_plan() + concat_map(
                init_pairs@,
                |p: (u8, u16)| adc_xacts(p.0, p.1),
            ),
            final(self).spec_packets() == old(self).spec_packets() + init_pairs@.map_values(
                |p: (u8, u16)| adc_packet(p.0, p.1),
            ),
    {
        let ghost plan0 = self.plan@;
        let ghost packets0 = self.packets@;
        let mut i: usize = 0;
        proof {
            assert(packets0 + init_pairs@.take(0int).map_values(
                |p: (u8, u16)| adc_packet(p.0, p.1),
            ) =~= packets0);
        }
        while i < init_pairs.len()
            invariant
                i <= init_pairs@.len(),
                self.control == old(self).spec_control(),
                self.plan@ == plan0 + concat_map(
                    init_pairs@.take(i as int),
                    |p: (u8, u16)| adc_xacts(p.0, p.1),
                ),
                self.packets@ == packets0 + init_pairs@.take(i as int).map_values(
                    |p: (u8, u16)| adc_packet(p.0, p.1),
                ),
            decreases init_pairs@.len() - i,
        {
            let (reg_addr, value) = init_pairs[i];
            self.write_adc_register(reg_addr, value);
            proof {
                lemma_concat_map_take_step(init_pairs@, |p: (u8, u16)| adc_xacts(p.0, p.1), i as int);
                lemma_map_take_step(init_pairs@, |p: (u8, u16)| adc_packet(p.0, p.1), i as int);
                assert(self.plan@ =~= plan0 + concat_map(
                    init_pairs@.take(i + 1),
                    |p: (u8, u16)| adc_xacts(p.0, p.1),
                ));
                assert(self.packets@ =~= packets0 + init_pairs@.take(i + 1).map_values(
                    |p: (u8, u16)| adc_packet(p.0, p.1),
                ));
            }
            i += 1;
        }
        proof {
            assert(init_pairs@.take(init_pairs@.len() as int) =~= init_pairs@);
        }
    }
}

/// The SPI bus of each channel's PGA.
pub open spec fn spec_pga_bus(index: int) -> u8 {
    if index == 0 {
        2
    } else if index == 1 {
        3
    } else if index == 2 {
        4
    } else {
        5
    }
}

/// The LMH6518 command word for one channel: auxiliary output always off (to
/// keep the total current in check), plus the filter, preamp and ladder
/// attenuator fields.
pub open spec fn spec_pga_command(ch: ChannelParameters) -> u16 {
    0x400u16 | ch.filtering.spec_lmh6518_code() | ch.amplification.spec_lmh6518_code()
        | ch.fine_attenuation.spec_lmh6518_code()
}

/// The SPI payload of one PGA command-word write.
pub open spec fn pga_payload(command: u16) -> Seq<u8> {
    seq![0x00u8, (command >> 8) as u8, (command & 0xff) as u8]
}

/// The MCP4432 digipot command word: device address, a write opcode, and the
/// ten-bit wiper input.
pub open spec fn spec_digipot_command(addr: u8, input: u16) -> u16 {
    ((addr as u16) << 12) | (input & 0x3ff)
}

pub open spec fn digipot_payload(addr: u8, input: u16) -> Seq<u8> {
    seq![
        (spec_digipot_command(addr, input) >> 8) as u8,
        (spec_digipot_command(addr, input) & 0xff) as u8,
    ]
}

/// The first byte of an MCP4728 trim-DAC write: a multi-write opcode with the
/// DAC channel in bits 1 and 2.
pub open spec fn spec_trimdac_first_byte(channel: u8) -> u8 {
    0b01011000u8 | ((channel & 0b11) << 1)
}

pub open spec fn trimdac_payload(channel: u8, input: u16) -> Seq<u8> {
    seq![spec_trimdac_first_byte(channel), (input >> 8) as u8, (input & 0xff) as u8]
}

/// The digipot wiper register address of each channel.
pub open spec fn spec_wiper_address(index: int) -> u8 {
    if index == 0 {
        0x6
    } else if index == 1 {
        0x0
    } else if index == 2 {
        0x1
    } else {
        0x7
    }
}

/// The parameters applied to one channel slot: a disabled slot is programmed
/// with the default parameters.
pub open spec fn spec_slot_params(p: DeviceParameters, index: int) -> ChannelParameters {
    match p.channels@[index] {
        Some(ch) => ch,
        None => ChannelParameters::default_spec(),
    }
}

/// The Control bits configure clears for one channel: relays driven to the
/// 1 MOhm termination, AC coupling or 50X attenuation side.
pub open spec fn spec_ch_clear(index: int, ch: ChannelParameters) -> u32 {
    (if ch.termination == Termination::Ohm1M {
        spec_ch_termination(index)
    } else {
        0u32
    }) | (if ch.coupling == Coupling::AC {
        spec_ch_coupling(index)
    } else {
        0u32
    }) | (if ch.coarse_attenuation == CoarseAttenuation::X50 {
        spec_ch_attenuator(index)
    } else {
        0u32
    })
}

/// The Control bits configure sets for one channel: relays driven to the
/// 50 Ohm termination, DC coupling or 1X attenuation side.
pub open spec fn spec_ch_set(index: int, ch: ChannelParameters) -> u32 {
    (if ch.termination == Termination::Ohm50 {
        spec_ch_termination(index)
    } else {
        0u32
    }) | (if ch.coupling == Coupling::DC {
        spec_ch_coupling(index)
    } else {
        0u32
    }) | (if ch.coarse_attenuation == CoarseAttenuation::X1 {
        spec_ch_attenuator(index)
    } else {
        0u32
    })
}

pub open spec fn spec_ctrl_chan(c: u32, index: int, ch: ChannelParameters) -> u32 {
    spec_masked(c, spec_ch_clear(index, ch), spec_ch_set(index, ch))
}

pub open spec fn count4(e0: bool, e1: bool, e2: bool, e3: bool) -> int {
    (if e0 {
        1int
    } else {
        0int
    }) + (if e1 {
        1int
    } else {
        0int
    }) + (if e2 {
        1int
    } else {
        0int
    }) + (if e3 {
        1int
    } else {
        0int
    })
}

/// The highest-numbered enabled channel.
pub open spec fn highest4(e0: bool, e1: bool, e2: bool, e3: bool) -> int {
    if e3 {
        3
    } else if e2 {
        2
    } else if e1 {
        1
    } else {
        0
    }
}

/// The lowest-numbered enabled channel.
pub open spec fn lowest4(e0: bool, e1: bool, e2: bool, e3: bool) -> int {
    if e0 {
        0
    } else if e1 {
        1
    } else if e2 {
        2
    } else {
        3
    }
}

/// The FPGA channel-mux bits for the enabled channel count.
pub open spec fn spec_chmux(e0: bool, e1: bool, e2: bool, e3: bool) -> u32 {
    if count4(e0, e1, e2, e3) == 1 {
        0u32
    } else if count4(e0, e1, e2, e3) == 2 {
        CTRL_CHANNEL_MUX_0
    } else {
        CTRL_CHANNEL_MUX_1
    }
}

/// The ADC clock divisor (high byte) and channel count (low byte) for the
/// enabled channel count.
pub open spec fn spec_clkdiv_chnum(e0: bool, e1: bool, e2: bool, e3: bool) -> u16 {
    if count4(e0, e1, e2, e3) == 1 {
        0x0001u16
    } else if count4(e0, e1, e2, e3) == 2 {
        0x0102u16
    } else {
        0x0204u16
    }
}

/// The ADC input-select permutation. Faceplate channels CH1..CH4 land on the
/// ADC's inverted inputs IN4..IN1: one channel is replicated to all four
/// inputs; two channels interleave as (ch1, ch2, ch1, ch2); three or four use
/// the identity reversal.
pub open spec fn spec_insel(e0: bool, e1: bool, e2: bool, e3: bool) -> (int, int, int, int) {
    if count4(e0, e1, e2, e3) == 1 {
        let i = 3 - highest4(e0, e1, e2, e3);
        (i, i, i, i)
    } else if count4(e0, e1, e2, e3) == 2 {
        let lo = 3 - lowest4(e0, e1, e2, e3);
        let hi = 3 - highest4(e0, e1, e2, e3);
        (lo, lo, hi, hi)
    } else {
        (3, 2, 1, 0)
    }
}

pub open spec fn spec_insel12(e0: bool, e1: bool, e2: bool, e3: bool) -> u16 {
    (0x0200u16 << spec_insel(e0, e1, e2, e3).1) | (0x0002u16 << spec_insel(e0, e1, e2, e3).0)
}

pub open spec fn spec_insel34(e0: bool, e1: bool, e2: bool, e3: bool) -> u16 {
    (0x0200u16 << spec_insel(e0, e1, e2, e3).3) | (0x0002u16 << spec_insel(e0, e1, e2, e3).2)
}

/// The plan suffix of one ADC channel-selection reprogramming, appended to
/// `plan0`: power the ADC down, set the clock divisor and channel count,
/// power it back up, program the input selection, and point the FPGA channel
/// mux at the new layout.
pub open spec fn spec_adc_enable_plan(
    plan0: Seq<Transaction>,
    c0: u32,
    e0: bool,
    e1: bool,
    e2: bool,
    e3: bool,
) -> Seq<Transaction> {
    (plan0 + adc_xacts(ADDR_HMCAD1520_POWER, 0x0200) + adc_xacts(
        ADDR_HMCAD1520_CHNUM_CLKDIV,
        spec_clkdiv_chnum(e0, e1, e2, e3),
    ) + adc_xacts(ADDR_HMCAD1520_POWER, 0x0000) + adc_xacts(
        ADDR_HMCAD1520_INSEL12,
        spec_insel12(e0, e1, e2, e3),
    ) + adc_xacts(ADDR_HMCAD1520_INSEL34, spec_insel34(e0, e1, e2, e3))).push(
        (Transaction::UserWrite {
            addr: ADDR_CONTROL,
            data: spec_masked(
                c0,
                CTRL_CHANNEL_MUX_0 | CTRL_CHANNEL_MUX_1,
                spec_chmux(e0, e1, e2, e3),
            ),
        }),
    )
}

/// The packets of one ADC channel-selection reprogramming.
pub open spec fn spec_adc_enable_packets(
    pk0: Seq<Seq<u8>>,
    e0: bool,
    e1: bool,
    e2: bool,
    e3: bool,
) -> Seq<Seq<u8>> {
    pk0.push(adc_packet(ADDR_HMCAD1520_POWER, 0x0200)).push(
        adc_packet(ADDR_HMCAD1520_CHNUM_CLKDIV, spec_clkdiv_chnum(e0, e1, e2, e3)),
    ).push(adc_packet(ADDR_HMCAD1520_POWER, 0x0000)).push(
        adc_packet(ADDR_HMCAD1520_INSEL12, spec_insel12(e0, e1, e2, e3)),
    ).push(adc_packet(ADDR_HMCAD1520_INSEL34, spec_insel34(e0, e1, e2, e3)))
}

impl Device {
    /// Plan one PGA command-word write over the PGA's SPI bus.
    fn write_pga_command(&mut self, pga_bus: u8, command: u16)
        requires
            2 <= pga_bus <= 5,
        ensures
            final(self).spec_control() == old(self).spec_control(),
            final(self).spec_plan() == old(self).spec_plan() + spi_xacts(
                pga_bus,
                pga_payload(command),
            ),
            final(self).spec_packets() == old(self).spec_packets().push(
                spi_packet(pga_bus, pga_payload(command)),
            ),
    {
        let payload: [u8; 3] = [
            0x00,  // write command word
            (command >> 8) as u8,
            (command & 0xff) as u8,
        ];
        proof {
            assert(payload@ =~= pga_payload(command));
        }
        self.write_spi(pga_bus, payload.as_slice());
    }

    /// Plan the PGA programming of one channel; this turns the PGA's
    /// auxiliary output off.
    fn configure_pga(&mut self, index: usize, ch: &ChannelParameters)
        requires
            index < 4,
        ensures
            final(self).spec_control() == old(self).spec_control(),
            final(self).spec_plan() == old(self).spec_plan() + spi_xacts(
                spec_pga_bus(index as int),
                pga_payload(spec_pga_command(*ch)),
            ),
            final(self).spec_packets() == old(self).spec_packets().push(
                spi_packet(spec_pga_bus(index as int), pga_payload(spec_pga_command(*ch))),
            ),
    {
        let bus: u8 = match index {
            0 => 2,
            1 => 3,
            2 => 4,
            _ => 5,
        };
        let command: u16 = 0x400u16 | ch.filtering.lmh6518_code() | ch.amplification.lmh6518_code()
            | ch.fine_attenuation.lmh6518_code();
        self.write_pga_command(bus, command);
    }

    /// Plan one digipot wiper write over I2C.
    fn write_digipot_input(&mut self, addr: u8, input: u16)
        ensures
            final(self).spec_control() == old(self).spec_control(),
            final(self).spec_plan() == old(self).spec_plan() + i2c_xacts(
                0b0101100,
                digipot_payload(addr, input),
            ),
            final(self).spec_packets() == old(self).spec_packets().push(
                i2c_packet(0b0101100, digipot_payload(addr, input)),
            ),
    {
        let command_data: u16 = ((addr as u16) << 12)  // device address
        | (input & 0x3ff);  // write opcode 0b00 in bits 10 and 11
        let payload: [u8; 2] = [(command_data >> 8) as u8, (command_data & 0xff) as u8];
        proof {
            assert(payload@ =~= digipot_payload(addr, input));
        }
        self.write_i2c(0b0101100, payload.as_slice());
    }

    /// Plan one trim-DAC input write over I2C.
    fn write_trimdac_input(&mut self, channel: u8, input: u16)
        ensures
            final(self).spec_control() == old(self).spec_control(),
            final(self).spec_plan() == old(self).spec_plan() + i2c_xacts(
                0b1100000,
                trimdac_payload(channel, input),
            ),
            final(self).spec_packets() == old(self).spec_packets().push(
                i2c_packet(0b1100000, trimdac_payload(channel, input)),
            ),
    {
        let payload: [u8; 3] = [
            0b01011000u8 | ((channel & 0b11) << 1),
            (input >> 8) as u8,
            (input & 0xff) as u8,
        ];
        proof {
            assert(payload@ =~= trimdac_payload(channel, input));
        }
        self.write_i2c(0b1100000, payload.as_slice());
    }

    /// Plan the offset programming of one channel: the digipot wiper and the
    /// trim-DAC input, the latter with the Vref-selection bit always set.
    fn configure_digipot_trimdac(&mut self, index: usize, ch: &ChannelParameters)
        requires
            index < 4,
        ensures
            final(self).spec_control() == old(self).spec_control(),
            final(self).spec_plan() == old(self).spec_plan() + i2c_xacts(
                0b0101100,
                digipot_payload(
                    spec_wiper_address(index as int),
                    ch.offset_magnitude.spec_code(),
                ),
            ) + i2c_xacts(
                0b1100000,
                trimdac_payload(index as u8, 0x8000u16 | ch.offset_value.spec_code()),
            ),
            final(self).spec_packets() == old(self).spec_packets().push(
                i2c_packet(
                    0b0101100,
                    digipot_payload(
                        spec_wiper_address(index as int),
                        ch.offset_magnitude.spec_code(),
                    ),
                ),
            ).push(
                i2c_packet(
                    0b1100000,
                    trimdac_payload(index as u8, 0x8000u16 | ch.offset_value.spec_code()),
                ),
            ),
    {
        let wiper: u8 = match index {
            0 => 0x6,
            1 => 0x0,
            2 => 0x1,
            _ => 0x7,
        };
        self.write_digipot_input(wiper, ch.offset_magnitude.mcp4432t_503e_code());
        self.write_trimdac_input(
            index as u8,
            0x8000u16  // always use Vref as reference
            | ch.offset_value.mcp4728_code(),
        );
    }

    /// Plan taking the acquisition system out of reset.
    fn enable_datamover(&mut self)
        ensures
            final(self).spec_control() == spec_masked(
                old(self).spec_control(),
                0,
                CTRL_DATAMOVER_HALT_N | CTRL_FPGA_ACQ_RESET_N,
            ),
            final(self).spec_plan() == old(self).spec_plan().push(
                (Transaction::UserWrite {
                    addr: ADDR_CONTROL,
                    data: spec_masked(
                        old(self).spec_control(),
                        0,
                        CTRL_DATAMOVER_HALT_N | CTRL_FPGA_ACQ_RESET_N,
                    ),
                }),
            ),
            final(self).spec_packets() == old(self).spec_packets(),
    {
        self.modify_control(0, CTRL_DATAMOVER_HALT_N | CTRL_FPGA_ACQ_RESET_N);
    }

    /// Plan halting the data mover, waiting for it to stop, and resetting the
    /// acquisition subsystem.
    fn disable_datamover(&mut self)
        ensures
            final(self).spec_control() == spec_masked(
                spec_masked(old(self).spec_control(), CTRL_DATAMOVER_HALT_N, 0),
                CTRL_FPGA_ACQ_RESET_N,
                0,
            ),
            final(self).spec_plan() == old(self).spec_plan().push(
                (Transaction::UserWrite {
                    addr: ADDR_CONTROL,
                    data: spec_masked(old(self).spec_control(), CTRL_DATAMOVER_HALT_N, 0),
                }),
            ).push((Transaction::DelayMicros { micros: 5000 })).push(
                (Transaction::UserWrite {
                    addr: ADDR_CONTROL,
                    data: spec_masked(
                        spec_masked(old(self).spec_control(), CTRL_DATAMOVER_HALT_N, 0),
                        CTRL_FPGA_ACQ_RESET_N,
                        0,
                    ),
                }),
            ),
            final(self).spec_packets() == old(self).spec_packets(),
    {
        // halt the data mover
        self.modify_control(CTRL_DATAMOVER_HALT_N, 0);
        // wait for it to halt
        self.plan.push(Transaction::DelayMicros { micros: 5000 });
        // reset the acquisition subsystem
        self.modify_control(CTRL_FPGA_ACQ_RESET_N, 0);
    }

    /// Plan reprogramming the ADC channel count, clock divisor and input
    /// selection, and the FPGA channel mux, for the given set of enabled
    /// channels.
    fn enable_adc_channels(&mut self, enabled: [bool; 4])
        requires
            count4(enabled@[0], enabled@[1], enabled@[2], enabled@[3]) >= 1,
        ensures
            final(self).spec_control() == spec_masked(
                old(self).spec_control(),
                CTRL_CHANNEL_MUX_0 | CTRL_CHANNEL_MUX_1,
                spec_chmux(enabled@[0], enabled@[1], enabled@[2], enabled@[3]),
            ),
            final(self).spec_plan() == spec_adc_enable_plan(
                old(self).spec_plan(),
                old(self).spec_control(),
                enabled@[0],
                enabled@[1],
                enabled@[2],
                enabled@[3],
            ),
            final(self).spec_packets() == spec_adc_enable_packets(
                old(self).spec_packets(),
                enabled@[0],
                enabled@[1],
                enabled@[2],
                enabled@[3],
            ),
    {
        let ghost e0 = enabled@[0];
        let ghost e1 = enabled@[1];
        let ghost e2 = enabled@[2];
        let ghost e3 = enabled@[3];
        let mut count: usize = 0;
        if enabled[0] {
            count += 1;
        }
        if enabled[1] {
            count += 1;
        }
        if enabled[2] {
            count += 1;
        }
        if enabled[3] {
            count += 1;
        }
        proof {
            assert(count == count4(e0, e1, e2, e3));
        }
        // compute the number of enabled ADC channels, the ADC clock divisor
        // and the FPGA channel mux
        let clkdiv_chnum: u16 = if count == 1 {
            0x0001
        } else if count == 2 {
            0x0102
        } else {
            0x0204
        };
        let chmux: u32 = if count == 1 {
            0
        } else if count == 2 {
            CTRL_CHANNEL_MUX_0
        } else {
            CTRL_CHANNEL_MUX_1
        };
        // faceplate channels CH1..CH4 map to ADC inputs IN4..IN1, so the
        // input selection is a reversing permutation
        let highest: usize = if enabled[3] {
            3
        } else if enabled[2] {
            2
        } else if enabled[1] {
            1
        } else {
            0
        };
        let lowest: usize = if enabled[0] {
            0
        } else if enabled[1] {
            1
        } else if enabled[2] {
            2
        } else {
            3
        };
        let (i0, i1, i2, i3): (usize, usize, usize, usize) = if count == 1 {
            let i = 3 - highest;
            (i, i, i, i)
        } else if count == 2 {
            (3 - lowest, 3 - lowest, 3 - highest, 3 - highest)
        } else {
            (3, 2, 1, 0)
        };
        proof {
            assert((i0 as int, i1 as int, i2 as int, i3 as int) == spec_insel(e0, e1, e2, e3));
        }
        let insel12: u16 = (0x0200u16 << i1) | (0x0002u16 << i0);
        let insel34: u16 = (0x0200u16 << i3) | (0x0002u16 << i2);
        // reconfigure the ADC
        // power down the ADC
        self.write_adc_register(ADDR_HMCAD1520_POWER, 0x0200);
        // configure the clock divisor and channel count
        self.write_adc_register(ADDR_HMCAD1520_CHNUM_CLKDIV, clkdiv_chnum);
        // power up the ADC
        self.write_adc_register(ADDR_HMCAD1520_POWER, 0x0000);
        // configure the channel mapping
        self.write_adc_register(ADDR_HMCAD1520_INSEL12, insel12);
        self.write_adc_register(ADDR_HMCAD1520_INSEL34, insel34);
        // reconfigure the channel mux in the FPGA
        self.modify_control(CTRL_CHANNEL_MUX_0 | CTRL_CHANNEL_MUX_1, chmux);
    }
}

/// Whether one channel slot is enabled.
pub open spec fn spec_slot_enabled(p: DeviceParameters, index: int) -> bool {
    p.channels@[index] is Some
}

/// The Control register after the per-channel relay updates of a
/// configuration, starting from `c`.
pub open spec fn spec_ctrl_after_channels(c: u32, p: DeviceParameters) -> u32 {
    let c1 = spec_ctrl_chan(c, 0, spec_slot_params(p, 0));
    let c2 = spec_ctrl_chan(c1, 1, spec_slot_params(p, 1));
    let c3 = spec_ctrl_chan(c2, 2, spec_slot_params(p, 2));
    spec_ctrl_chan(c3, 3, spec_slot_params(p, 3))
}

/// The Control register after `configure` with parameters `p`, starting from
/// `c`: the per-channel relay bits, then the data mover halted and reset, the
/// channel mux pointed at the new layout, and the data mover released.
pub open spec fn spec_ctrl_after_configure(c: u32, p: DeviceParameters) -> u32 {
    let c4 = spec_ctrl_after_channels(c, p);
    let c5 = spec_masked(c4, CTRL_DATAMOVER_HALT_N, 0);
    let c6 = spec_masked(c5, CTRL_FPGA_ACQ_RESET_N, 0);
    let c7 = spec_masked(
        c6,
        CTRL_CHANNEL_MUX_0 | CTRL_CHANNEL_MUX_1,
        spec_chmux(
            spec_slot_enabled(p, 0),
            spec_slot_enabled(p, 1),
            spec_slot_enabled(p, 2),
            spec_slot_enabled(p, 3),
        ),
    );
    spec_masked(c7, 0, CTRL_DATAMOVER_HALT_N | CTRL_FPGA_ACQ_RESET_N)
}

/// The plan suffix of one `configure`, appended to `plan0` starting from
/// Control value `c0`.
pub open spec fn spec_configure_plan(
    plan0: Seq<Transaction>,
    c0: u32,
    p: DeviceParameters,
) -> Seq<Transaction> {
    let s0 = spec_slot_params(p, 0);
    let s1 = spec_slot_params(p, 1);
    let s2 = spec_slot_params(p, 2);
    let s3 = spec_slot_params(p, 3);
    let c1 = spec_ctrl_chan(c0, 0, s0);
    let c2 = spec_ctrl_chan(c1, 1, s1);
    let c3 = spec_ctrl_chan(c2, 2, s2);
    let c4 = spec_ctrl_chan(c3, 3, s3);
    let c5 = spec_masked(c4, CTRL_DATAMOVER_HALT_N, 0);
    let c6 = spec_masked(c5, CTRL_FPGA_ACQ_RESET_N, 0);
    let pgas = plan0 + spi_xacts(2, pga_payload(spec_pga_command(s0))) + spi_xacts(
        3,
        pga_payload(spec_pga_command(s1)),
    ) + spi_xacts(4, pga_payload(spec_pga_command(s2))) + spi_xacts(
        5,
        pga_payload(spec_pga_command(s3)),
    );
    let relays = pgas.push((Transaction::UserWrite { addr: ADDR_CONTROL, data: c1 })).push(
        (Transaction::UserWrite { addr: ADDR_CONTROL, data: c2 }),
    ).push((Transaction::UserWrite { addr: ADDR_CONTROL, data: c3 })).push(
        (Transaction::UserWrite { addr: ADDR_CONTROL, data: c4 }),
    );
    let offsets = relays + i2c_xacts(
        0b0101100,
        digipot_payload(spec_wiper_address(0), s0.offset_magnitude.spec_code()),
    ) + i2c_xacts(0b1100000, trimdac_payload(0, 0x8000u16 | s0.offset_value.spec_code()))
        + i2c_xacts(
        0b0101100,
        digipot_payload(spec_wiper_address(1), s1.offset_magnitude.spec_code()),
    ) + i2c_xacts(0b1100000, trimdac_payload(1, 0x8000u16 | s1.offset_value.spec_code()))
        + i2c_xacts(
        0b0101100,
        digipot_payload(spec_wiper_address(2), s2.offset_magnitude.spec_code()),
    ) + i2c_xacts(0b1100000, trimdac_payload(2, 0x8000u16 | s2.offset_value.spec_code()))
        + i2c_xacts(
        0b0101100,
        digipot_payload(spec_wiper_address(3), s3.offset_magnitude.spec_code()),
    ) + i2c_xacts(0b1100000, trimdac_payload(3, 0x8000u16 | s3.offset_value.spec_code()));
    let halted = offsets.push((Transaction::UserWrite { addr: ADDR_CONTROL, data: c5 })).push(
        (Transaction::DelayMicros { micros: 5000 }),
    ).push((Transaction::UserWrite { addr: ADDR_CONTROL, data: c6 }));
    let muxed = spec_adc_enable_plan(
        halted,
        c6,
        spec_slot_enabled(p, 0),
        spec_slot_enabled(p, 1),
        spec_slot_enabled(p, 2),
        spec_slot_enabled(p, 3),
    );
    muxed.push(
        (Transaction::UserWrite { addr: ADDR_CONTROL, data: spec_ctrl_after_configure(c0, p) }),
    )
}

/// The packets of one `configure`, appended to `pk0`: the four PGA command
/// words first (to shed the auxiliary-output load as soon as possible), then
/// the per-channel offset digipot and trim-DAC writes, then the ADC channel
/// reprogramming. The appended packets depend on the parameters alone.
pub open spec fn spec_configure_packets(pk0: Seq<Seq<u8>>, p: DeviceParameters) -> Seq<Seq<u8>> {
    let s0 = spec_slot_params(p, 0);
    let s1 = spec_slot_params(p, 1);
    let s2 = spec_slot_params(p, 2);
    let s3 = spec_slot_params(p, 3);
    let pgas = pk0.push(spi_packet(2, pga_payload(spec_pga_command(s0)))).push(
        spi_packet(3, pga_payload(spec_pga_command(s1))),
    ).push(spi_packet(4, pga_payload(spec_pga_command(s2)))).push(
        spi_packet(5, pga_payload(spec_pga_command(s3))),
    );
    let offsets = pgas.push(
        i2c_packet(
            0b0101100,
            digipot_payload(spec_wiper_address(0), s0.offset_magnitude.spec_code()),
        ),
    ).push(i2c_packet(0b1100000, trimdac_payload(0, 0x8000u16 | s0.offset_value.spec_code()))).push(
        i2c_packet(
            0b0101100,
            digipot_payload(spec_wiper_address(1), s1.offset_magnitude.spec_code()),
        ),
    ).push(i2c_packet(0b1100000, trimdac_payload(1, 0x8000u16 | s1.offset_value.spec_code()))).push(
        i2c_packet(
            0b0101100,
            digipot_payload(spec_wiper_address(2), s2.offset_magnitude.spec_code()),
        ),
    ).push(i2c_packet(0b1100000, trimdac_payload(2, 0x8000u16 | s2.offset_value.spec_code()))).push(
        i2c_packet(
            0b0101100,
            digipot_payload(spec_wiper_address(3), s3.offset_magnitude.spec_code()),
        ),
    ).push(i2c_packet(0b1100000, trimdac_payload(3, 0x8000u16 | s3.offset_value.spec_code())));
    spec_adc_enable_packets(
        offsets,
        spec_slot_enabled(p, 0),
        spec_slot_enabled(p, 1),
        spec_slot_enabled(p, 2),
        spec_slot_enabled(p, 3),
    )
}

impl Device {
    /// Plan a full configuration. The PGAs are programmed first, which keeps
    /// the current draw in check during bring-up by turning off their
    /// auxiliary outputs; then the termination, coupling and attenuator
    /// relays; then the offset digipots and trim-DACs; and finally, with the
    /// data mover halted and reset, the ADC channel selection and the FPGA
    /// channel mux, after which the data mover is released.
    pub fn configure(&mut self, params: &DeviceParameters) -> (r: Result<(), Error>)
        requires
            params.spec_enabled_channels() >= 1,
        ensures
            r is Ok,
            final(self).spec_control() == spec_ctrl_after_configure(
                old(self).spec_control(),
                *params,
            ),
            final(self).spec_plan() == spec_configure_plan(
                old(self).spec_plan(),
                old(self).spec_control(),
                *params,
            ),
            final(self).spec_packets() == spec_configure_packets(
                old(self).spec_packets(),
                *params,
            ),
    {
        let ch0 = match &params.channels[0] {
            Some(ch) => *ch,
            None => ChannelParameters::default(),
        };
        let ch1 = match &params.channels[1] {
            Some(ch) => *ch,
            None => ChannelParameters::default(),
        };
        let ch2 = match &params.channels[2] {
            Some(ch) => *ch,
            None => ChannelParameters::default(),
        };
        let ch3 = match &params.channels[3] {
            Some(ch) => *ch,
            None => ChannelParameters::default(),
        };
        // configure the PGAs first: this keeps current consumption in check
        // for the initial call from `startup` by turning off the PGA aux
        // outputs, which together draw almost 2 W
        self.configure_pga(0, &ch0);
        self.configure_pga(1, &ch1);
        self.configure_pga(2, &ch2);
        self.configure_pga(3, &ch3);
        // configure termination, coupling, and attenuator
        self.apply_channel_control(0, &ch0);
        self.apply_channel_control(1, &ch1);
        self.apply_channel_control(2, &ch2);
        self.apply_channel_control(3, &ch3);
        // configure the voltage offsets
        self.configure_digipot_trimdac(0, &ch0);
        self.configure_digipot_trimdac(1, &ch1);
        self.configure_digipot_trimdac(2, &ch2);
        self.configure_digipot_trimdac(3, &ch3);
        // put the data mover into reset: it cannot run without the ADC clock
        // or tolerate glitches on it
        self.disable_datamover();
        // configure the ADC input selector, clock divisor, channel mapping,
        // and the FPGA data mux
        let enabled: [bool; 4] = [
            params.channels[0].is_some(),
            params.channels[1].is_some(),
            params.channels[2].is_some(),
            params.channels[3].is_some(),
        ];
        self.enable_adc_channels(enabled);
        // take the data mover out of reset now that the ADC clock is back
        self.enable_datamover();
        Ok(())
    }

    /// Plan the relay updates of one channel: termination, coupling and
    /// coarse attenuator.
    fn apply_channel_control(&mut self, index: usize, ch: &ChannelParameters)
        requires
            index < 4,
        ensures
            final(self).spec_control() == spec_ctrl_chan(old(self).spec_control(), index as int, *ch),
            final(self).spec_plan() == old(self).spec_plan().push(
                (Transaction::UserWrite {
                    addr: ADDR_CONTROL,
                    data: spec_ctrl_chan(old(self).spec_control(), index as int, *ch),
                }),
            ),
            final(self).spec_packets() == old(self).spec_packets(),
    {
        let term_clear: u32 = match ch.termination {
            Termination::Ohm1M => crate::regs::Control::ch_termination(index).bits,
            Termination::Ohm50 => 0,
        };
        let term_set: u32 = match ch.termination {
            Termination::Ohm50 => crate::regs::Control::ch_termination(index).bits,
            Termination::Ohm1M => 0,
        };
        let coup_clear: u32 = match ch.coupling {
            Coupling::AC => crate::regs::Control::ch_coupling(index).bits,
            Coupling::DC => 0,
        };
        let coup_set: u32 = match ch.coupling {
            Coupling::DC => crate::regs::Control::ch_coupling(index).bits,
            Coupling::AC => 0,
        };
        let att_clear: u32 = match ch.coarse_attenuation {
            CoarseAttenuation::X50 => crate::regs::Control::ch_attenuator(index).bits,
            CoarseAttenuation::X1 => 0,
        };
        let att_set: u32 = match ch.coarse_attenuation {
            CoarseAttenuation::X1 => crate::regs::Control::ch_attenuator(index).bits,
            CoarseAttenuation::X50 => 0,
        };
        let clear = term_clear | coup_clear | att_clear;
        let set = term_set | coup_set | att_set;
        proof {
            assert(clear == spec_ch_clear(index as int, *ch));
            assert(set == spec_ch_set(index as int, *ch));
        }
        self.modify_control(clear, set);
    }
}

/// The 31-word PLL initialization blob ("Rev4").
pub open spec fn spec_pll_rev4_words() -> Seq<u32> {
    seq![
        0x042308u32, 0x000301, 0x000402, 0x000521, 0x000701, 0x010042, 0x010100, 0x010201,
        0x010600, 0x010700, 0x010800, 0x010900, 0x010A20, 0x010B03, 0x012160, 0x012790, 0x014100,
        0x014200, 0x014300, 0x014400, 0x0145A0, 0x015300, 0x015450, 0x0155CE, 0x018000, 0x020080,
        0x020105, 0x025080, 0x025102, 0x04300C, 0x043000,
    ]
}

/// The 2-word PLL output phase-alignment blob.
pub open spec fn spec_pll_align_words() -> Seq<u32> {
    seq![0x010002u32, 0x010042]
}

/// The 11-pair ADC initialization table: reset, power down, channel invert
/// mask, full-scale adjustment, coarse-gain enable, quad and dual gains,
/// 8-bit resolution, and LVDS phase and drive; the ADC is left powered down.
pub open spec fn spec_adc_init_pairs() -> Seq<(u8, u16)> {
    seq![
        (ADDR_HMCAD1520_RESET, 0x0001u16),
        (ADDR_HMCAD1520_POWER, 0x0200u16),
        (ADDR_HMCAD1520_INVERT, 0x007Fu16),
        (ADDR_HMCAD1520_FS_CNTRL, 0x0020u16),
        (ADDR_HMCAD1520_GAIN_CFG, 0x0000u16),
        (ADDR_HMCAD1520_QUAD_GAIN, 0x9999u16),
        (ADDR_HMCAD1520_DUAL_GAIN, 0x0A99u16),
        (ADDR_HMCAD1520_RES_SEL, 0x0000u16),
        (ADDR_HMCAD1520_LVDS_PHASE, 0x0060u16),
        (ADDR_HMCAD1520_LVDS_DRIVE, 0x0222u16),
    ]
}

/// The Control register right before the final configuration step of a
/// startup: data mover halted and reset, 3.3 V rail on, clock generator
/// reset pulsed and released, 5 V rail on.
pub open spec fn spec_ctrl_before_startup_configure(c: u32) -> u32 {
    let c1 = spec_masked(c, CTRL_DATAMOVER_HALT_N, 0);
    let c2 = spec_masked(c1, CTRL_FPGA_ACQ_RESET_N, 0);
    let c3 = spec_masked(c2, 0, CTRL_CLOCK_GEN_RESET_N | CTRL_RAIL_3V3_ENABLED);
    let c4 = spec_masked(c3, CTRL_CLOCK_GEN_RESET_N, 0);
    let c5 = spec_masked(c4, 0, CTRL_CLOCK_GEN_RESET_N);
    spec_masked(c5, 0, CTRL_RAIL_5V_ENABLED)
}

/// The Control register after a full startup from prior value `c`.
pub open spec fn spec_ctrl_after_startup(c: u32) -> u32 {
    spec_ctrl_after_configure(
        spec_ctrl_before_startup_configure(c),
        DeviceParameters::default_spec(),
    )
}

/// The packets of one startup, appended to `pk0`: the PLL blobs, the ADC
/// init table, and the packets of the initial default configuration. The
/// appended packets are a constant sequence.
pub open spec fn spec_startup_packets(pk0: Seq<Seq<u8>>) -> Seq<Seq<u8>> {
    spec_configure_packets(
        pk0 + spec_pll_rev4_words().map_values(|w: u32| pll_word_packet(w))
            + spec_pll_align_words().map_values(|w: u32| pll_word_packet(w))
            + spec_adc_init_pairs().map_values(|q: (u8, u16)| adc_packet(q.0, q.1)),
        DeviceParameters::default_spec(),
    )
}

impl Device {
    /// Plan the startup sequence: halt and reset the data mover (recovering
    /// from an unclean prior shutdown), enable the 3.3 V rail, pulse the
    /// clock-generator reset, program the PLL and the ADC (leaving the ADC
    /// powered down), enable the 5 V rail, and configure to the default
    /// state, which also turns off the PGA auxiliary outputs and releases the
    /// data mover. Each step is followed by its documented minimum settling
    /// delay.
    #[verifier::rlimit(80)]
    pub fn startup(&mut self) -> (r: Result<(), Error>)
        ensures
            r is Ok,
            final(self).spec_control() == spec_ctrl_after_startup(old(self).spec_control()),
            final(self).spec_packets() == spec_startup_packets(old(self).spec_packets()),
            final(self).spec_plan() == spec_configure_plan(
                spec_startup_preamble_plan(old(self).spec_plan(), old(self).spec_control()),
                spec_ctrl_before_startup_configure(old(self).spec_control()),
                DeviceParameters::default_spec(),
            ),
    {
        // disable the data mover first and let it stop, in case it was
        // running before; this recovers from unclean shutdowns
        self.disable_datamover();
        // enable the 3.3 V rail and wait for it to stabilize
        self.modify_control(0, CTRL_CLOCK_GEN_RESET_N | CTRL_RAIL_3V3_ENABLED);
        self.plan.push(Transaction::DelayMicros { micros: 10000 });
        // the clock generator's reset pin must be asserted once after
        // power-up, for at least 1 us
        self.modify_control(CTRL_CLOCK_GEN_RESET_N, 0);
        self.plan.push(Transaction::DelayMicros { micros: 100 });
        // release the reset and let the generator settle
        self.modify_control(0, CTRL_CLOCK_GEN_RESET_N);
        self.plan.push(Transaction::DelayMicros { micros: 1000 });
        // configure the PLL using the Rev4 blob
        let pll_init: [u32; 31] = [
            0x042308, 0x000301, 0x000402, 0x000521, 0x000701, 0x010042, 0x010100, 0x010201,
            0x010600, 0x010700, 0x010800, 0x010900, 0x010A20, 0x010B03, 0x012160, 0x012790,
            0x014100, 0x014200, 0x014300, 0x014400, 0x0145A0, 0x015300, 0x015450, 0x0155CE,
            0x018000, 0x020080, 0x020105, 0x025080, 0x025102, 0x04300C, 0x043000,
        ];
        proof {
            assert(pll_init@ =~= spec_pll_rev4_words());
        }
        self.init_pll_registers(pll_init.as_slice());
        self.plan.push(Transaction::DelayMicros { micros: 10000 });
        // align the PLL output phases
        let pll_align: [u32; 2] = [0x010002, 0x010042];
        proof {
            assert(pll_align@ =~= spec_pll_align_words());
        }
        self.init_pll_registers(pll_align.as_slice());
        self.plan.push(Transaction::DelayMicros { micros: 10000 });
        // configure the ADC, but leave it powered down, since its clock is
        // not stable yet
        let adc_init: [(u8, u16); 10] = [
            (ADDR_HMCAD1520_RESET, 0x0001),
            (ADDR_HMCAD1520_POWER, 0x0200),
            (ADDR_HMCAD1520_INVERT, 0x007F),
            (ADDR_HMCAD1520_FS_CNTRL, 0x0020),
            (ADDR_HMCAD1520_GAIN_CFG, 0x0000),
            (ADDR_HMCAD1520_QUAD_GAIN, 0x9999),
            (ADDR_HMCAD1520_DUAL_GAIN, 0x0A99),
            (ADDR_HMCAD1520_RES_SEL, 0x0000),
            (ADDR_HMCAD1520_LVDS_PHASE, 0x0060),
            (ADDR_HMCAD1520_LVDS_DRIVE, 0x0222),
        ];
        proof {
            assert(adc_init@ =~= spec_adc_init_pairs());
        }
        self.init_adc_registers(adc_init.as_slice());
        // enable the frontend; this causes a current spike from the PGA aux
        // outputs coming up enabled, so the configure call right after is
        // what keeps the draw within limits
        self.modify_control(0, CTRL_RAIL_5V_ENABLED);
        self.plan.push(Transaction::DelayMicros { micros: 5000 });
        // configure to a known default state; this also enables the data
        // mover
        let params = DeviceParameters::default();
        self.configure(&params)
    }

    /// Plan the shutdown sequence: halt and reset the data mover, then clear
    /// the whole Control register, powering down both rails.
    pub fn shutdown(&mut self) -> (r: Result<(), Error>)
        ensures
            r is Ok,
            final(self).spec_control() == 0,
            final(self).spec_packets() == old(self).spec_packets(),
            final(self).spec_plan() == old(self).spec_plan().push(
                (Transaction::UserWrite {
                    addr: ADDR_CONTROL,
                    data: spec_masked(old(self).spec_control(), CTRL_DATAMOVER_HALT_N, 0),
                }),
            ).push((Transaction::DelayMicros { micros: 5000 })).push(
                (Transaction::UserWrite {
                    addr: ADDR_CONTROL,
                    data: spec_masked(
                        spec_masked(old(self).spec_control(), CTRL_DATAMOVER_HALT_N, 0),
                        CTRL_FPGA_ACQ_RESET_N,
                        0,
                    ),
                }),
            ).push((Transaction::UserWrite { addr: ADDR_CONTROL, data: 0 })),
    {
        // disable the data mover first and let it stop, since it runs on the
        // ADC clock
        self.disable_datamover();
        // power down the frontend 5 V and the board 3.3 V
        self.write_control(0);
        Ok(())
    }
}

proof fn lemma_masked_merge(c: u32, m1: u32, s1: u32, m2: u32, s2: u32)
    ensures
        spec_masked(spec_masked(c, m1, s1), m2, s2) == spec_masked(c, m1 | m2, (s1 & !m2) | s2),
{
    assert((((c & !m1) | s1) & !m2) | s2 == (c & !(m1 | m2)) | ((s1 & !m2) | s2)) by (bit_vector);
}

proof fn lemma_masked_idem(c: u32, m: u32, s: u32)
    ensures
        spec_masked(spec_masked(c, m, s), m, s) == spec_masked(c, m, s),
{
    assert((((c & !m) | s) & !m) | s == (c & !m) | s) by (bit_vector);
}

proof fn lemma_configure_collapse(c: u32, p: DeviceParameters)
    ensures
        spec_ctrl_after_configure(c, p) == spec_masked(
            c,
            spec_configure_clear_mask(p),
            spec_configure_set_bits(p),
        ),
{
    let s0 = spec_slot_params(p, 0);
    let s1 = spec_slot_params(p, 1);
    let s2 = spec_slot_params(p, 2);
    let s3 = spec_slot_params(p, 3);
    let mux = spec_chmux(
        spec_slot_enabled(p, 0),
        spec_slot_enabled(p, 1),
        spec_slot_enabled(p, 2),
        spec_slot_enabled(p, 3),
    );
    let m1 = spec_ch_clear(0, s0);
    let v1 = spec_ch_set(0, s0);
    let m2 = spec_ch_clear(1, s1);
    let v2 = spec_ch_set(1, s1);
    let m3 = spec_ch_clear(2, s2);
    let v3 = spec_ch_set(2, s2);
    let m4 = spec_ch_clear(3, s3);
    let v4 = spec_ch_set(3, s3);
    lemma_masked_merge(c, m1, v1, m2, v2);
    let ma = m1 | m2;
    let va = (v1 & !m2) | v2;
    lemma_masked_merge(c, ma, va, m3, v3);
    let mb = ma | m3;
    let vb = (va & !m3) | v3;
    lemma_masked_merge(c, mb, vb, m4, v4);
    let mc = mb | m4;
    let vc = (vb & !m4) | v4;
    lemma_masked_merge(c, mc, vc, CTRL_DATAMOVER_HALT_N, 0);
    let md = mc | CTRL_DATAMOVER_HALT_N;
    let vd = (vc & !CTRL_DATAMOVER_HALT_N) | 0;
    lemma_masked_merge(c, md, vd, CTRL_FPGA_ACQ_RESET_N, 0);
    let me = md | CTRL_FPGA_ACQ_RESET_N;
    let ve = (vd & !CTRL_FPGA_ACQ_RESET_N) | 0;
    lemma_masked_merge(c, me, ve, CTRL_CHANNEL_MUX_0 | CTRL_CHANNEL_MUX_1, mux);
    let mf = me | (CTRL_CHANNEL_MUX_0 | CTRL_CHANNEL_MUX_1);
    let vf = (ve & !(CTRL_CHANNEL_MUX_0 | CTRL_CHANNEL_MUX_1)) | mux;
    lemma_masked_merge(c, mf, vf, 0, CTRL_DATAMOVER_HALT_N | CTRL_FPGA_ACQ_RESET_N);
}

/// The union of every Control bit that a configuration clears at some step.
pub open spec fn spec_configure_clear_mask(p: DeviceParameters) -> u32 {
    ((((((spec_ch_clear(0, spec_slot_params(p, 0)) | spec_ch_clear(1, spec_slot_params(p, 1)))
        | spec_ch_clear(2, spec_slot_params(p, 2))) | spec_ch_clear(3, spec_slot_params(p, 3)))
        | CTRL_DATAMOVER_HALT_N) | CTRL_FPGA_ACQ_RESET_N) | (CTRL_CHANNEL_MUX_0
        | CTRL_CHANNEL_MUX_1)) | 0
}

/// The Control bits a configuration leaves set, folded across its steps.
pub open spec fn spec_configure_set_bits(p: DeviceParameters) -> u32 {
    let v1 = spec_ch_set(0, spec_slot_params(p, 0));
    let va = (v1 & !spec_ch_clear(1, spec_slot_params(p, 1))) | spec_ch_set(
        1,
        spec_slot_params(p, 1),
    );
    let vb = (va & !spec_ch_clear(2, spec_slot_params(p, 2))) | spec_ch_set(
        2,
        spec_slot_params(p, 2),
    );
    let vc = (vb & !spec_ch_clear(3, spec_slot_params(p, 3))) | spec_ch_set(
        3,
        spec_slot_params(p, 3),
    );
    let vd = (vc & !CTRL_DATAMOVER_HALT_N) | 0;
    let ve = (vd & !CTRL_FPGA_ACQ_RESET_N) | 0;
    let vf = (ve & !(CTRL_CHANNEL_MUX_0 | CTRL_CHANNEL_MUX_1)) | spec_chmux(
        spec_slot_enabled(p, 0),
        spec_slot_enabled(p, 1),
        spec_slot_enabled(p, 2),
        spec_slot_enabled(p, 3),
    );
    (vf & !0) | (CTRL_DATAMOVER_HALT_N | CTRL_FPGA_ACQ_RESET_N)
}

/// Configuring twice with the same parameters yields the same register state
/// as configuring once: the Control register ends identical, and the
/// peripheral packets each run appends are the same, since by `configure`'s
/// contract they are a function of the parameters alone.
pub proof fn lemma_configure_idempotent(c: u32, p: DeviceParameters)
    ensures
        spec_ctrl_after_configure(spec_ctrl_after_configure(c, p), p) == spec_ctrl_after_configure(
            c,
            p,
        ),
{
    lemma_configure_collapse(c, p);
    lemma_configure_collapse(spec_ctrl_after_configure(c, p), p);
    lemma_masked_idem(c, spec_configure_clear_mask(p), spec_configure_set_bits(p));
}

/// The Control register bits the device defines: the data mover controls,
/// the channel mux, the per-channel relays, and the rail and clock-generator
/// controls.
pub const CTRL_DEFINED_MASK: u32 = 0x07FFF033;

/// The value every defined Control bit holds after a startup.
pub const CTRL_STARTUP_VALUE: u32 = 0x07F00023;

/// A startup leaves every Control bit the device defines in one fixed state,
/// whatever the register held before. In particular, a startup that follows
/// a shutdown leaves the device exactly as a single startup from power-on
/// does; the peripheral packets of a startup are a constant sequence by
/// `startup`'s contract.
pub proof fn lemma_startup_control_constant(c: u32)
    ensures
        spec_ctrl_after_startup(c) & CTRL_DEFINED_MASK == CTRL_STARTUP_VALUE,
{
    let p = DeviceParameters::default_spec();
    let dch = ChannelParameters::default_spec();
    assert(spec_slot_params(p, 0) == dch);
    assert(spec_slot_params(p, 1) == dch);
    assert(spec_slot_params(p, 2) == dch);
    assert(spec_slot_params(p, 3) == dch);
    assert(spec_slot_enabled(p, 0) && spec_slot_enabled(p, 1) && spec_slot_enabled(p, 2)
        && spec_slot_enabled(p, 3));
    assert(count4(true, true, true, true) == 4);
    assert(spec_chmux(true, true, true, true) == CTRL_CHANNEL_MUX_1);
    assert(spec_ch_clear(0, dch) == 0x11000u32) by {
        assert(0x1000u32 | 0u32 | 0x10000u32 == 0x11000u32) by (bit_vector);
    }
    assert(spec_ch_clear(1, dch) == 0x22000u32) by {
        assert(0x2000u32 | 0u32 | 0x20000u32 == 0x22000u32) by (bit_vector);
    }
    assert(spec_ch_clear(2, dch) == 0x44000u32) by {
        assert(0x4000u32 | 0u32 | 0x40000u32 == 0x44000u32) by (bit_vector);
    }
    assert(spec_ch_clear(3, dch) == 0x88000u32) by {
        assert(0x8000u32 | 0u32 | 0x80000u32 == 0x88000u32) by (bit_vector);
    }
    assert(spec_ch_set(0, dch) == 0x100000u32) by {
        assert(0u32 | 0x100000u32 | 0u32 == 0x100000u32) by (bit_vector);
    }
    assert(spec_ch_set(1, dch) == 0x200000u32) by {
        assert(0u32 | 0x200000u32 | 0u32 == 0x200000u32) by (bit_vector);
    }
    assert(spec_ch_set(2, dch) == 0x400000u32) by {
        assert(0u32 | 0x400000u32 | 0u32 == 0x400000u32) by (bit_vector);
    }
    assert(spec_ch_set(3, dch) == 0x800000u32) by {
        assert(0u32 | 0x800000u32 | 0u32 == 0x800000u32) by (bit_vector);
    }
    assert(0x02000000u32 | 0x01000000u32 == 0x3000000u32) by (bit_vector);
    assert(0x10u32 | 0x20u32 == 0x30u32) by (bit_vector);
    assert(0x1u32 | 0x2u32 == 0x3u32) by (bit_vector);
    let c1 = spec_masked(c, CTRL_DATAMOVER_HALT_N, 0);
    let c2 = spec_masked(c1, CTRL_FPGA_ACQ_RESET_N, 0);
    let c3 = spec_masked(c2, 0, CTRL_CLOCK_GEN_RESET_N | CTRL_RAIL_3V3_ENABLED);
    let c4 = spec_masked(c3, CTRL_CLOCK_GEN_RESET_N, 0);
    let c5 = spec_masked(c4, 0, CTRL_CLOCK_GEN_RESET_N);
    let c6 = spec_masked(c5, 0, CTRL_RAIL_5V_ENABLED);
    assert(spec_ctrl_before_startup_configure(c) == c6);
    let d1 = spec_masked(c6, 0x11000, 0x100000);
    let d2 = spec_masked(d1, 0x22000, 0x200000);
    let d3 = spec_masked(d2, 0x44000, 0x400000);
    let d4 = spec_masked(d3, 0x88000, 0x800000);
    let d5 = spec_masked(d4, CTRL_DATAMOVER_HALT_N, 0);
    let d6 = spec_masked(d5, CTRL_FPGA_ACQ_RESET_N, 0);
    let d7 = spec_masked(d6, CTRL_CHANNEL_MUX_0 | CTRL_CHANNEL_MUX_1, CTRL_CHANNEL_MUX_1);
    let d8 = spec_masked(d7, 0, CTRL_DATAMOVER_HALT_N | CTRL_FPGA_ACQ_RESET_N);
    assert(spec_ctrl_after_startup(c) == d8);
    assert(d8 & 0x07FFF033u32 == 0x07F00023u32) by (bit_vector)
        requires
            c1 == (c & !0x1u32) | 0u32,
            c2 == (c1 & !0x2u32) | 0u32,
            c3 == (c2 & !0u32) | 0x3000000u32,
            c4 == (c3 & !0x2000000u32) | 0u32,
            c5 == (c4 & !0u32) | 0x2000000u32,
            c6 == (c5 & !0u32) | 0x4000000u32,
            d1 == (c6 & !0x11000u32) | 0x100000u32,
            d2 == (d1 & !0x22000u32) | 0x200000u32,
            d3 == (d2 & !0x44000u32) | 0x400000u32,
            d4 == (d3 & !0x88000u32) | 0x800000u32,
            d5 == (d4 & !0x1u32) | 0u32,
            d6 == (d5 & !0x2u32) | 0u32,
            d7 == (d6 & !0x30u32) | 0x20u32,
            d8 == (d7 & !0u32) | 0x3u32,
    ;
}

/// The data mover reports progress in 4 KiB pages.
pub const STREAM_PAGE_SIZE: usize = 4096;

/// The device-side circular memory holds 256 MiB.
pub const STREAM_MEMORY_SIZE: usize = 0x10000000;

/// What one streaming poll asks the executor to do.
#[derive(Debug, Clone, Copy, PartialEq, Eq, Structural)]
pub enum StreamStep {
    /// The Status register shows a FIFO overflow or data mover error; the
    /// device cannot recover without a power cycle.
    Fatal,
    /// The first ever poll: the device write head was latched and no bytes
    /// are read.
    Latched,
    /// No new bytes are available.
    Idle,
    /// Read `len` bytes of the DMA channel starting at byte offset `addr`.
    Read { addr: usize, len: usize },
}

/// Whether a Status value reports an unrecoverable acquisition fault.
pub open spec fn spec_stream_fatal(status: u32) -> bool {
    status & (STATUS_FIFO_OVERFLOW | STATUS_DATAMOVER_ERROR) != 0
}

/// The device write head encoded in a Status value, in bytes.
pub open spec fn spec_stream_head(status: u32) -> int {
    spec_pages_moved(status) * (STREAM_PAGE_SIZE as int)
}

/// One streaming decision: given the cursor, a freshly read Status value and
/// the free space of the caller's buffer, what to do and the next cursor.
/// The read never exceeds the bytes the device has made available since the
/// last read, treating the wrap of the device memory.
pub open spec fn spec_read_step(cursor: Option<usize>, status: u32, buffer_len: usize) -> (
    StreamStep,
    Option<usize>,
) {
    if spec_stream_fatal(status) {
        (StreamStep::Fatal, cursor)
    } else {
        let head = spec_stream_head(status);
        match cursor {
            None => (StreamStep::Latched, Some(head as usize)),
            Some(prev) => {
                let avail = if head < prev {
                    STREAM_MEMORY_SIZE - prev
                } else {
                    head - prev
                };
                let len = if buffer_len < avail {
                    buffer_len as int
                } else {
                    avail
                };
                if len > 0 {
                    (
                        StreamStep::Read { addr: prev, len: len as usize },
                        Some(((prev + len) % (STREAM_MEMORY_SIZE as int)) as usize),
                    )
                } else {
                    (StreamStep::Idle, cursor)
                }
            },
        }
    }
}

/// A lossless byte stream out of the device's circular memory: remembers the
/// device offset up to which the caller has consumed the stream.
#[derive(Debug, Clone, Copy)]
pub struct Streamer {
    cursor: Option<usize>,
}

impl Streamer {
    pub closed spec fn spec_cursor(self) -> Option<usize> {
        self.cursor
    }

    pub open spec fn wf(self) -> bool {
        match self.spec_cursor() {
            Some(c) => c < STREAM_MEMORY_SIZE,
            None => true,
        }
    }

    /// Decide one streaming poll from a freshly read Status value. On the
    /// first ever poll only the device write head is latched. Afterwards,
    /// each poll reads as much as fits in the caller's buffer of what the
    /// device wrote since the last poll, and advances the cursor by exactly
    /// the bytes read, wrapping at the end of the device memory.
    pub fn read_step(&mut self, status: u32, buffer_len: usize) -> (r: StreamStep)
        requires
            old(self).wf(),
        ensures
            r == spec_read_step(old(self).spec_cursor(), status, buffer_len).0,
            final(self).spec_cursor() == spec_read_step(
                old(self).spec_cursor(),
                status,
                buffer_len,
            ).1,
            final(self).wf(),
    {
        // these appear only if the FPGA malfunctions; there is no recovery
        // short of a power cycle
        if status & (STATUS_FIFO_OVERFLOW | STATUS_DATAMOVER_ERROR) != 0 {
            return StreamStep::Fatal;
        }
        let head = crate::regs::Status { bits: status }.pages_moved() * STREAM_PAGE_SIZE;
        let prev = match self.cursor {
            None => {
                // first ever poll: latch the current write head
                self.cursor = Some(head);
                return StreamStep::Latched;
            },
            Some(prev) => prev,
        };
        let avail = if head < prev {
            // the write head wrapped around the end of the device memory
            STREAM_MEMORY_SIZE - prev
        } else {
            head - prev
        };
        let len = if buffer_len < avail {
            buffer_len
        } else {
            avail
        };
        if len > 0 {
            self.cursor = Some((prev + len) % STREAM_MEMORY_SIZE);
            StreamStep::Read { addr: prev, len }
        } else {
            StreamStep::Idle
        }
    }
}

impl Device {
    /// A fresh streamer over the device's circular memory; its first poll
    /// latches the write head, and the bytes of subsequent reads concatenate
    /// to the device's output stream.
    pub fn stream_data(&self) -> (r: Streamer)
        ensures
            r.spec_cursor() is None,
            r.wf(),
    {
        Streamer { cursor: None }
    }
}

/// Repeated streaming reads cover consecutive device offsets with no gap,
/// no duplication and no overlap: every read starts exactly where the
/// previous one ended, is bounded by the caller's buffer, and advances the
/// cursor by exactly its length, modulo the device memory size. The bytes
/// returned by the reads therefore concatenate to a contiguous slice of the
/// device's byte stream, as long as the consumer never lags by a whole
/// memory's worth.
pub proof fn lemma_stream_reads_contiguous(cursor: Option<usize>, status: u32, buffer_len: usize)
    requires
        cursor matches Some(c) ==> c < STREAM_MEMORY_SIZE,
    ensures
        ({
            let (step, next) = spec_read_step(cursor, status, buffer_len);
            step matches StreamStep::Read { addr, len }
                ==> cursor == Some(addr) && 0 < len <= buffer_len && next == Some(
                (((addr + len) % (STREAM_MEMORY_SIZE as int)) as usize),
            )
        }),
{
}

/// The transactions of a startup before its final configure call, appended
/// to `plan0` starting from Control value `c0`.
pub open spec fn spec_startup_preamble_plan(plan0: Seq<Transaction>, c0: u32) -> Seq<Transaction> {
    let c1 = spec_masked(c0, CTRL_DATAMOVER_HALT_N, 0);
    let c2 = spec_masked(c1, CTRL_FPGA_ACQ_RESET_N, 0);
    let c3 = spec_masked(c2, 0, CTRL_CLOCK_GEN_RESET_N | CTRL_RAIL_3V3_ENABLED);
    let c4 = spec_masked(c3, CTRL_CLOCK_GEN_RESET_N, 0);
    let c5 = spec_masked(c4, 0, CTRL_CLOCK_GEN_RESET_N);
    let c6 = spec_masked(c5, 0, CTRL_RAIL_5V_ENABLED);
    plan0.push((Transaction::UserWrite { addr: ADDR_CONTROL, data: c1 })).push(
        (Transaction::DelayMicros { micros: 5000 }),
    ).push((Transaction::UserWrite { addr: ADDR_CONTROL, data: c2 })).push(
        (Transaction::UserWrite { addr: ADDR_CONTROL, data: c3 }),
    ).push((Transaction::DelayMicros { micros: 10000 })).push(
        (Transaction::UserWrite { addr: ADDR_CONTROL, data: c4 }),
    ).push((Transaction::DelayMicros { micros: 100 })).push(
        (Transaction::UserWrite { addr: ADDR_CONTROL, data: c5 }),
    ).push((Transaction::DelayMicros { micros: 1000 })) + concat_map(
        spec_pll_rev4_words(),
        |w: u32| pll_word_xacts(w),
    ) + seq![(Transaction::DelayMicros { micros: 10000 })] + concat_map(
        spec_pll_align_words(),
        |w: u32| pll_word_xacts(w),
    ) + seq![(Transaction::DelayMicros { micros: 10000 })] + concat_map(
        spec_adc_init_pairs(),
        |q: (u8, u16)| adc_xacts(q.0, q.1),
    ) + seq![(Transaction::UserWrite { addr: ADDR_CONTROL, data: c6 })] + seq![
        (Transaction::DelayMicros { micros: 5000 }),
    ]
}

} // verus!
