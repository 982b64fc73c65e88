use thunderscope::device::{
    fifo_wait_decision, FifoWait, StreamStep, CTRL_DEFINED_MASK, STREAM_MEMORY_SIZE,
};
use thunderscope::regs;
use thunderscope::{Device, DeviceParameters, Transaction};

#[test]
fn test_fifo_wait_decision() {
    assert_eq!(fifo_wait_decision(0), FifoWait::Continue);
    assert_eq!(fifo_wait_decision(regs::FIFO_ISR_TC), FifoWait::Done);
    assert_eq!(fifo_wait_decision(regs::FIFO_ISR_TPOE), FifoWait::Fatal);
    // an overrun is fatal even with the transmit-complete bit set
    assert_eq!(fifo_wait_decision(regs::FIFO_ISR_TC | regs::FIFO_ISR_TPOE), FifoWait::Fatal);
}

#[test]
fn test_shutdown_plan() {
    let mut device = Device::new().unwrap();
    device.shutdown().unwrap();
    assert_eq!(device.control(), 0);
    let plan = device.take_plan();
    assert_eq!(
        plan,
        vec![
            Transaction::UserWrite { addr: regs::ADDR_CONTROL, data: 0 },
            Transaction::DelayMicros { micros: 5000 },
            Transaction::UserWrite { addr: regs::ADDR_CONTROL, data: 0 },
            Transaction::UserWrite { addr: regs::ADDR_CONTROL, data: 0 },
        ]
    );
    assert!(device.take_plan().is_empty());
}

#[test]
fn test_configure_packet_framing() {
    let mut device = Device::new().unwrap();
    device.configure(&DeviceParameters::default()).unwrap();
    let plan = device.take_plan();
    // the first packet programs channel 1's PGA on SPI bus 2: selector
    // 0xfd - 2, a command-word write, and the default command 0x0490
    // (aux output off, 100 MHz filter, 30 dB preamp, 0 dB ladder)
    assert_eq!(plan[0], Transaction::UserWrite { addr: regs::ADDR_FIFO_TDFD, data: 0xfb });
    assert_eq!(plan[1], Transaction::UserWrite { addr: regs::ADDR_FIFO_TDFD, data: 0x00 });
    assert_eq!(plan[2], Transaction::UserWrite { addr: regs::ADDR_FIFO_TDFD, data: 0x04 });
    assert_eq!(plan[3], Transaction::UserWrite { addr: regs::ADDR_FIFO_TDFD, data: 0x90 });
    // the packet is started with its length in FIFO datapath bytes, the
    // transmit-complete flag is cleared, and the plan waits on it
    assert_eq!(plan[4], Transaction::UserWrite { addr: regs::ADDR_FIFO_TLR, data: 16 });
    assert_eq!(plan[5], Transaction::UserWrite { addr: regs::ADDR_FIFO_ISR, data: regs::FIFO_ISR_TC });
    assert_eq!(plan[6], Transaction::AwaitFifoTc);
    // SPI writes settle for a flat 10 microseconds
    assert_eq!(plan[7], Transaction::DelayMicros { micros: 10 });
}

#[test]
fn test_configure_is_idempotent() {
    let mut device = Device::new().unwrap();
    let mut params = DeviceParameters::default();
    params.channels[2] = None;
    device.configure(&params).unwrap();
    let control_once = device.control();
    device.configure(&params).unwrap();
    assert_eq!(device.control(), control_once);
}

#[test]
fn test_startup_after_shutdown_matches_startup() {
    let mut device = Device::new().unwrap();
    device.startup().unwrap();
    let control_once = device.control();
    device.shutdown().unwrap();
    device.startup().unwrap();
    assert_eq!(device.control() & CTRL_DEFINED_MASK, control_once & CTRL_DEFINED_MASK);
    // every defined bit of a started-up device is in a fixed state
    assert_eq!(control_once & CTRL_DEFINED_MASK, thunderscope::device::CTRL_STARTUP_VALUE);
}

#[test]
fn test_streamer_latches_then_reads() {
    let device = Device::new().unwrap();
    let mut streamer = device.stream_data();
    // first poll only latches the device write head: 5 pages moved
    assert_eq!(streamer.read_step(5, 100000), StreamStep::Latched);
    // 8 pages moved now: three new pages are available
    assert_eq!(
        streamer.read_step(8, 100000),
        StreamStep::Read { addr: 5 * 4096, len: 3 * 4096 }
    );
    // no progress: nothing to read
    assert_eq!(streamer.read_step(8, 100000), StreamStep::Idle);
    // the read is clipped to the caller's buffer
    assert_eq!(streamer.read_step(12, 100), StreamStep::Read { addr: 8 * 4096, len: 100 });
}

#[test]
fn test_streamer_wraps_at_memory_end() {
    let device = Device::new().unwrap();
    let mut streamer = device.stream_data();
    // latch near the end of the 256 MiB device memory
    assert_eq!(streamer.read_step(0xFFFF, 1 << 20), StreamStep::Latched);
    // the head wrapped around to page 2: read up to the memory end first
    let tail = STREAM_MEMORY_SIZE - 0xFFFF * 4096;
    assert_eq!(
        streamer.read_step(2, 1 << 20),
        StreamStep::Read { addr: 0xFFFF * 4096, len: tail }
    );
    // the cursor wrapped to offset zero; the two pages follow
    assert_eq!(streamer.read_step(2, 1 << 20), StreamStep::Read { addr: 0, len: 2 * 4096 });
}

#[test]
fn test_streamer_reports_fatal_status() {
    let device = Device::new().unwrap();
    let mut streamer = device.stream_data();
    assert_eq!(streamer.read_step(regs::STATUS_FIFO_OVERFLOW | 7, 4096), StreamStep::Fatal);
    assert_eq!(streamer.read_step(regs::STATUS_DATAMOVER_ERROR, 4096), StreamStep::Fatal);
}

#[test]
fn test_status_fields() {
    let status = regs::Status { bits: 0x2001_1234 };
    assert_eq!(status.pages_moved(), 0x1234);
    assert_eq!(status.overflow_cycles(), 0x2001);
    let control = regs::Control::ch_termination(2);
    assert_eq!(control.bits, 0x4000);
    assert_eq!(regs::Control::ch_coupling(0).bits, 0x100000);
    assert_eq!(regs::Control::ch_attenuator(3).bits, 0x80000);
}
