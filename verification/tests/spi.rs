use rustffi::spi::SpiTransfer;
use rustffi::{
    RtSpiDevice, RtSpiError, SpiErrorKind, SpiExample, SpiOperation, SpiStep, SpiTransaction,
    RT_DEVICE_CLASS_SPI_DEVICE,
};

const SPI: u32 = RT_DEVICE_CLASS_SPI_DEVICE;

fn device() -> RtSpiDevice {
    RtSpiDevice::from_lookup(0x2000_1000, SPI).ok().unwrap()
}

fn transfer_of(step: &SpiStep) -> &SpiTransfer {
    match step {
        SpiStep::Transfer(t) => t,
        _ => panic!("not a transfer step"),
    }
}

#[test]
fn error_kinds() {
    assert_eq!(RtSpiError::DeviceNotFound.kind(), SpiErrorKind::Other);
    assert_eq!(RtSpiError::OpenFailed.kind(), SpiErrorKind::Other);
    assert_eq!(RtSpiError::TransferError.kind(), SpiErrorKind::Overrun);
    assert_eq!(RtSpiError::ControlError.kind(), SpiErrorKind::Other);
}

#[test]
fn lookup_outcomes() {
    assert_eq!(RtSpiDevice::from_lookup(0, SPI).err(), Some(RtSpiError::DeviceNotFound));
    assert_eq!(device().handle(), 0x2000_1000);
}

#[test]
fn lookup_refuses_other_device_classes() {
    // Class 0 is a character device, class 12 an SPI bus.
    assert_eq!(RtSpiDevice::from_lookup(0x2000_1000, 0).err(), Some(RtSpiError::DeviceNotFound));
    assert_eq!(RtSpiDevice::from_lookup(0x2000_1000, 12).err(), Some(RtSpiError::DeviceNotFound));
}

#[test]
fn attach_outcomes() {
    assert_eq!(RtSpiDevice::from_attach(0x2000_2000, -1).err(), Some(RtSpiError::OpenFailed));
    assert_eq!(RtSpiDevice::from_attach(0x2000_2000, 0).ok().unwrap().handle(), 0x2000_2000);
}

#[test]
fn configure_outcomes() {
    let mut dev = device();
    assert_eq!(dev.configure(0), Ok(()));
    assert_eq!(dev.configure(-5), Err(RtSpiError::OpenFailed));
    assert_eq!(dev.handle(), 0x2000_1000);
}

#[test]
fn read_clocks_the_whole_buffer() {
    let t = device().read(&[0u8; 4]);
    assert!(t.send.is_empty());
    assert_eq!(t.recv_len, 4);
    assert_eq!(t.length, 4);
}

#[test]
fn write_sends_the_words() {
    let t = device().write(&[1, 2, 3]);
    assert_eq!(t.send, vec![1, 2, 3]);
    assert_eq!(t.recv_len, 0);
    assert_eq!(t.length, 3);
}

#[test]
fn transfer_clocks_the_longer_buffer() {
    let t = device().transfer(&[0u8; 5], &[0xaa, 0xbb]);
    assert_eq!(t.send, vec![0xaa, 0xbb, 0, 0, 0]);
    assert_eq!(t.recv_len, 5);
    assert_eq!(t.length, 5);
    let t = device().transfer(&[0u8; 1], &[1, 2, 3]);
    assert_eq!(t.send, vec![1, 2, 3]);
    assert_eq!(t.recv_len, 1);
    assert_eq!(t.length, 3);
    let t = device().transfer_in_place(&[9, 8, 7]);
    assert_eq!(t.send, vec![9, 8, 7]);
    assert_eq!(t.recv_len, 3);
    assert_eq!(t.length, 3);
}

#[test]
fn transfer_answers() {
    let t = device().write(&[1, 2, 3]);
    assert_eq!(t.check(3), Ok(()));
    assert_eq!(t.check(2), Err(RtSpiError::TransferError));
    assert_eq!(t.check(-5), Err(RtSpiError::TransferError));
    let empty = device().read(&[]);
    assert_eq!(empty.check(0), Ok(()));
}

#[test]
fn receive_stores_reply_within_length() {
    let t = SpiTransfer { send: vec![1, 2], recv_len: 4, length: 2 };
    let mut buf = vec![0u8; 4];
    t.receive(&mut buf, &[7, 8]);
    assert_eq!(buf, vec![7, 8, 0, 0]);
    let mut short = vec![0u8; 1];
    t.receive(&mut short, &[5, 6]);
    assert_eq!(short, vec![5]);
}

#[test]
fn delay_rounds_up_to_microseconds() {
    assert_eq!(rustffi::delay::delay_us_for_ns(0), 0);
    assert_eq!(rustffi::delay::delay_us_for_ns(1), 1);
    assert_eq!(rustffi::delay::delay_us_for_ns(1000), 1);
    assert_eq!(rustffi::delay::delay_us_for_ns(1001), 2);
    assert_eq!(rustffi::delay::delay_us_for_ns(u32::MAX), 4_294_968);
}

#[test]
fn transaction_holds_chip_select_across_operations() {
    let ops = vec![
        SpiOperation::Write(vec![0xf5]),
        SpiOperation::DelayNs(1500),
        SpiOperation::Read(vec![0u8; 2]),
    ];
    let plan = device().transaction(&ops);
    assert_eq!(plan.len(), 7);
    assert!(matches!(plan[0], SpiStep::TakeBus));
    assert!(matches!(plan[1], SpiStep::TakeCs));
    let w = transfer_of(&plan[2]);
    assert_eq!((w.send.clone(), w.recv_len, w.length), (vec![0xf5], 0, 1));
    assert!(matches!(plan[3], SpiStep::Delay(2)));
    let r = transfer_of(&plan[4]);
    assert_eq!((r.send.clone(), r.recv_len, r.length), (vec![], 2, 2));
    assert!(matches!(plan[5], SpiStep::ReleaseCs));
    assert!(matches!(plan[6], SpiStep::ReleaseBus));
}

#[test]
fn empty_transaction_still_selects_and_releases() {
    let plan = device().transaction(&vec![]);
    assert_eq!(plan.len(), 4);
    assert!(matches!(plan[0], SpiStep::TakeBus));
    assert!(matches!(plan[3], SpiStep::ReleaseBus));
}

#[test]
fn finishing_a_transaction_fills_read_buffers() {
    let dev = device();
    let mut ops = vec![
        SpiOperation::Read(vec![5, 5]),
        SpiOperation::Transfer(vec![0u8; 4], vec![1, 2]),
        SpiOperation::TransferInPlace(vec![1, 2, 3]),
        SpiOperation::Write(vec![4]),
        SpiOperation::DelayNs(10),
        SpiOperation::Transfer(vec![0u8; 1], vec![1, 2, 3]),
    ];
    let replies = vec![vec![1, 2], vec![9, 8, 7, 6], vec![7, 6, 5], vec![3], vec![], vec![4, 5, 6]];
    dev.finish_transaction(&mut ops, &replies);
    assert!(matches!(&ops[0], SpiOperation::Read(b) if *b == vec![1, 2]));
    assert!(matches!(&ops[1], SpiOperation::Transfer(r, w) if *r == vec![9, 8, 7, 6] && *w == vec![1, 2]));
    assert!(matches!(&ops[2], SpiOperation::TransferInPlace(b) if *b == vec![7, 6, 5]));
    assert!(matches!(&ops[3], SpiOperation::Write(b) if *b == vec![4]));
    assert!(matches!(&ops[4], SpiOperation::DelayNs(10)));
    assert!(matches!(&ops[5], SpiOperation::Transfer(r, _) if *r == vec![4]));
}

#[test]
fn finishing_with_fewer_replies_leaves_the_rest() {
    let dev = device();
    let mut ops = vec![SpiOperation::TransferInPlace(vec![1]), SpiOperation::TransferInPlace(vec![2])];
    dev.finish_transaction(&mut ops, &vec![vec![9]]);
    assert!(matches!(&ops[0], SpiOperation::TransferInPlace(b) if *b == vec![9]));
    assert!(matches!(&ops[1], SpiOperation::TransferInPlace(b) if *b == vec![2]));
}

/// Runs a transaction plan, answering each transfer with `answers` in turn;
/// returns the kinds of the steps run and the outcome.
fn drive(run: &mut SpiTransaction, answers: &[isize]) -> Vec<&'static str> {
    let mut seen = Vec::new();
    let mut k = 0;
    while let Some(step) = run.current() {
        let (name, answer) = match step {
            SpiStep::TakeBus => ("take_bus", 0),
            SpiStep::TakeCs => ("take_cs", 0),
            SpiStep::Transfer(_) => {
                k += 1;
                ("transfer", answers[k - 1])
            }
            SpiStep::Delay(_) => ("delay", 0),
            SpiStep::ReleaseCs => ("release_cs", 0),
            SpiStep::ReleaseBus => ("release_bus", 0),
        };
        seen.push(name);
        run.advance(answer);
    }
    seen
}

#[test]
fn transaction_runs_every_step_when_transfers_succeed() {
    let dev = device();
    let ops = vec![
        SpiOperation::Write(vec![0xf5]),
        SpiOperation::DelayNs(10),
        SpiOperation::Transfer(vec![0u8; 4], vec![1, 2]),
    ];
    let mut run = SpiTransaction::new(&dev, &ops);
    let seen = drive(&mut run, &[1, 4]);
    assert_eq!(seen, vec!["take_bus", "take_cs", "transfer", "delay", "transfer", "release_cs", "release_bus"]);
    assert_eq!(run.result(), Ok(()));
}

#[test]
fn failed_transfer_ends_the_transaction() {
    let dev = device();
    let ops = vec![
        SpiOperation::Write(vec![0xf5]),
        SpiOperation::DelayNs(10),
        SpiOperation::Read(vec![0u8; 2]),
    ];
    let mut run = SpiTransaction::new(&dev, &ops);
    let seen = drive(&mut run, &[0]);
    assert_eq!(seen, vec!["take_bus", "take_cs", "transfer", "release_cs", "release_bus"]);
    assert_eq!(run.result(), Err(RtSpiError::TransferError));
}

#[test]
fn negative_answer_fails_the_transaction() {
    let dev = device();
    let ops = vec![SpiOperation::Read(vec![0u8; 2]), SpiOperation::Write(vec![1])];
    let mut run = SpiTransaction::new(&dev, &ops);
    let seen = drive(&mut run, &[2, -5]);
    assert_eq!(seen, vec!["take_bus", "take_cs", "transfer", "transfer", "release_cs", "release_bus"]);
    assert_eq!(run.result(), Err(RtSpiError::TransferError));
}

#[test]
fn operation_index_follows_the_steps() {
    let dev = device();
    let ops = vec![SpiOperation::Write(vec![1]), SpiOperation::Write(vec![2])];
    let mut run = SpiTransaction::new(&dev, &ops);
    assert_eq!(run.operation_index(), None);
    run.advance(0);
    run.advance(0);
    assert_eq!(run.operation_index(), Some(0));
    run.advance(1);
    assert_eq!(run.operation_index(), Some(1));
    run.advance(1);
    assert_eq!(run.operation_index(), None);
}

#[test]
fn transaction_matches_single_methods() {
    let dev = device();
    let plan = dev.transaction(&vec![
        SpiOperation::Read(vec![0u8; 3]),
        SpiOperation::Write(vec![1, 2]),
        SpiOperation::Transfer(vec![0u8; 1], vec![3, 4, 5]),
        SpiOperation::TransferInPlace(vec![6]),
    ]);
    let singles = [
        dev.read(&[0u8; 3]),
        dev.write(&[1, 2]),
        dev.transfer(&[0u8; 1], &[3, 4, 5]),
        dev.transfer_in_place(&[6]),
    ];
    for (p, s) in plan[2..6].iter().zip(singles.iter()) {
        let p = transfer_of(p);
        assert_eq!((&p.send, p.recv_len, p.length), (&s.send, s.recv_len, s.length));
        assert!(p.send.is_empty() || p.send.len() == p.length);
        assert!(p.recv_len <= p.length);
    }
}

#[test]
fn example_needs_an_spi_device() {
    assert_eq!(SpiExample::new(0, SPI).err(), Some(RtSpiError::DeviceNotFound));
    assert_eq!(SpiExample::new(0x2400_0000, 0).err(), Some(RtSpiError::DeviceNotFound));
    let ex = SpiExample::new(0x2400_0000, SPI).ok().unwrap();
    assert_eq!(ex.spi().handle(), 0x2400_0000);
}

#[test]
fn example_device_id_is_what_the_device_answers() {
    let ex = SpiExample::new(0x2400_0000, SPI).ok().unwrap();
    let mut ops = ex.read_device_id();
    assert!(matches!(&ops[0], SpiOperation::Write(c) if *c == vec![0x9f]));
    let plan = ex.spi().transaction(&ops);
    assert_eq!(transfer_of(&plan[3]).length, 3);
    ex.spi().finish_transaction(&mut ops, &vec![vec![0xff], vec![0xef, 0x40, 0x18]]);
    assert_eq!(SpiExample::read_result(&ops[1]), vec![0xef, 0x40, 0x18]);
}

#[test]
fn example_transactions() {
    let ex = SpiExample::new(0x2400_0000, SPI).ok().unwrap();
    let w = ex.write_data(&[1, 2, 3, 4]);
    assert!(matches!(&w[0], SpiOperation::Write(b) if *b == vec![1, 2, 3, 4]));
    let mut r = ex.read_data(4);
    assert!(matches!(&r[0], SpiOperation::Read(b) if *b == vec![0; 4]));
    ex.spi().finish_transaction(&mut r, &vec![vec![4, 3, 2, 1]]);
    assert_eq!(SpiExample::read_result(&r[0]), vec![4, 3, 2, 1]);
    let mut t = ex.transfer_data(&[0xaa, 0xbb, 0xcc, 0xdd]);
    assert!(matches!(&t[0], SpiOperation::Transfer(rd, wr) if *rd == vec![0; 4] && *wr == vec![0xaa, 0xbb, 0xcc, 0xdd]));
    ex.spi().finish_transaction(&mut t, &vec![vec![1, 2, 3, 4]]);
    assert_eq!(SpiExample::read_result(&t[0]), vec![1, 2, 3, 4]);
    assert!(SpiExample::read_result(&w[0]).is_empty());
}
