use eofs::bd::{fill_zeros, ReadPlan, WritePlan, INVOP_CLOSE, INVOP_NOTOPEN, INVOP_OPEN};
use eofs::{BDError, FileBD};

fn is_invalid(r: &Result<(), BDError>, msg: &str) -> bool {
    match r {
        Err(BDError::InvalidOperation(m)) => *m == msg,
        _ => false,
    }
}

#[test]
fn new_device_is_closed_and_empty() {
    let bd = FileBD::new("disk.img").unwrap();
    assert_eq!(bd.path(), "disk.img");
    assert!(!bd.is_open());
    assert_eq!(bd.blocks(), 0);
}

#[test]
fn open_counts_whole_blocks_and_refuses_reopening() {
    let mut bd = FileBD::new("disk.img").unwrap();
    assert!(bd.begin_open().is_ok());
    bd.opened(2048 + 100);
    assert!(bd.is_open());
    assert_eq!(bd.blocks(), 4);
    let again = bd.begin_open();
    assert!(is_invalid(&again, INVOP_OPEN));
    assert!(is_invalid(&again, "Opened already open file"));
    assert_eq!(bd.blocks(), 4);
}

#[test]
fn open_counts_blocks_of_the_low_32_bits_of_the_length() {
    let mut bd = FileBD::new("disk.img").unwrap();
    bd.opened((1u64 << 32) + 1024);
    assert_eq!(bd.blocks(), 2);
}

#[test]
fn reads_past_end_are_zeros() {
    let mut bd = FileBD::new("disk.img").unwrap();
    bd.opened(2048);
    assert_eq!(bd.plan_read(3).unwrap(), ReadPlan::At(1536));
    assert_eq!(bd.plan_read(4).unwrap(), ReadPlan::Zeros);
    assert_eq!(bd.plan_read(u32::MAX).unwrap(), ReadPlan::Zeros);
}

#[test]
fn write_past_end_extends_then_reads_back() {
    let mut bd = FileBD::new("disk.img").unwrap();
    bd.opened(2048);
    let plan = bd.plan_write(6).unwrap();
    assert_eq!(plan, WritePlan { append: 3, offset: 3072 });
    for _ in 0..plan.append {
        bd.block_appended(6);
    }
    assert_eq!(bd.blocks(), 7);
    assert_eq!(bd.plan_read(6).unwrap(), ReadPlan::At(plan.offset));
    assert_eq!(bd.plan_write(2).unwrap(), WritePlan { append: 0, offset: 1024 });
}

#[test]
fn close_resets_and_refuses_closing_twice() {
    let mut bd = FileBD::new("disk.img").unwrap();
    bd.opened(4096);
    assert!(bd.begin_close().is_ok());
    bd.closed();
    assert!(!bd.is_open());
    assert_eq!(bd.blocks(), 0);
    let r = bd.begin_close();
    assert!(is_invalid(&r, INVOP_CLOSE));
    assert!(is_invalid(&r, "Closed already closed file"));
}

#[test]
fn closed_device_refuses_reads_and_writes() {
    let bd = FileBD::new("disk.img").unwrap();
    match bd.plan_read(0) {
        Err(BDError::InvalidOperation(m)) => assert_eq!(m, INVOP_NOTOPEN),
        _ => panic!("read of a closed device accepted"),
    }
    match bd.plan_write(0) {
        Err(BDError::InvalidOperation(m)) => assert_eq!(m, "File not open"),
        _ => panic!("write of a closed device accepted"),
    }
}

#[test]
fn io_errors_convert() {
    let e = std::io::Error::new(std::io::ErrorKind::Other, "boom");
    let b: BDError = BDError::from(e);
    assert!(matches!(b, BDError::IOError(_)));
}

#[test]
fn fill_zeros_clears_buffer() {
    let mut buf: eofs::Block = [7u8; 512];
    fill_zeros(&mut buf);
    assert!(buf.iter().all(|b| *b == 0));
}
