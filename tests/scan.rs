use mculink::catalog::{CatalogError, VariableInfo, MCULINK_MAGIC, RECORD_LEN};
use mculink::scan::{ScanAction, Scanner, DEFAULT_MCULINK_ADDRESS};

struct Memory {
    base: u64,
    bytes: Vec<u8>,
    reads: Vec<(u64, usize)>,
}

impl Memory {
    fn new(base: u64, len: usize) -> Memory {
        Memory { base, bytes: vec![0; len], reads: Vec::new() }
    }

    fn read(&mut self, addr: u64, len: usize) -> Option<Vec<u8>> {
        self.reads.push((addr, len));
        if addr < self.base || addr + len as u64 > self.base + self.bytes.len() as u64 {
            return None;
        }
        let at = (addr - self.base) as usize;
        Some(self.bytes[at..at + len].to_vec())
    }

    fn plant(&mut self, offset: usize, name: &str, address: u32) {
        let mut b = Vec::new();
        b.extend_from_slice(&MCULINK_MAGIC.to_le_bytes());
        b.extend_from_slice(&address.to_le_bytes());
        b.extend_from_slice(&[0, 1, 0, 0]);
        b.extend_from_slice(&0f32.to_le_bytes());
        b.extend_from_slice(&1f32.to_le_bytes());
        let mut name_field = [0u8; 32];
        name_field[..name.len()].copy_from_slice(name.as_bytes());
        b.extend_from_slice(&name_field);
        b.extend_from_slice(&[0u8; 22]);
        self.bytes[offset..offset + RECORD_LEN].copy_from_slice(&b);
    }
}

fn run(mut s: Scanner, mem: &mut Memory) -> Result<Vec<VariableInfo>, CatalogError> {
    loop {
        match s.next_action() {
            ScanAction::ReadMagic(a) => {
                let r = mem.read(a, 4);
                s.on_magic(r);
            },
            ScanAction::ReadRecord(a) => {
                let r = mem.read(a, RECORD_LEN);
                s.on_record(r);
            },
            ScanAction::Finished => return s.finish(),
        }
    }
}

#[test]
fn finds_entries_at_both_ends_of_the_window() {
    let start = 0x2000_0000u32;
    let mut mem = Memory::new(start as u64, 4096 + RECORD_LEN);
    mem.plant(0, "first", 0x100);
    mem.plant(4092, "last", 0x200);
    let found = run(Scanner::new(start), &mut mem).unwrap();
    assert_eq!(found.len(), 2);
    assert_eq!(found[0].name, "first");
    assert_eq!(found[1].name, "last");
    assert_eq!(found[0].address, 0x100);
    assert_eq!(found[1].address, 0x200);
    let magic_reads: Vec<u64> = mem.reads.iter().filter(|r| r.1 == 4).map(|r| r.0).collect();
    assert_eq!(magic_reads.len(), 1024);
    assert_eq!(*magic_reads.last().unwrap(), start as u64 + 4092);
    assert!(mem.reads.iter().all(|r| r.0 < start as u64 + 4096));
}

#[test]
fn stops_at_the_entry_cap_earliest_first() {
    let start = 0x2400_0000u32;
    let mut mem = Memory::new(start as u64, 4096 + RECORD_LEN);
    for k in 0..25 {
        mem.plant(k * 80, &format!("var{}", k), k as u32);
    }
    let found = run(Scanner::new(start), &mut mem).unwrap();
    assert_eq!(found.len(), 20);
    for (k, v) in found.iter().enumerate() {
        assert_eq!(v.name, format!("var{}", k));
    }
    let last = mem.reads.last().unwrap();
    assert_eq!(*last, (start as u64 + 19 * 80, RECORD_LEN));
}

#[test]
fn skips_bad_records_and_continues() {
    let start = 0x2000_0000u32;
    let mut mem = Memory::new(start as u64, 4096 + RECORD_LEN);
    mem.plant(0, "bad_type", 1);
    mem.bytes[8] = 7;
    mem.plant(100, "bad_access", 2);
    mem.bytes[109] = 2;
    mem.plant(200, "good", 3);
    let found = run(Scanner::new(start), &mut mem).unwrap();
    assert_eq!(found.len(), 1);
    assert_eq!(found[0].name, "good");
}

#[test]
fn failed_reads_count_as_no_match() {
    let start = 0x0800_0000u32;
    let mut mem = Memory::new(start as u64 + 2048, 2048 + RECORD_LEN);
    mem.plant(16, "late", 9);
    let found = run(Scanner::new(start), &mut mem).unwrap();
    assert_eq!(found.len(), 1);
    assert_eq!(found[0].name, "late");
}

#[test]
fn a_record_that_cannot_be_read_is_skipped() {
    let start = 0x2000_0000u32;
    let mut mem = Memory::new(start as u64, 4096 + 4);
    mem.bytes[4092..4096].copy_from_slice(&MCULINK_MAGIC.to_le_bytes());
    assert_eq!(run(Scanner::new(start), &mut mem).unwrap_err(), CatalogError::NoCatalogFound);
}

#[test]
fn empty_window_finds_nothing() {
    let mut mem = Memory::new(DEFAULT_MCULINK_ADDRESS as u64, 8192);
    let r = run(Scanner::new(DEFAULT_MCULINK_ADDRESS), &mut mem);
    assert_eq!(r.unwrap_err(), CatalogError::NoCatalogFound);
    let mut mem = Memory::new(0, 64);
    let s = Scanner::with_limits(0, 0, 20);
    assert_eq!(s.next_action(), ScanAction::Finished);
    assert!(run(s, &mut mem).is_err());
    assert!(mem.reads.is_empty());
}

#[test]
fn custom_limits_are_honoured() {
    let mut mem = Memory::new(0, 1024);
    mem.plant(0, "a", 1);
    mem.plant(200, "b", 2);
    mem.plant(400, "c", 3);
    let found = run(Scanner::with_limits(0, 1024, 2), &mut mem).unwrap();
    assert_eq!(found.len(), 2);
    let found = run(Scanner::with_limits(0, 300, 20), &mut mem).unwrap();
    assert_eq!(found.len(), 2);
}
