//! The catalog scanner: walks a bounded window of target memory at 4-byte
//! steps looking for magic-tagged records and collects the ones that parse.
//!
//! The scanner never touches the target itself. It says which read it needs
//! next (`next_action`), and the caller performs that read and hands back what
//! came of it (`on_magic`, `on_record`). A read that failed is passed as
//! `None` and counts as "no record here".
use vstd::prelude::*;
use crate::catalog::{parse_record, record_error, CatalogError, VariableInfo, MCULINK_MAGIC};
use crate::codec::{le_u32, u32_at};

verus! {

/// Address at which the firmware's linker script places the catalog.
pub const DEFAULT_MCULINK_ADDRESS: u32 = 0x080F0000;

/// Bytes scanned from the start address unless told otherwise.
pub const DEFAULT_WINDOW: u32 = 4096;

/// Records collected before a scan stops unless told otherwise.
pub const DEFAULT_MAX_ENTRIES: usize = 20;

/// Distance between two candidate addresses.
pub const SCAN_STEP: u32 = 4;

/// The read a scan needs next.
#[derive(Debug, Clone, Copy, PartialEq, Eq, Structural)]
pub enum ScanAction {
    /// Read 4 bytes at this address and pass them to `on_magic`.
    ReadMagic(u64),
    /// Read a whole record at this address and pass it to `on_record`.
    ReadRecord(u64),
    /// The scan is over; call `finish`.
    Finished,
}

/// What a scan in progress is, abstractly.
pub ghost struct ScanModel {
    pub start: int,
    pub window: int,
    pub max_entries: int,
    /// Offset of the current candidate from `start`.
    pub offset: int,
    /// The magic tag was seen at the current candidate.
    pub matched: bool,
    pub found: Seq<VariableInfo>,
    /// The address at which each entry of `found` was read.
    pub found_at: Seq<int>,
}

impl ScanModel {
    pub open spec fn finished(self) -> bool {
        self.found.len() >= self.max_entries || self.offset >= self.window
    }

    pub open spec fn candidate(self) -> int {
        self.start + self.offset
    }

    pub open spec fn wf(self) -> bool {
        &&& 0 <= self.start <= u32::MAX
        &&& 0 <= self.window <= u32::MAX
        &&& 0 <= self.offset < self.window + SCAN_STEP
        &&& self.offset % 4 == 0
        &&& self.found.len() <= self.max_entries
        &&& self.found.len() == self.found_at.len()
        &&& (self.matched ==> !self.finished())
        &&& forall|i: int, j: int|
            0 <= i < j < self.found_at.len() ==> self.found_at[i] < self.found_at[j]
        &&& forall|i: int|
            0 <= i < self.found_at.len() ==> self.start <= #[trigger] self.found_at[i]
                < self.start + self.offset
    }
}

/// Whether a 4-byte read came back holding the magic tag.
pub open spec fn holds_magic(read: Option<Vec<u8>>) -> bool {
    read matches Some(b) && b@.len() >= 4 && le_u32(b@.subrange(0, 4)) == MCULINK_MAGIC
}

/// A scan of one memory window.
pub struct Scanner {
    start: u32,
    window: u32,
    max_entries: usize,
    offset: u64,
    matched: bool,
    found: Vec<VariableInfo>,
    found_at: Ghost<Seq<int>>,
}

impl View for Scanner {
    type V = ScanModel;

    closed spec fn view(&self) -> ScanModel {
        ScanModel {
            start: self.start as int,
            window: self.window as int,
            max_entries: self.max_entries as int,
            offset: self.offset as int,
            matched: self.matched,
            found: self.found@,
            found_at: self.found_at@,
        }
    }
}

impl Scanner {
    /// A scan of the default window from `start_address`.
    pub fn new(start_address: u32) -> (r: Scanner)
        ensures
            r@.wf(),
            r@.start == start_address,
            r@.window == DEFAULT_WINDOW,
            r@.max_entries == DEFAULT_MAX_ENTRIES,
            r@.offset == 0,
            !r@.matched,
            r@.found.len() == 0,
    {
        Scanner::with_limits(start_address, DEFAULT_WINDOW, DEFAULT_MAX_ENTRIES)
    }

    /// A scan of `window_bytes` from `start_address` that stops after
    /// `max_entries` records.
    pub fn with_limits(start_address: u32, window_bytes: u32, max_entries: usize) -> (r: Scanner)
        ensures
            r@.wf(),
            r@.start == start_address,
            r@.window == window_bytes,
            r@.max_entries == max_entries,
            r@.offset == 0,
            !r@.matched,
            r@.found.len() == 0,
    {
        Scanner {
            start: start_address,
            window: window_bytes,
            max_entries,
            offset: 0,
            matched: false,
            found: Vec::new(),
            found_at: Ghost(Seq::empty()),
        }
    }

    /// The read the scan needs next.
    pub fn next_action(&self) -> (r: ScanAction)
        requires
            self@.wf(),
        ensures
            self@.finished() ==> r == ScanAction::Finished,
            !self@.finished() && self@.matched ==> r == ScanAction::ReadRecord(
                self@.candidate() as u64,
            ),
            !self@.finished() && !self@.matched ==> r == ScanAction::ReadMagic(
                self@.candidate() as u64,
            ),
            r matches ScanAction::ReadMagic(a) ==> self@.start <= a < self@.start + self@.window,
            r matches ScanAction::ReadRecord(a) ==> self@.start <= a < self@.start + self@.window,
    {
        if self.found.len() >= self.max_entries || self.offset >= self.window as u64 {
            ScanAction::Finished
        } else if self.matched {
            ScanAction::ReadRecord(self.start as u64 + self.offset)
        } else {
            ScanAction::ReadMagic(self.start as u64 + self.offset)
        }
    }

    /// Takes the result of reading 4 bytes at the current candidate. On the
    /// magic tag the scan asks for the record there; otherwise it moves on.
    pub fn on_magic(&mut self, read: Option<Vec<u8>>)
        requires
            old(self)@.wf(),
            !old(self)@.finished(),
            !old(self)@.matched,
        ensures
            final(self)@.wf(),
            final(self)@.start == old(self)@.start,
            final(self)@.window == old(self)@.window,
            final(self)@.max_entries == old(self)@.max_entries,
            final(self)@.found == old(self)@.found,
            final(self)@.found_at == old(self)@.found_at,
            holds_magic(read) ==> final(self)@.matched && final(self)@.offset == old(self)@.offset,
            !holds_magic(read) ==> !final(self)@.matched && final(self)@.offset == old(self)@.offset
                + SCAN_STEP,
    {
        let hit = match &read {
            Some(b) => b.len() >= 4 && u32_at(b.as_slice(), 0) == MCULINK_MAGIC,
            None => false,
        };
        if hit {
            self.matched = true;
        } else {
            self.offset = self.offset + SCAN_STEP as u64;
        }
    }

    /// Takes the result of reading a record at the current candidate. A
    /// record that parses is collected; one that does not (a stray magic
    /// value, an unknown type or access code, bad text) is skipped. Either way
    /// the scan moves on to the next candidate.
    pub fn on_record(&mut self, read: Option<Vec<u8>>)
        requires
            old(self)@.wf(),
            old(self)@.matched,
        ensures
            final(self)@.wf(),
            final(self)@.start == old(self)@.start,
            final(self)@.window == old(self)@.window,
            final(self)@.max_entries == old(self)@.max_entries,
            !final(self)@.matched,
            final(self)@.offset == old(self)@.offset + SCAN_STEP,
            (read matches Some(b) && record_error(b@) is None) ==> {
                &&& final(self)@.found.len() == old(self)@.found.len() + 1
                &&& final(self)@.found.drop_last() == old(self)@.found
                &&& final(self)@.found.last().describes(read->Some_0@)
                &&& final(self)@.found_at == old(self)@.found_at.push(old(self)@.candidate())
            },
            !(read matches Some(b) && record_error(b@) is None) ==> final(self)@.found == old(
                self,
            )@.found && final(self)@.found_at == old(self)@.found_at,
    {
        if let Some(b) = &read {
            match parse_record(b.as_slice()) {
                Ok(v) => {
                    let ghost at = self@.candidate();
                    self.found.push(v);
                    self.found_at = Ghost(self.found_at@.push(at));
                    assert(self.found@.drop_last() =~= old(self)@.found);
                },
                Err(_) => {},
            }
        }
        self.matched = false;
        self.offset = self.offset + SCAN_STEP as u64;
    }

    /// Number of records collected so far.
    pub fn entries_found(&self) -> (r: usize)
        ensures
            r == self@.found.len(),
    {
        self.found.len()
    }

    /// Ends the scan: the records collected, in address order, or
    /// `NoCatalogFound` when there are none.
    pub fn finish(self) -> (r: Result<Vec<VariableInfo>, CatalogError>)
        ensures
            self@.found.len() == 0 ==> r == Err::<Vec<VariableInfo>, CatalogError>(
                CatalogError::NoCatalogFound,
            ),
            self@.found.len() > 0 ==> (r matches Ok(v) && v@ == self@.found),
    {
        if self.found.len() == 0 {
            Err(CatalogError::NoCatalogFound)
        } else {
            Ok(self.found)
        }
    }
}

} // verus!
