//! An in-memory device: it records every call made through the capability
//! table and answers with scripted replies. It stands in for real hardware
//! when the accessors are exercised off the firmware.

use crate::device::CapabilityTable;
use crate::status::{Status, SUCCESS, UNSUPPORTED};
use vstd::prelude::*;

verus! {

/// A scripted text-output device.
///
/// The auxiliary fields play the part of the firmware's auxiliary state; the
/// reply fields script what each entry point reports. A mode query succeeds
/// for every index below the mode count that is not listed as unsupported,
/// and reports a geometry derived from the index. Every call through the
/// table is recorded.
pub struct ScriptedDevice {
    /// The number of modes the device claims to support; values below zero
    /// count as zero.
    pub max_modes: i32,
    /// The current-mode field; -1 means no mode is selected, and values
    /// below -1 count as -1.
    pub current: i32,
    /// The cursor's column; values below zero count as zero.
    pub column: i32,
    /// The cursor's row; values below zero count as zero.
    pub row: i32,
    /// Whether the cursor is shown.
    pub visible: bool,
    /// Mode indices whose query fails even below the mode count.
    pub unsupported: Vec<usize>,
    /// Scripted replies for successive writes; exhausted entries succeed.
    pub write_replies: Vec<u64>,
    /// The scripted reply of the test-string entry point.
    pub test_reply: u64,
    /// The scripted reply of every other mutating entry point.
    pub call_reply: u64,
    /// Every string written, in order.
    pub writes: Vec<Vec<u16>>,
    /// Every attribute set, in order.
    pub attributes: Vec<usize>,
    /// The extended flag of every reset, in order.
    pub resets: Vec<bool>,
    /// How many times the screen was cleared.
    pub clears: usize,
    /// Every mode index selected, in order.
    pub mode_sets: Vec<usize>,
    /// Every cursor position set, in order.
    pub cursor_sets: Vec<(usize, usize)>,
    /// Every cursor-visibility change, in order.
    pub cursor_enables: Vec<bool>,
}

impl ScriptedDevice {
    /// A quiet device: no modes, no mode selected, cursor hidden at the
    /// origin, and every call succeeding.
    pub fn new() -> (r: ScriptedDevice)
        ensures
            r.spec_max_mode() == 0,
            r.spec_mode() == -1,
            r.spec_cursor_column() == 0,
            r.spec_cursor_row() == 0,
            !r.spec_cursor_visible(),
            r.writes@.len() == 0,
            r.unsupported@ == Seq::<usize>::empty(),
            r.write_replies@ == Seq::<u64>::empty(),
            r.test_reply == SUCCESS,
            r.call_reply == SUCCESS,
    {
        ScriptedDevice {
            max_modes: 0,
            current: -1,
            column: 0,
            row: 0,
            visible: false,
            unsupported: Vec::new(),
            write_replies: Vec::new(),
            test_reply: SUCCESS,
            call_reply: SUCCESS,
            writes: Vec::new(),
            attributes: Vec::new(),
            resets: Vec::new(),
            clears: 0,
            mode_sets: Vec::new(),
            cursor_sets: Vec::new(),
            cursor_enables: Vec::new(),
        }
    }

    /// Whether an index is listed as unsupported.
    fn skips(&self, index: usize) -> (r: bool)
        ensures
            r == self.unsupported@.contains(index),
    {
        let mut i: usize = 0;
        while i < self.unsupported.len()
            invariant
                i <= self.unsupported@.len(),
                forall|j: int| 0 <= j < i ==> self.unsupported@[j] != index,
            decreases self.unsupported@.len() - i,
        {
            if self.unsupported[i] == index {
                assert(self.unsupported@[i as int] == index);
                return true;
            }
            i = i + 1;
        }
        false
    }

    /// The scripted reply for the write at position `n`.
    fn write_reply(&self, n: usize) -> (r: Status)
        ensures
            r == if n < self.write_replies@.len() {
                Status(self.write_replies@[n as int])
            } else {
                Status(SUCCESS)
            },
    {
        if n < self.write_replies.len() {
            Status(self.write_replies[n])
        } else {
            Status(SUCCESS)
        }
    }
}

impl CapabilityTable for ScriptedDevice {
    open spec fn spec_max_mode(&self) -> int {
        if self.max_modes >= 0 {
            self.max_modes as int
        } else {
            0
        }
    }

    open spec fn spec_mode(&self) -> int {
        if self.current >= -1 {
            self.current as int
        } else {
            -1
        }
    }

    open spec fn spec_cursor_column(&self) -> int {
        if self.column >= 0 {
            self.column as int
        } else {
            0
        }
    }

    open spec fn spec_cursor_row(&self) -> int {
        if self.row >= 0 {
            self.row as int
        } else {
            0
        }
    }

    open spec fn spec_cursor_visible(&self) -> bool {
        self.visible
    }

    open spec fn spec_query(&self, index: usize) -> (Status, usize, usize) {
        if index < self.spec_max_mode() && !self.unsupported@.contains(index) {
            (Status(SUCCESS), (80 + index) as usize, (25 + index) as usize)
        } else {
            (Status(UNSUPPORTED), 0usize, 0usize)
        }
    }

    open spec fn spec_test(&self, units: Seq<u16>) -> Status {
        Status(self.test_reply)
    }

    open spec fn spec_reset_reply(&self, extended: bool) -> Status {
        Status(self.call_reply)
    }

    open spec fn spec_writes(&self) -> Seq<Seq<u16>> {
        self.writes@.map_values(|w: Vec<u16>| w@)
    }

    open spec fn spec_write_reply(&self, k: int, units: Seq<u16>) -> Status {
        if 0 <= self.writes@.len() + k < self.write_replies@.len() {
            Status(self.write_replies@[self.writes@.len() + k])
        } else {
            Status(SUCCESS)
        }
    }

    open spec fn spec_set_mode_reply(&self, index: usize) -> Status {
        Status(self.call_reply)
    }

    open spec fn spec_set_attribute_reply(&self, attribute: usize) -> Status {
        Status(self.call_reply)
    }

    open spec fn spec_clear_reply(&self) -> Status {
        Status(self.call_reply)
    }

    open spec fn spec_set_cursor_reply(&self, column: usize, row: usize) -> Status {
        Status(self.call_reply)
    }

    open spec fn spec_enable_cursor_reply(&self, visible: bool) -> Status {
        Status(self.call_reply)
    }

    fn reset(&mut self, extended: bool) -> Status {
        self.resets.push(extended);
        Status(self.call_reply)
    }

    fn output_string(&mut self, units: &[u16]) -> (st: Status) {
        let mut written: Vec<u16> = Vec::new();
        let mut i: usize = 0;
        while i < units.len()
            invariant
                i <= units@.len(),
                written@ == units@.take(i as int),
            decreases units@.len() - i,
        {
            let u = units[i];
            proof {
                assert(units@.take(i as int).push(u) =~= units@.take(i + 1 as int));
            }
            written.push(u);
            i = i + 1;
        }
        proof {
            assert(written@ =~= units@);
        }
        let n = self.writes.len();
        self.writes.push(written);
        proof {
            assert(self.writes@.map_values(|w: Vec<u16>| w@) =~= old(self).writes@.map_values(|w: Vec<u16>| w@).push(units@));
        }
        self.write_reply(n)
    }

    fn test_string(&self, units: &[u16]) -> (st: Status) {
        Status(self.test_reply)
    }

    fn query_mode(&self, index: usize) -> (r: (Status, usize, usize)) {
        let max: usize = if self.max_modes >= 0 {
            self.max_modes as usize
        } else {
            0
        };
        if index < max && !self.skips(index) {
            (Status(SUCCESS), 80 + index, 25 + index)
        } else {
            (Status(UNSUPPORTED), 0, 0)
        }
    }

    fn set_mode(&mut self, index: usize) -> (st: Status) {
        self.mode_sets.push(index);
        let st = Status(self.call_reply);
        if st.is_success() && index <= 0x7fff_ffff {
            self.current = index as i32;
        }
        st
    }

    fn set_attribute(&mut self, attribute: usize) -> Status {
        self.attributes.push(attribute);
        Status(self.call_reply)
    }

    fn clear_screen(&mut self) -> (st: Status) {
        if self.clears < usize::MAX {
            self.clears = self.clears + 1;
        }
        let st = Status(self.call_reply);
        if st.is_success() {
            self.column = 0;
            self.row = 0;
        }
        st
    }

    fn set_cursor_position(&mut self, column: usize, row: usize) -> Status {
        self.cursor_sets.push((column, row));
        Status(self.call_reply)
    }

    fn enable_cursor(&mut self, visible: bool) -> Status {
        self.cursor_enables.push(visible);
        Status(self.call_reply)
    }

    fn max_mode(&self) -> (r: i32) {
        if self.max_modes >= 0 {
            self.max_modes
        } else {
            0
        }
    }

    fn mode(&self) -> (r: i32) {
        if self.current >= -1 {
            self.current
        } else {
            -1
        }
    }

    fn cursor_column(&self) -> (r: i32) {
        if self.column >= 0 {
            self.column
        } else {
            0
        }
    }

    fn cursor_row(&self) -> (r: i32) {
        if self.row >= 0 {
            self.row
        } else {
            0
        }
    }

    fn cursor_visible(&self) -> (r: bool) {
        self.visible
    }
}

} // verus!
