//! The device capability table: the fixed set of entry points a text-output
//! device exposes, plus its auxiliary state.

use crate::status::Status;
use vstd::prelude::*;

verus! {

/// The capability table of a text-output device.
///
/// The real table is a fixed-layout record of entry points filled in by the
/// firmware, together with one pointer to auxiliary device state; the
/// firmware owns both, and the accessors in [`crate::output`] reach the
/// device only through this interface. Each method stands for one entry
/// point or one field of the auxiliary state.
///
/// Which status a call reports is the device's decision; the `ensures`
/// clauses below fix only the shape of that decision and what the firmware's
/// calling convention itself fixes. The read-only queries report a function
/// of the device's current state. Each mutating entry point reports a status
/// the pre-call state already held for it; for the write entry point those
/// pending replies are consumed in order, one per write, and the strings
/// delivered are recorded. The convention also fixes the auxiliary fields'
/// ranges, and two side effects of success: a successful clear parks the
/// cursor at the origin, and a successful mode selection shows in the
/// current-mode field.
pub trait CapabilityTable: Sized {
    /// The auxiliary mode-count field, as a mathematical value.
    spec fn spec_max_mode(&self) -> int;

    /// The auxiliary current-mode field, as a mathematical value.
    spec fn spec_mode(&self) -> int;

    /// The auxiliary cursor-column field, as a mathematical value.
    spec fn spec_cursor_column(&self) -> int;

    /// The auxiliary cursor-row field, as a mathematical value.
    spec fn spec_cursor_row(&self) -> int;

    /// The auxiliary cursor-visibility flag.
    spec fn spec_cursor_visible(&self) -> bool;

    /// What the query-mode entry point reports for an index in the device's
    /// current state: a status, a column count and a row count.
    spec fn spec_query(&self, index: usize) -> (Status, usize, usize);

    /// What the test-string entry point reports for a string in the device's
    /// current state.
    spec fn spec_test(&self, units: Seq<u16>) -> Status;

    /// The status the reset entry point reports when called in the device's
    /// current state.
    spec fn spec_reset_reply(&self, extended: bool) -> Status;

    /// The strings delivered to the write entry point so far, in order.
    spec fn spec_writes(&self) -> Seq<Seq<u16>>;

    /// The status the write entry point reports for the `k`-th write issued
    /// from the device's current state onward, counting from zero, when that
    /// write carries `units`. The replies are part of the device's state and
    /// are consumed in order, one per write.
    spec fn spec_write_reply(&self, k: int, units: Seq<u16>) -> Status;

    /// The status the set-mode entry point reports for an index in the
    /// device's current state.
    spec fn spec_set_mode_reply(&self, index: usize) -> Status;

    /// The status the set-attribute entry point reports for an attribute in
    /// the device's current state.
    spec fn spec_set_attribute_reply(&self, attribute: usize) -> Status;

    /// The status the clear entry point reports in the device's current
    /// state.
    spec fn spec_clear_reply(&self) -> Status;

    /// The status the set-cursor-position entry point reports for a position
    /// in the device's current state.
    spec fn spec_set_cursor_reply(&self, column: usize, row: usize) -> Status;

    /// The status the enable-cursor entry point reports in the device's
    /// current state.
    spec fn spec_enable_cursor_reply(&self, visible: bool) -> Status;

    /// Reinitialize the device hardware; `extended` requests a more
    /// exhaustive reset. The reported status is fixed by the device's state
    /// before the call; what the call does to that state is the device's
    /// business.
    fn reset(&mut self, extended: bool) -> (st: Status)
        ensures
            st == old(self).spec_reset_reply(extended),
    ;

    /// Write a null-terminated string of 16-bit code units to the device.
    /// The string is appended to the delivery record; the reported status is
    /// the reply the pre-call state held for its next write, and the replies
    /// held for the writes after it move up by one.
    fn output_string(&mut self, units: &[u16]) -> (st: Status)
        ensures
            st == old(self).spec_write_reply(0, units@),
            final(self).spec_writes() == old(self).spec_writes().push(units@),
            forall|k: int, u: Seq<u16>|
                0 <= k ==> #[trigger] final(self).spec_write_reply(k, u) == old(self).spec_write_reply(k + 1, u),
    ;

    /// Report whether every character of a null-terminated string is
    /// renderable. This probe does not change the device's state.
    fn test_string(&self, units: &[u16]) -> (st: Status)
        ensures
            st == self.spec_test(units@),
    ;

    /// Report the geometry of the mode at `index`. This query does not
    /// change the device's state.
    fn query_mode(&self, index: usize) -> (r: (Status, usize, usize))
        ensures
            r == self.spec_query(index),
    ;

    /// Select the mode at `index` as current. On success the auxiliary
    /// current-mode field holds the selected index; the field is 32 bits
    /// wide, so only an index that fits it can be stored.
    fn set_mode(&mut self, index: usize) -> (st: Status)
        ensures
            st == old(self).spec_set_mode_reply(index),
            (st.spec_is_success() && index <= 0x7fff_ffff) ==> final(self).spec_mode()
                == index as int,
    ;

    /// Set the packed color attribute for subsequent output.
    fn set_attribute(&mut self, attribute: usize) -> (st: Status)
        ensures
            st == old(self).spec_set_attribute_reply(attribute),
    ;

    /// Clear the screen to the current background color and move the cursor
    /// to the top-left corner: on success the auxiliary cursor fields read
    /// (0, 0).
    fn clear_screen(&mut self) -> (st: Status)
        ensures
            st == old(self).spec_clear_reply(),
            st.spec_is_success() ==> final(self).spec_cursor_column() == 0
                && final(self).spec_cursor_row() == 0,
    ;

    /// Move the cursor to the given column and row.
    fn set_cursor_position(&mut self, column: usize, row: usize) -> (st: Status)
        ensures
            st == old(self).spec_set_cursor_reply(column, row),
    ;

    /// Show or hide the cursor.
    fn enable_cursor(&mut self, visible: bool) -> (st: Status)
        ensures
            st == old(self).spec_enable_cursor_reply(visible),
    ;

    /// The number of modes the device supports. The calling convention
    /// keeps this field non-negative.
    fn max_mode(&self) -> (r: i32)
        ensures
            r as int == self.spec_max_mode(),
            r >= 0,
    ;

    /// The index of the current mode. The calling convention keeps this
    /// field at -1 (no mode selected) or at a non-negative index.
    fn mode(&self) -> (r: i32)
        ensures
            r as int == self.spec_mode(),
            r >= -1,
    ;

    /// The cursor's column. The calling convention keeps this field
    /// non-negative.
    fn cursor_column(&self) -> (r: i32)
        ensures
            r as int == self.spec_cursor_column(),
            r >= 0,
    ;

    /// The cursor's row. The calling convention keeps this field
    /// non-negative.
    fn cursor_row(&self) -> (r: i32)
        ensures
            r as int == self.spec_cursor_row(),
            r >= 0,
    ;

    /// Whether the cursor is currently shown.
    fn cursor_visible(&self) -> (r: bool)
        ensures
            r == self.spec_cursor_visible(),
    ;
}

} // verus!
