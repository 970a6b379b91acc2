//! Checked accessors over a text-output device: every entry point of the
//! capability table, mode enumeration, and the buffered write path.

use crate::color::{attribute_value, Color};
use crate::device::CapabilityTable;
use crate::encoder::{
    encode_units, has_interior_nul, is_cstr16, lemma_nul_reaches_a_chunk,
    lemma_translation_keeps_terminators, spec_chunks, spec_has_interior_nul, stage_chunks,
    translate_line_feeds, translated_units,
};
use crate::error::Error;
use crate::status::{Status, WARN_UNKNOWN_GLYPH, UNSUPPORTED};
use vstd::prelude::*;

verus! {

/// How many write calls the buffered write path issues when flushing a
/// chunk list from position `j` on: chunks go out in order; a chunk holding
/// an interior terminator stops the path before its write, and a
/// non-success reply stops it after.
pub open spec fn spec_flushes_from<D: CapabilityTable>(d: D, cs: Seq<Seq<u16>>, j: int) -> int
    decreases cs.len() - j,
{
    if j < 0 || j >= cs.len() {
        0
    } else if spec_has_interior_nul(cs[j]) {
        0
    } else if !d.spec_write_reply(j, cs[j]).spec_is_success() {
        1
    } else {
        1 + spec_flushes_from(d, cs, j + 1)
    }
}

/// Whether flushing a chunk list from position `j` on runs to the end:
/// every chunk free of interior terminators, every reply a success.
pub open spec fn spec_flush_succeeds<D: CapabilityTable>(d: D, cs: Seq<Seq<u16>>, j: int) -> bool
    decreases cs.len() - j,
{
    if j < 0 || j >= cs.len() {
        true
    } else if spec_has_interior_nul(cs[j]) {
        false
    } else if !d.spec_write_reply(j, cs[j]).spec_is_success() {
        false
    } else {
        spec_flush_succeeds(d, cs, j + 1)
    }
}

proof fn lemma_flush_prefix<D: CapabilityTable>(d: D, cs: Seq<Seq<u16>>, k: int)
    requires
        0 <= k <= cs.len(),
        forall|j: int| 0 <= j < k ==> !spec_has_interior_nul(#[trigger] cs[j]),
        forall|j: int| 0 <= j < k ==> (#[trigger] d.spec_write_reply(j, cs[j])).spec_is_success(),
    ensures
        spec_flushes_from(d, cs, 0) == k + spec_flushes_from(d, cs, k),
        spec_flush_succeeds(d, cs, 0) == spec_flush_succeeds(d, cs, k),
    decreases k,
{
    if k > 0 {
        lemma_flush_prefix(d, cs, k - 1);
        assert(!spec_has_interior_nul(cs[k - 1]));
        assert(d.spec_write_reply(k - 1, cs[k - 1]).spec_is_success());
        assert(spec_flushes_from(d, cs, k - 1) == 1 + spec_flushes_from(d, cs, k));
        assert(spec_flush_succeeds(d, cs, k - 1) == spec_flush_succeeds(d, cs, k));
    }
}

/// The failure a buffered write reports: the text could not be encoded, or
/// the device refused a write. The status of the device call, if any, is not
/// kept; partial output already flushed stays on the screen.
#[derive(Clone, Copy, Debug, PartialEq, Eq, Structural)]
pub struct WriteError;

/// Interface to a text-based output device.
///
/// Every operation reaches the device through the capability table it was
/// built over and wraps the raw status that comes back into a structured
/// outcome.
pub struct Output<D: CapabilityTable> {
    /// The device's capability table and auxiliary state.
    pub device: D,
}

/// The text mode (resolution) of the output device.
#[derive(Clone, Copy, Debug, PartialEq, Eq, PartialOrd, Ord)]
pub struct OutputMode {
    index: usize,
    dims: (usize, usize),
}

impl OutputMode {
    /// The index this mode was queried with.
    pub closed spec fn spec_index(self) -> usize {
        self.index
    }

    /// The width, in columns.
    pub closed spec fn spec_columns(self) -> usize {
        self.dims.0
    }

    /// The height, in rows.
    pub closed spec fn spec_rows(self) -> usize {
        self.dims.1
    }

    /// Returns the index of this mode.
    pub fn index(&self) -> (r: usize)
        ensures
            r == self.spec_index(),
    {
        self.index
    }

    /// Returns the width in columns.
    pub fn columns(&self) -> (r: usize)
        ensures
            r == self.spec_columns(),
    {
        self.dims.0
    }

    /// Returns the height in rows.
    pub fn rows(&self) -> (r: usize)
        ensures
            r == self.spec_rows(),
    {
        self.dims.1
    }
}

/// An enumerator of the text modes (possibly) supported by a device.
///
/// It walks the indices below the device's reported mode count in ascending
/// order and silently skips every index whose query fails: one unsupported
/// index must not end the enumeration of the rest.
#[derive(Clone, Copy, Debug)]
pub struct OutputModeIter {
    current: usize,
    max: usize,
}

impl OutputModeIter {
    /// The next index this enumerator will query.
    pub closed spec fn spec_current(self) -> usize {
        self.current
    }

    /// The first index past the enumeration, as the device reported it when
    /// the enumerator was made.
    pub closed spec fn spec_max(self) -> usize {
        self.max
    }

    /// Queries indices in ascending order, starting at the enumerator's
    /// position, and yields the first supported mode found, skipping every
    /// index whose query fails. Yields nothing once the position reaches the
    /// mode count.
    pub fn next<D: CapabilityTable>(&mut self, output: &Output<D>) -> (r: Option<OutputMode>)
        ensures
            final(self).spec_max() == old(self).spec_max(),
            match r {
                Some(m) => {
                    &&& old(self).spec_current() <= m.spec_index() < old(self).spec_max()
                    &&& final(self).spec_current() == m.spec_index() + 1
                    &&& ({
                        let q = output.device.spec_query(m.spec_index());
                        &&& q.0.spec_is_success()
                        &&& m.spec_columns() == q.1
                        &&& m.spec_rows() == q.2
                    })
                    &&& forall|j: usize|
                        old(self).spec_current() <= j < m.spec_index() ==> !(
                        #[trigger] output.device.spec_query(j)).0.spec_is_success()
                },
                None => {
                    &&& final(self).spec_current() == if old(self).spec_current()
                        >= old(self).spec_max() {
                        old(self).spec_current()
                    } else {
                        old(self).spec_max()
                    }
                    &&& forall|j: usize|
                        old(self).spec_current() <= j < old(self).spec_max() ==> !(
                        #[trigger] output.device.spec_query(j)).0.spec_is_success()
                },
            },
    {
        while self.current < self.max
            invariant
                self.max == old(self).spec_max(),
                old(self).spec_current() <= self.current,
                self.current <= self.max || self.current == old(self).spec_current(),
                forall|j: usize|
                    old(self).spec_current() <= j < self.current ==> !(
                    #[trigger] output.device.spec_query(j)).0.spec_is_success(),
            decreases self.max - self.current,
        {
            let index = self.current;
            self.current = self.current + 1;
            match output.query_mode(index) {
                Ok(dims) => {
                    return Some(OutputMode { index, dims });
                },
                Err(_) => {},
            }
        }
        None
    }
}

impl<D: CapabilityTable> Output<D> {
    /// Wraps a device's capability table.
    pub fn new(device: D) -> (r: Output<D>)
        ensures
            r.device == device,
    {
        Output { device }
    }

    /// Resets and clears the text output device hardware.
    pub fn reset(&mut self, extended: bool) -> (r: Result<(), Error<()>>)
        ensures
            ({
                let st = old(self).device.spec_reset_reply(extended);
                &&& st.spec_is_success() ==> r == Ok::<(), Error<()>>(())
                &&& !st.spec_is_success() ==> (r matches Err(e) && e.spec_status() == st)
            }),
    {
        let st = self.device.reset(extended);
        st.to_result()
    }

    /// Clears the output screen.
    ///
    /// The background is set to the current background color.
    /// On success the cursor is moved to (0, 0).
    pub fn clear(&mut self) -> (r: Result<(), Error<()>>)
        ensures
            ({
                let st = old(self).device.spec_clear_reply();
                &&& st.spec_is_success() ==> r == Ok::<(), Error<()>>(())
                &&& !st.spec_is_success() ==> (r matches Err(e) && e.spec_status() == st)
                &&& st.spec_is_success() ==> (final(self).device.spec_cursor_column() == 0
                    && final(self).device.spec_cursor_row() == 0)
            }),
    {
        let st = self.device.clear_screen();
        st.to_result()
    }

    /// Writes a null-terminated string of code units to the output device.
    pub fn output_string(&mut self, units: &[u16]) -> (r: Result<(), Error<()>>)
        requires
            is_cstr16(units@),
        ensures
            ({
                let st = old(self).device.spec_write_reply(0, units@);
                &&& st.spec_is_success() ==> r == Ok::<(), Error<()>>(())
                &&& !st.spec_is_success() ==> (r matches Err(e) && e.spec_status() == st)
            }),
            final(self).device.spec_writes() == old(self).device.spec_writes().push(units@),
            forall|k: int, u: Seq<u16>|
                0 <= k ==> #[trigger] final(self).device.spec_write_reply(k, u) == old(self).device.spec_write_reply(k + 1, u),
    {
        let st = self.device.output_string(units);
        st.to_result()
    }

    /// Writes a null-terminated string of code units to the output device.
    /// If the string contains unknown characters that cannot be rendered
    /// they will be silently skipped: the device's unknown-glyph warning is
    /// treated as success. Every other non-success outcome propagates
    /// unchanged.
    pub fn output_string_lossy(&mut self, units: &[u16]) -> (r: Result<(), Error<()>>)
        requires
            is_cstr16(units@),
        ensures
            ({
                let st = old(self).device.spec_write_reply(0, units@);
                &&& (st.spec_is_success() || st == Status(WARN_UNKNOWN_GLYPH)) ==> r == Ok::<
                    (),
                    Error<()>,
                >(())
                &&& (!st.spec_is_success() && st != Status(WARN_UNKNOWN_GLYPH)) ==> (r matches Err(
                    e,
                ) && e.spec_status() == st)
            }),
            final(self).device.spec_writes() == old(self).device.spec_writes().push(units@),
            forall|k: int, u: Seq<u16>|
                0 <= k ==> #[trigger] final(self).device.spec_write_reply(k, u) == old(self).device.spec_write_reply(k + 1, u),
    {
        let first = self.output_string(units);
        absorb_unknown_glyph(first)
    }

    /// Checks whether a null-terminated string contains only supported
    /// characters. The device's "unsupported" reply is meaningful data for
    /// this probe, not a failure: it comes back as a successful `false`.
    pub fn test_string(&mut self, units: &[u16]) -> (r: Result<bool, Error<()>>)
        requires
            is_cstr16(units@),
        ensures
            *final(self) == *old(self),
            ({
                let st = old(self).device.spec_test(units@);
                &&& st == Status(UNSUPPORTED) ==> r == Ok::<bool, Error<()>>(false)
                &&& (st != Status(UNSUPPORTED) && st.spec_is_success()) ==> r == Ok::<
                    bool,
                    Error<()>,
                >(true)
                &&& (st != Status(UNSUPPORTED) && !st.spec_is_success()) ==> (r matches Err(e)
                    && e.spec_status() == st)
            }),
    {
        let st = self.device.test_string(units);
        if st == Status(UNSUPPORTED) {
            Ok(false)
        } else {
            st.to_result_with(true)
        }
    }

    /// Returns an enumerator of all supported text modes, positioned at
    /// index 0 with the mode count read from the device's auxiliary state.
    pub fn modes(&self) -> (r: OutputModeIter)
        ensures
            r.spec_current() == 0,
            r.spec_max() as int == self.device.spec_max_mode(),
    {
        let max = self.device.max_mode() as usize;
        OutputModeIter { current: 0, max }
    }

    /// Returns the width (column count) and height (row count) of a text
    /// mode, or the failure the device reported.
    ///
    /// Devices are required to support at least an 80x25 text mode and to
    /// assign index 0 to it. If 80x50 is supported, then it will be mode 1,
    /// otherwise querying for mode 1 will return the `Unsupported` error.
    /// Modes 2+ describe other text modes supported by the device.
    pub fn query_mode(&self, index: usize) -> (r: Result<(usize, usize), Error<()>>)
        ensures
            ({
                let q = self.device.spec_query(index);
                &&& q.0.spec_is_success() ==> r == Ok::<(usize, usize), Error<()>>((q.1, q.2))
                &&& !q.0.spec_is_success() ==> (r matches Err(e) && e.spec_status() == q.0)
            }),
    {
        let (st, columns, rows) = self.device.query_mode(index);
        st.to_result_with((columns, rows))
    }

    /// Returns the current text mode: nothing when the auxiliary mode field
    /// says no mode is selected, otherwise the mode whose index matches that
    /// field, with its geometry recovered by a query.
    pub fn current_mode(&self) -> (r: Result<Option<OutputMode>, Error<()>>)
        ensures
            self.device.spec_mode() == -1 ==> r == Ok::<Option<OutputMode>, Error<()>>(None),
            self.device.spec_mode() >= 0 ==> ({
                let q = self.device.spec_query(self.device.spec_mode() as usize);
                &&& q.0.spec_is_success() ==> (r matches Ok(om) && om matches Some(m)
                    && m.spec_index() as int == self.device.spec_mode() && m.spec_columns() == q.1
                    && m.spec_rows() == q.2)
                &&& !q.0.spec_is_success() ==> (r matches Err(e) && e.spec_status() == q.0)
            }),
    {
        let m = self.device.mode();
        if m == -1 {
            Ok(None)
        } else {
            let index = m as usize;
            match self.query_mode(index) {
                Ok(dims) => Ok(Some(OutputMode { index, dims })),
                Err(e) => Err(e),
            }
        }
    }

    /// Sets a previously queried mode as current. On success the device's
    /// auxiliary current-mode field holds the selected index (the field is
    /// 32 bits wide; every mode the device reports fits it).
    pub fn set_mode(&mut self, mode: OutputMode) -> (r: Result<(), Error<()>>)
        ensures
            ({
                let st = old(self).device.spec_set_mode_reply(mode.spec_index());
                &&& st.spec_is_success() ==> r == Ok::<(), Error<()>>(())
                &&& !st.spec_is_success() ==> (r matches Err(e) && e.spec_status() == st)
                &&& (st.spec_is_success() && mode.spec_index() <= 0x7fff_ffff)
                    ==> final(self).device.spec_mode() == mode.spec_index() as int
            }),
    {
        let st = self.device.set_mode(mode.index());
        st.to_result()
    }

    /// Returns whether the cursor is currently shown or not.
    pub fn cursor_visible(&self) -> (r: bool)
        ensures
            r == self.device.spec_cursor_visible(),
    {
        self.device.cursor_visible()
    }

    /// Make the cursor visible or invisible.
    ///
    /// The output device may not support this operation, in which case an
    /// `Unsupported` error will be returned.
    pub fn enable_cursor(&mut self, visible: bool) -> (r: Result<(), Error<()>>)
        ensures
            ({
                let st = old(self).device.spec_enable_cursor_reply(visible);
                &&& st.spec_is_success() ==> r == Ok::<(), Error<()>>(())
                &&& !st.spec_is_success() ==> (r matches Err(e) && e.spec_status() == st)
            }),
    {
        let st = self.device.enable_cursor(visible);
        st.to_result()
    }

    /// Returns the column and row of the cursor.
    pub fn cursor_position(&self) -> (r: (usize, usize))
        ensures
            r.0 as int == self.device.spec_cursor_column(),
            r.1 as int == self.device.spec_cursor_row(),
    {
        let column = self.device.cursor_column();
        let row = self.device.cursor_row();
        (column as usize, row as usize)
    }

    /// Sets the cursor's position, relative to the top-left corner, which is
    /// (0, 0).
    ///
    /// This function will fail if the cursor's new position would exceed the
    /// screen's bounds: that is reported by the device, not checked here.
    pub fn set_cursor_position(&mut self, column: usize, row: usize) -> (r: Result<(), Error<()>>)
        ensures
            ({
                let st = old(self).device.spec_set_cursor_reply(column, row);
                &&& st.spec_is_success() ==> r == Ok::<(), Error<()>>(())
                &&& !st.spec_is_success() ==> (r matches Err(e) && e.spec_status() == st)
            }),
    {
        let st = self.device.set_cursor_position(column, row);
        st.to_result()
    }

    /// Sets the text and background colors for the console.
    ///
    /// Note that for the foreground color you can choose any color.
    /// The background must be one of the first 8 colors: any other
    /// background is a caller error and is ruled out before any device call
    /// is made.
    pub fn set_color(&mut self, foreground: Color, background: Color) -> (r: Result<(), Error<()>>)
        requires
            background.spec_code() < 8,
        ensures
            ({
                let st = old(self).device.spec_set_attribute_reply(
                    (((background.spec_code() & 7) << 4) | (foreground.spec_code() & 15)) as usize,
                );
                &&& st.spec_is_success() ==> r == Ok::<(), Error<()>>(())
                &&& !st.spec_is_success() ==> (r matches Err(e) && e.spec_status() == st)
            }),
    {
        let attr = attribute_value(foreground, background);
        let st = self.device.set_attribute(attr as usize);
        st.to_result()
    }

    /// Writes a text stream to the device through a fixed-size staging
    /// buffer: each character becomes one 16-bit code unit, every line feed
    /// is preceded by an explicit carriage return, and the staged units go
    /// out as terminated chunks of at most [`crate::encoder::BUF_SIZE`]
    /// units, the final, possibly empty, flush always included.
    ///
    /// The whole text is encoded and staged before anything is delivered: a
    /// character outside the device's 16-bit alphabet aborts with a generic
    /// write failure while the device is still untouched. An embedded
    /// terminator unit aborts the delivery before the chunk that holds it; a
    /// non-success reply aborts it after the write that received it. Output
    /// already delivered stays.
    pub fn write_str(&mut self, s: &str) -> (r: Result<(), WriteError>)
        ensures
            (exists|i: int| 0 <= i < s@.len() && (s@[i] as u32) >= 0x10000) ==> (r matches Err(_)
                && *final(self) == *old(self)),
            (forall|i: int| 0 <= i < s@.len() ==> (s@[i] as u32) < 0x10000) ==> ({
                let cs = spec_chunks(translated_units(s@.map_values(|c: char| c as u16)));
                let d0 = old(self).device;
                &&& final(self).device.spec_writes() == d0.spec_writes() + cs.take(
                    spec_flushes_from(d0, cs, 0),
                )
                &&& spec_flush_succeeds(d0, cs, 0) ==> r == Ok::<(), WriteError>(())
                &&& !spec_flush_succeeds(d0, cs, 0) ==> r matches Err(_)
            }),
            (exists|i: int| 0 <= i < s@.len() && s@[i] == '\u{0}') ==> r matches Err(_),
    {
        let units = match encode_units(s) {
            Some(u) => u,
            None => {
                return Err(WriteError);
            },
        };
        let staged = translate_line_feeds(&units);
        let chunks = stage_chunks(&staged);
        let ghost d0: D = old(self).device;
        let ghost cs: Seq<Seq<u16>> = spec_chunks(staged@);
        proof {
            assert(units@ =~= s@.map_values(|c: char| c as u16));
            assert(d0.spec_writes() + cs.take(0) =~= d0.spec_writes());
        }
        let mut k: usize = 0;
        while k < chunks.len()
            invariant
                forall|i: int| 0 <= i < s@.len() ==> (s@[i] as u32) < 0x10000,
                units@.len() == s@.len(),
                forall|i: int| 0 <= i < s@.len() ==> units@[i] == s@[i] as u16,
                staged@ == translated_units(units@),
                d0 == old(self).device,
                cs == spec_chunks(translated_units(s@.map_values(|c: char| c as u16))),
                cs == spec_chunks(staged@),
                chunks@.len() == cs.len(),
                forall|j: int| 0 <= j < cs.len() ==> (#[trigger] chunks@[j])@ == cs[j],
                forall|j: int|
                    0 <= j < cs.len() ==> (#[trigger] cs[j]).len() >= 1 && cs[j][cs[j].len() - 1]
                        == 0,
                k <= cs.len(),
                forall|j: int| 0 <= j < k ==> !spec_has_interior_nul(#[trigger] cs[j]),
                forall|j: int|
                    0 <= j < k ==> (#[trigger] d0.spec_write_reply(j, cs[j])).spec_is_success(),
                self.device.spec_writes() == d0.spec_writes() + cs.take(k as int),
                forall|j: int, u: Seq<u16>|
                    0 <= j ==> #[trigger] self.device.spec_write_reply(j, u)
                        == d0.spec_write_reply(j + k, u),
            decreases chunks@.len() - k,
        {
            let chunk: &Vec<u16> = &chunks[k];
            if has_interior_nul(chunk) {
                proof {
                    lemma_flush_prefix(d0, cs, k as int);
                    assert(spec_flushes_from(d0, cs, k as int) == 0);
                    assert(!spec_flush_succeeds(d0, cs, k as int));
                }
                return Err(WriteError);
            }
            let write_result = self.output_string(chunk.as_slice());
            proof {
                assert(cs.take(k as int).push(cs[k as int]) =~= cs.take(k + 1));
                assert((d0.spec_writes() + cs.take(k as int)).push(cs[k as int])
                    =~= d0.spec_writes() + cs.take(k + 1));
            }
            match write_result {
                Ok(()) => {},
                Err(_) => {
                    proof {
                        lemma_flush_prefix(d0, cs, k as int);
                        assert(spec_flushes_from(d0, cs, k as int) == 1);
                        assert(!spec_flush_succeeds(d0, cs, k as int));
                    }
                    return Err(WriteError);
                },
            }
            k = k + 1;
        }
        proof {
            lemma_flush_prefix(d0, cs, cs.len() as int);
            assert(spec_flushes_from(d0, cs, cs.len() as int) == 0);
            assert(spec_flush_succeeds(d0, cs, cs.len() as int));
            assert(cs.take(cs.len() as int) =~= cs);
            if exists|i: int| 0 <= i < s@.len() && s@[i] == '\u{0}' {
                let i = choose|i: int| 0 <= i < s@.len() && s@[i] == '\u{0}';
                assert(units@[i] == 0);
                lemma_translation_keeps_terminators(units@, i);
                let p = choose|j: int| 0 <= j < staged@.len() && staged@[j] == 0;
                lemma_nul_reaches_a_chunk(staged@, p);
                assert(false);
            }
        }
        Ok(())
    }
}

/// The opt-in convenience that makes a lossy write lossy: the device's
/// unknown-glyph warning is swallowed into success, and every other outcome
/// passes through unchanged.
pub fn absorb_unknown_glyph(r: Result<(), Error<()>>) -> (out: Result<(), Error<()>>)
    ensures
        r matches Ok(v) ==> out == Ok::<(), Error<()>>(()),
        (r matches Err(e) && e.spec_status() == Status(WARN_UNKNOWN_GLYPH)) ==> out == Ok::<
            (),
            Error<()>,
        >(()),
        (r matches Err(e) && e.spec_status() != Status(WARN_UNKNOWN_GLYPH)) ==> out == r,
{
    match r {
        Ok(()) => Ok(()),
        Err(e) => {
            if e.status() == Status(WARN_UNKNOWN_GLYPH) {
                Ok(())
            } else {
                Err(e)
            }
        },
    }
}

} // verus!
