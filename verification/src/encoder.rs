//! The buffered write path's pure pieces: transcoding text to 16-bit code
//! units, translating line feeds, and staging fixed-size terminated chunks.

use vstd::prelude::*;

verus! {

/// The code unit for a carriage return.
pub const CARRIAGE_RETURN: u16 = 13;

/// The code unit for a line feed.
pub const LINE_FEED: u16 = 10;

/// Capacity of the staging buffer, in code units; one extra slot holds the
/// terminator of a full chunk.
pub const BUF_SIZE: usize = 128;

/// A well-formed device string: at least the terminator, the terminator
/// last, and no terminator anywhere before it.
pub open spec fn is_cstr16(s: Seq<u16>) -> bool {
    &&& s.len() >= 1
    &&& s[s.len() - 1] == 0
    &&& forall|i: int| 0 <= i < s.len() - 1 ==> s[i] != 0
}

/// Whether a terminated chunk holds a terminator unit anywhere before its
/// final slot.
pub open spec fn spec_has_interior_nul(c: Seq<u16>) -> bool {
    exists|i: int| 0 <= i < c.len() - 1 && c[i] == 0
}

/// The chunks a staged sequence is delivered as: every chunk but the last
/// carries [`BUF_SIZE`] units and a terminator, the last carries the
/// remainder and a terminator, possibly the terminator alone.
pub open spec fn spec_chunks(staged: Seq<u16>) -> Seq<Seq<u16>> {
    Seq::new(
        ((staged.len() as int) / (BUF_SIZE as int) + 1) as nat,
        |j: int|
            if j < (staged.len() as int) / (BUF_SIZE as int) {
                staged.subrange(j * (BUF_SIZE as int), (j + 1) * (BUF_SIZE as int)).push(0u16)
            } else {
                staged.subrange(j * (BUF_SIZE as int), staged.len() as int).push(0u16)
            },
    )
}

/// What one staged code unit becomes on the device: a line feed grows an
/// explicit carriage return in front, everything else stands as it is.
pub open spec fn line_feed_expansion(u: u16) -> Seq<u16> {
    if u == LINE_FEED {
        seq![CARRIAGE_RETURN, LINE_FEED]
    } else {
        seq![u]
    }
}

/// The whole staged sequence for a sequence of code units: each unit's
/// expansion, in the original order.
pub open spec fn translated_units(units: Seq<u16>) -> Seq<u16>
    decreases units.len(),
{
    if units.len() == 0 {
        Seq::empty()
    } else {
        line_feed_expansion(units[0]) + translated_units(units.skip(1))
    }
}

proof fn lemma_translated_push(units: Seq<u16>, u: u16)
    ensures
        translated_units(units.push(u)) =~= translated_units(units) + line_feed_expansion(u),
    decreases units.len(),
{
    let s = units.push(u);
    assert(s.len() == units.len() + 1);
    assert(translated_units(s) == line_feed_expansion(s[0]) + translated_units(s.skip(1)));
    if units.len() == 0 {
        assert(s.skip(1) =~= Seq::<u16>::empty());
        assert(s[0] == u);
        assert(translated_units(s) =~= line_feed_expansion(u) + Seq::<u16>::empty());
        assert(translated_units(units) == Seq::<u16>::empty());
        assert(translated_units(units) + line_feed_expansion(u) =~= line_feed_expansion(u));
        assert(line_feed_expansion(u) + Seq::<u16>::empty() =~= line_feed_expansion(u));
    } else {
        assert(s.skip(1) =~= units.skip(1).push(u));
        assert(s[0] == units[0]);
        lemma_translated_push(units.skip(1), u);
        assert(translated_units(s.skip(1)) =~= translated_units(units.skip(1))
            + line_feed_expansion(u));
        assert(translated_units(units) == line_feed_expansion(units[0]) + translated_units(
            units.skip(1),
        ));
        assert(line_feed_expansion(units[0]) + (translated_units(units.skip(1))
            + line_feed_expansion(u)) =~= (line_feed_expansion(units[0]) + translated_units(
            units.skip(1),
        )) + line_feed_expansion(u));
    }
}

/// A sequence without line feeds is staged exactly as it is: translation
/// changes nothing, so such an input of length twice [`BUF_SIZE`] fills
/// exactly two full chunks before the final empty flush.
pub proof fn lemma_translation_without_line_feeds(units: Seq<u16>)
    requires
        forall|i: int| 0 <= i < units.len() ==> units[i] != LINE_FEED,
    ensures
        translated_units(units) =~= units,
    decreases units.len(),
{
    if units.len() > 0 {
        assert(units[0] != LINE_FEED);
        lemma_translation_without_line_feeds(units.skip(1));
        assert(translated_units(units) == seq![units[0]] + translated_units(units.skip(1)));
        assert(seq![units[0]] + units.skip(1) =~= units);
    }
}

/// A terminator unit in the input survives translation: it is not a line
/// feed, so it stands in the staged sequence as it is.
pub(crate) proof fn lemma_translation_keeps_terminators(units: Seq<u16>, i: int)
    requires
        0 <= i < units.len(),
        units[i] == 0,
    ensures
        exists|j: int|
            0 <= j < translated_units(units).len() && translated_units(units)[j] == 0,
    decreases units.len(),
{
    if i == 0 {
        assert(translated_units(units)[0] == 0);
    } else {
        lemma_translation_keeps_terminators(units.skip(1), i - 1);
        let rest = translated_units(units.skip(1));
        let j = choose|j: int| 0 <= j < rest.len() && rest[j] == 0;
        let head = line_feed_expansion(units[0]);
        assert(translated_units(units)[head.len() + j] == 0);
    }
}

/// Translates host line-feed convention to the device's: every line feed is
/// preceded by an explicit carriage return; all other units, and the order
/// of everything, are kept.
pub fn translate_line_feeds(units: &Vec<u16>) -> (r: Vec<u16>)
    ensures
        r@ == translated_units(units@),
{
    let mut out: Vec<u16> = Vec::new();
    let mut i: usize = 0;
    while i < units.len()
        invariant
            i <= units@.len(),
            out@ == translated_units(units@.take(i as int)),
        decreases units@.len() - i,
    {
        let u = units[i];
        proof {
            assert(units@.take(i as int).push(u) =~= units@.take(i + 1 as int));
            lemma_translated_push(units@.take(i as int), u);
        }
        if u == LINE_FEED {
            out.push(CARRIAGE_RETURN);
            out.push(LINE_FEED);
        } else {
            out.push(u);
        }
        i = i + 1;
    }
    proof {
        assert(units@.take(units@.len() as int) =~= units@);
    }
    out
}

/// Splits a staged sequence into the exact writes the device receives: every
/// chunk but the last carries [`BUF_SIZE`] units and a terminator, the last
/// carries the remainder and a terminator. The last chunk is issued even
/// when it is empty, so the final write always happens.
pub fn stage_chunks(staged: &Vec<u16>) -> (r: Vec<Vec<u16>>)
    ensures
        r@.len() == (staged@.len() as int) / (BUF_SIZE as int) + 1,
        forall|j: int|
            0 <= j < r@.len() - 1 ==> (#[trigger] r@[j])@ =~= staged@.subrange(
                j * (BUF_SIZE as int),
                (j + 1) * (BUF_SIZE as int),
            ).push(0u16),
        r@[r@.len() - 1]@ =~= staged@.subrange(
            (r@.len() - 1) * (BUF_SIZE as int),
            staged@.len() as int,
        ).push(0u16),
        r@.map_values(|c: Vec<u16>| c@) =~= spec_chunks(staged@),
{
    let mut chunks: Vec<Vec<u16>> = Vec::new();
    let mut stage: Vec<u16> = Vec::new();
    let mut i: usize = 0;
    while i < staged.len()
        invariant
            i <= staged@.len(),
            stage@.len() < BUF_SIZE,
            i == chunks@.len() * (BUF_SIZE as int) + stage@.len(),
            stage@ =~= staged@.subrange(chunks@.len() * (BUF_SIZE as int), i as int),
            forall|j: int|
                0 <= j < chunks@.len() ==> (#[trigger] chunks@[j])@ =~= staged@.subrange(
                    j * (BUF_SIZE as int),
                    (j + 1) * (BUF_SIZE as int),
                ).push(0u16),
        decreases staged@.len() - i,
    {
        let u = staged[i];
        stage.push(u);
        proof {
            assert(stage@ =~= staged@.subrange(chunks@.len() * (BUF_SIZE as int), i + 1));
        }
        i = i + 1;
        if stage.len() == BUF_SIZE {
            stage.push(0);
            chunks.push(stage);
            stage = Vec::new();
            proof {
                assert(stage@ =~= staged@.subrange(chunks@.len() * (BUF_SIZE as int), i as int));
            }
        }
    }
    stage.push(0);
    let ghost full: int = chunks@.len() as int;
    chunks.push(stage);
    proof {
        vstd::arithmetic::div_mod::lemma_fundamental_div_mod_converse(
            staged@.len() as int,
            BUF_SIZE as int,
            full,
            staged@.len() - full * (BUF_SIZE as int),
        );
        assert(chunks@.map_values(|c: Vec<u16>| c@) =~= spec_chunks(staged@));
    }
    chunks
}

/// A terminator among the staged units lands inside some chunk, before that
/// chunk's final slot: it cannot be delivered as part of a well-formed
/// device string.
pub proof fn lemma_nul_reaches_a_chunk(staged: Seq<u16>, p: int)
    requires
        0 <= p < staged.len(),
        staged[p] == 0,
    ensures
        exists|j: int|
            0 <= j < spec_chunks(staged).len() && spec_has_interior_nul(
                #[trigger] spec_chunks(staged)[j],
            ),
{
    let b = BUF_SIZE as int;
    let n = staged.len() as int;
    vstd::arithmetic::div_mod::lemma_fundamental_div_mod(p, b);
    vstd::arithmetic::div_mod::lemma_mod_bound(p, b);
    vstd::arithmetic::div_mod::lemma_div_pos_is_pos(p, b);
    vstd::arithmetic::div_mod::lemma_div_is_ordered(p, n, b);
    let j = p / b;
    let off = p - j * b;
    let cs = spec_chunks(staged);
    if j < cs.len() - 1 {
        assert(cs[j][off] == staged[p]);
        assert(spec_has_interior_nul(cs[j]));
    } else {
        assert(j == n / b);
        assert(cs[j][off] == staged[p]);
        assert(spec_has_interior_nul(cs[j]));
    }
}

/// Whether a terminated chunk holds a terminator unit anywhere before its
/// final slot, which the device's string convention cannot carry.
pub fn has_interior_nul(chunk: &Vec<u16>) -> (r: bool)
    requires
        chunk@.len() >= 1,
    ensures
        r == spec_has_interior_nul(chunk@),
{
    let mut i: usize = 0;
    let end = chunk.len() - 1;
    while i < end
        invariant
            end == chunk@.len() - 1,
            i <= end,
            forall|j: int| 0 <= j < i ==> chunk@[j] != 0,
        decreases end - i,
    {
        if chunk[i] == 0 {
            return true;
        }
        i = i + 1;
    }
    false
}

/// Relies on ucs2::encode_with: it hands over one 16-bit code unit per
/// character of the input, in order, each carrying the character's code
/// point, and reports an encoding error for the first character that falls
/// outside the 16-bit alphabet.
#[verifier::external_body]
pub(crate) fn encode_units(s: &str) -> (r: Option<Vec<u16>>)
    ensures
        match r {
            Some(units) => {
                &&& units@.len() == s@.len()
                &&& forall|i: int| 0 <= i < s@.len() ==> (s@[i] as u32) < 0x10000
                &&& forall|i: int| 0 <= i < s@.len() ==> units@[i] == s@[i] as u16
            },
            None => exists|i: int| 0 <= i < s@.len() && (s@[i] as u32) >= 0x10000,
        },
{
    let mut units: Vec<u16> = Vec::new();
    let result = ucs2::encode_with(s, |unit| {
        units.push(unit);
        Ok(())
    });
    match result {
        Ok(()) => Some(units),
        Err(_) => None,
    }
}

} // verus!
