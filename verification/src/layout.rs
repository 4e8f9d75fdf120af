//! Where units of a raw coordinate system lie in the cooked text.
//!
//! The cooked text is the units of the input written one after the other,
//! with a separator of `gap` bytes between each two. Unit `k` takes
//! `widths[k]` bytes. The argument list of a command line is the case where
//! the units are the arguments and `gap` is one, for the space between two
//! arguments.
//!
//! [`offset_of`] and [`extent_of`] give the place of a run of units by
//! arithmetic on the widths alone; [`run_lies_in_text`] shows that the bytes
//! found at that place in the cooked text are those of the run.

use vstd::prelude::*;

verus! {

/// The byte offset at which unit `i` starts: the widths of the units before
/// it, and one separator after each of them.
pub open spec fn offset_of(widths: Seq<nat>, gap: nat, i: nat) -> nat
    decreases i,
{
    if i == 0 {
        0
    } else {
        offset_of(widths, gap, (i - 1) as nat) + widths[i - 1] + gap
    }
}

/// The number of bytes that the `count` units from unit `first` on take in
/// the cooked text: their widths, and one separator between each two of them.
pub open spec fn extent_of(widths: Seq<nat>, gap: nat, first: nat, count: nat) -> nat
    decreases count,
{
    if count == 0 {
        0
    } else if count == 1 {
        widths[first as int]
    } else {
        extent_of(widths, gap, first, (count - 1) as nat) + gap + widths[first + count - 1]
    }
}

/// A unit that comes later starts no earlier.
pub proof fn offsets_grow(widths: Seq<nat>, gap: nat, i: nat, j: nat)
    requires
        i <= j,
    ensures
        offset_of(widths, gap, i) <= offset_of(widths, gap, j),
    decreases j,
{
    if i < j {
        offsets_grow(widths, gap, i, (j - 1) as nat);
    }
}

/// More units take no fewer bytes.
pub proof fn extents_grow(widths: Seq<nat>, gap: nat, first: nat, m: nat, n: nat)
    requires
        m <= n,
    ensures
        extent_of(widths, gap, first, m) <= extent_of(widths, gap, first, n),
    decreases n,
{
    if m < n {
        extents_grow(widths, gap, first, m, (n - 1) as nat);
    }
}

/// Where every unit is one byte wide and nothing separates two units, a
/// unit's number is its byte offset and a run of units is as long as it has
/// units: the raw numbers are the cooked ones.
pub proof fn bytes_lie_at_their_index(widths: Seq<nat>, first: nat, count: nat)
    requires
        first + count <= widths.len(),
        forall|k: int| 0 <= k < widths.len() ==> widths[k] == 1,
    ensures
        offset_of(widths, 0, first) == first,
        extent_of(widths, 0, first, count) == count,
    decreases first + count,
{
    if count > 0 {
        bytes_lie_at_their_index(widths, first, (count - 1) as nat);
    } else if first > 0 {
        bytes_lie_at_their_index(widths, (first - 1) as nat, 0);
    }
}

/// With a separator of at least one byte, no unit starts before its own
/// number.
pub proof fn offset_reaches_index(widths: Seq<nat>, gap: nat, i: nat)
    requires
        gap >= 1,
    ensures
        offset_of(widths, gap, i) >= i,
    decreases i,
{
    if i > 0 {
        offset_reaches_index(widths, gap, (i - 1) as nat);
    }
}

/// With a separator of at least one byte, a unit starts after its own number
/// as soon as a unit that is not empty stands before it.
pub proof fn offset_passes_index(widths: Seq<nat>, gap: nat, i: nat, before: nat)
    requires
        gap >= 1,
        before < i,
        widths[before as int] > 0,
    ensures
        offset_of(widths, gap, i) > i,
    decreases i,
{
    if before + 1 == i {
        offset_reaches_index(widths, gap, before);
    } else {
        offset_passes_index(widths, gap, (i - 1) as nat, before);
    }
}

/// The cooked text: the units one after the other, with `sep` between each
/// two of them.
pub open spec fn joined(units: Seq<Seq<u8>>, sep: Seq<u8>) -> Seq<u8>
    decreases units.len(),
{
    if units.len() == 0 {
        Seq::empty()
    } else if units.len() == 1 {
        units[0]
    } else {
        joined(units.drop_last(), sep) + sep + units.last()
    }
}

/// The number of bytes of each unit.
pub open spec fn widths_of(units: Seq<Seq<u8>>) -> Seq<nat> {
    Seq::new(units.len(), |k: int| units[k].len())
}

/// Joining two lists of units, neither of them empty, gives the two joined
/// texts with one separator between them.
pub proof fn joined_splits(head: Seq<Seq<u8>>, tail: Seq<Seq<u8>>, sep: Seq<u8>)
    requires
        head.len() > 0,
        tail.len() > 0,
    ensures
        joined(head + tail, sep) == joined(head, sep) + sep + joined(tail, sep),
    decreases tail.len(),
{
    let all = head + tail;
    assert(all.last() == tail.last());
    if tail.len() == 1 {
        assert(all.drop_last() == head);
    } else {
        assert(all.drop_last() == head + tail.drop_last());
        joined_splits(head, tail.drop_last(), sep);
    }
}

/// The extent of a run of units is the length of the run joined by itself.
pub proof fn extent_is_joined_len(units: Seq<Seq<u8>>, sep: Seq<u8>, first: nat, count: nat)
    requires
        first + count <= units.len(),
    ensures
        extent_of(widths_of(units), sep.len(), first, count) == joined(
            units.subrange(first as int, (first + count) as int),
            sep,
        ).len(),
    decreases count,
{
    let run = units.subrange(first as int, (first + count) as int);
    if count > 1 {
        assert(run.drop_last() == units.subrange(first as int, first + count - 1));
        extent_is_joined_len(units, sep, first, (count - 1) as nat);
    }
}

/// A unit other than the first starts one separator after the end of the
/// units before it, joined.
pub proof fn offset_is_joined_len(units: Seq<Seq<u8>>, sep: Seq<u8>, i: nat)
    requires
        1 <= i <= units.len(),
    ensures
        offset_of(widths_of(units), sep.len(), i) == joined(units.take(i as int), sep).len()
            + sep.len(),
    decreases i,
{
    let before = units.take(i as int);
    let widths = widths_of(units);
    assert(offset_of(widths, sep.len(), i) == offset_of(widths, sep.len(), (i - 1) as nat)
        + widths[i - 1] + sep.len());
    assert(before.last() == units[i - 1]);
    if i > 1 {
        assert(before.drop_last() == units.take(i - 1));
        offset_is_joined_len(units, sep, (i - 1) as nat);
    } else {
        assert(offset_of(widths, sep.len(), 0) == 0);
    }
}

/// The place that the arithmetic gives to a run of units is where the run
/// stands in the cooked text: the bytes at offset [`offset_of`] and of length
/// [`extent_of`] exist in the text of all units, and they are the units of the
/// run joined by the separator.
pub proof fn run_lies_in_text(units: Seq<Seq<u8>>, sep: Seq<u8>, first: nat, count: nat)
    requires
        first < units.len(),
        first + count <= units.len(),
    ensures
        offset_of(widths_of(units), sep.len(), first) + extent_of(
            widths_of(units),
            sep.len(),
            first,
            count,
        ) <= joined(units, sep).len(),
        joined(units, sep).subrange(
            offset_of(widths_of(units), sep.len(), first) as int,
            (offset_of(widths_of(units), sep.len(), first) + extent_of(
                widths_of(units),
                sep.len(),
                first,
                count,
            )) as int,
        ) == joined(units.subrange(first as int, (first + count) as int), sep),
{
    let text = joined(units, sep);
    let start = offset_of(widths_of(units), sep.len(), first);
    let len = extent_of(widths_of(units), sep.len(), first, count);
    let before = units.take(first as int);
    let run = units.subrange(first as int, (first + count) as int);
    extent_is_joined_len(units, sep, first, count);
    if first > 0 {
        offset_is_joined_len(units, sep, first);
    }
    if count == 0 {
        if first > 0 {
            assert(units == before + units.skip(first as int));
            joined_splits(before, units.skip(first as int), sep);
        }
    } else {
        let upto = units.take((first + count) as int);
        let after = units.skip((first + count) as int);
        if first > 0 {
            assert(upto == before + run);
            joined_splits(before, run, sep);
        } else {
            assert(upto == run);
        }
        assert(joined(upto, sep).subrange(start as int, (start + len) as int) == joined(run, sep));
        if first + count < units.len() {
            assert(units == upto + after);
            joined_splits(upto, after, sep);
        } else {
            assert(units == upto);
        }
    }
}

} // verus!
