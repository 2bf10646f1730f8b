//! The action bar: key hints packed into at most a few lines of a given
//! width, dropping the least important hints (and showing "(? more)") when
//! they do not fit; and the aligned lines of the help overlay.
use vstd::prelude::*;
use crate::text::{owned, push_char, push_str, str_chars};

verus! {

/// A key hint: the key, what it does, whether it is available, and its
/// priority (higher stays longer).
#[derive(Clone, Debug, PartialEq, Eq)]
pub struct ActionHint {
    pub key: String,
    pub label: String,
    pub enabled: bool,
    pub priority: u8,
}

impl ActionHint {
    pub fn new(key: &str, label: &str, priority: u8) -> (r: Self)
        ensures
            r.key@ == key@,
            r.label@ == label@,
            r.enabled,
            r.priority == priority,
    {
        ActionHint { key: owned(key), label: owned(label), enabled: true, priority }
    }

    pub fn disabled(key: &str, label: &str, priority: u8) -> (r: Self)
        ensures
            r.key@ == key@,
            r.label@ == label@,
            !r.enabled,
            r.priority == priority,
    {
        ActionHint { key: owned(key), label: owned(label), enabled: false, priority }
    }

    /// Cells taken by the key.
    pub fn key_width(&self) -> (r: usize)
        ensures
            r == self.key@.len(),
    {
        str_chars(self.key.as_str()).len()
    }
}

/// Cells between two hints on a line.
pub open spec fn gap_width() -> nat {
    2
}

/// Cells taken by the "(? more)" indicator.
pub open spec fn more_width() -> nat {
    8
}

/// Cells a hint takes: "[key]", then " label" when there is a label.
pub open spec fn hint_width_spec(key: Seq<char>, label: Seq<char>) -> nat {
    if label.len() == 0 {
        key.len() + 2
    } else {
        key.len() + 2 + 1 + label.len()
    }
}

/// Each hint's width can be computed in a `usize`.
pub open spec fn hints_fit(hints: Seq<ActionHint>) -> bool {
    forall|i: int| 0 <= i < hints.len() ==> #[trigger] hints[i].key@.len() + hints[i].label@.len() + 3
        <= usize::MAX
}

pub fn hint_width(hint: &ActionHint) -> (r: usize)
    requires
        hint.key@.len() + hint.label@.len() + 3 <= usize::MAX,
    ensures
        r == hint_width_spec(hint.key@, hint.label@),
{
    let key_width = hint.key_width();
    let label_width = str_chars(hint.label.as_str()).len();
    if label_width == 0 {
        key_width + 2
    } else {
        key_width + 2 + 1 + label_width
    }
}

/// An item of a packed line.
#[derive(Clone, Copy, Debug, PartialEq, Eq, Structural)]
pub enum LayoutItem {
    /// The hint at this row of the hint list
    Hint(usize),
    /// The "(? more)" indicator
    More,
}

/// Width of an item, given the widths of the hints.
pub open spec fn item_width_spec(item: LayoutItem, widths: Seq<nat>) -> nat {
    match item {
        LayoutItem::Hint(i) => widths[i as int],
        LayoutItem::More => more_width(),
    }
}

/// Greedy packing from item `i` on: an item joins the current line if it
/// fits (with a gap after the first), else starts a new line; `None` once a
/// new line would exceed `max_lines`.
pub open spec fn pack_from(
    items: Seq<LayoutItem>,
    widths: Seq<nat>,
    width: nat,
    max_lines: nat,
    i: nat,
    lines: Seq<Seq<LayoutItem>>,
    line_width: nat,
) -> Option<Seq<Seq<LayoutItem>>>
    decreases items.len() - i,
{
    if i >= items.len() {
        Some(lines)
    } else {
        let w = item_width_spec(items[i as int], widths);
        let gap = if line_width == 0 {
            0
        } else {
            gap_width()
        };
        if line_width + gap + w <= width {
            pack_from(
                items,
                widths,
                width,
                max_lines,
                i + 1,
                lines.update(lines.len() - 1, lines.last().push(items[i as int])),
                line_width + gap + w,
            )
        } else if lines.len() >= max_lines {
            None
        } else {
            pack_from(items, widths, width, max_lines, i + 1, lines.push(seq![items[i as int]]), w)
        }
    }
}

pub open spec fn pack_spec(items: Seq<LayoutItem>, widths: Seq<nat>, width: nat, max_lines: nat) -> Option<
    Seq<Seq<LayoutItem>>,
> {
    pack_from(items, widths, width, max_lines, 0, seq![Seq::<LayoutItem>::empty()], 0)
}

/// Widths of all hints.
pub open spec fn hint_widths(hints: Seq<ActionHint>) -> Seq<nat> {
    hints.map_values(|h: ActionHint| hint_width_spec(h.key@, h.label@))
}

pub open spec fn lines_view(v: Seq<Vec<LayoutItem>>) -> Seq<Seq<LayoutItem>> {
    v.map_values(|l: Vec<LayoutItem>| l@)
}

/// Packs items into lines of at most `width` cells (an item wider than a
/// line gets a line of its own), at most `max_lines` lines.
pub fn pack_items(items: &Vec<LayoutItem>, hints: &Vec<ActionHint>, width: usize, max_lines: usize) -> (r:
    Option<Vec<Vec<LayoutItem>>>)
    requires
        hints_fit(hints@),
        forall|k: int| 0 <= k < items@.len() ==> (#[trigger] items@[k] matches LayoutItem::Hint(i) ==> i
            < hints@.len()),
    ensures
        match r {
            Some(lines) => pack_spec(items@, hint_widths(hints@), width as nat, max_lines as nat) == Some(
                lines_view(lines@),
            ),
            None => pack_spec(items@, hint_widths(hints@), width as nat, max_lines as nat) is None,
        },
{
    let ghost ws = hint_widths(hints@);
    let mut lines: Vec<Vec<LayoutItem>> = Vec::new();
    lines.push(Vec::new());
    let mut line_width: usize = 0;
    let mut i: usize = 0;
    proof {
        assert(lines_view(lines@) =~= seq![Seq::<LayoutItem>::empty()]);
    }
    while i < items.len()
        invariant
            i <= items@.len(),
            hints_fit(hints@),
            ws == hint_widths(hints@),
            forall|k: int| 0 <= k < items@.len() ==> (#[trigger] items@[k] matches LayoutItem::Hint(j)
                ==> j < hints@.len()),
            lines@.len() >= 1,
            pack_spec(items@, ws, width as nat, max_lines as nat) == pack_from(
                items@,
                ws,
                width as nat,
                max_lines as nat,
                i as nat,
                lines_view(lines@),
                line_width as nat,
            ),
        decreases items@.len() - i,
    {
        let item = items[i];
        let item_width: usize = match item {
            LayoutItem::Hint(idx) => {
                proof {
                    assert(items@[i as int] matches LayoutItem::Hint(j) ==> j < hints@.len());
                    assert(hints@[idx as int].key@.len() + hints@[idx as int].label@.len() + 3
                        <= usize::MAX);
                }
                hint_width(&hints[idx])
            },
            LayoutItem::More => 8,
        };
        let gap: usize = if line_width == 0 {
            0
        } else {
            2
        };
        let ghost lv = lines_view(lines@);
        let fits = match line_width.checked_add(gap) {
            Some(t) => match t.checked_add(item_width) {
                Some(u) => u <= width,
                None => false,
            },
            None => false,
        };
        if fits {
            line_width = line_width + gap + item_width;
            let last = lines.len() - 1;
            let mut l = lines.remove(last);
            l.push(item);
            lines.push(l);
            proof {
                assert(lines_view(lines@) =~= lv.update(lv.len() - 1, lv.last().push(item)));
            }
        } else {
            if lines.len() >= max_lines {
                return None;
            }
            let mut l: Vec<LayoutItem> = Vec::new();
            l.push(item);
            lines.push(l);
            line_width = item_width;
            proof {
                assert(lines_view(lines@) =~= lv.push(seq![item]));
            }
        }
        i += 1;
    }
    Some(lines)
}

/// The result of laying out the hints: the packed lines, and whether hints
/// were dropped.
#[derive(Clone, Debug)]
pub struct HintLayout {
    pub lines: Vec<Vec<LayoutItem>>,
    pub dropped: bool,
}

/// Whether the hint at `a` goes before the hint at `b` when dropping: a
/// lower priority, or the same priority and a later row.
pub open spec fn drops_before(prios: Seq<u8>, a: usize, b: usize) -> bool {
    prios[a as int] < prios[b as int] || (prios[a as int] == prios[b as int] && a > b)
}

/// Position (in `active`) of the hint dropped first among the first `k`.
pub open spec fn drop_choice(active: Seq<usize>, prios: Seq<u8>, k: nat) -> nat
    decreases k,
{
    if k <= 1 {
        0
    } else {
        let b = drop_choice(active, prios, (k - 1) as nat);
        if drops_before(prios, active[k - 1], active[b as int]) {
            (k - 1) as nat
        } else {
            b
        }
    }
}

pub open spec fn hint_items(active: Seq<usize>, dropped: bool) -> Seq<LayoutItem> {
    active.map_values(|i: usize| LayoutItem::Hint(i)) + if dropped {
        seq![LayoutItem::More]
    } else {
        Seq::<LayoutItem>::empty()
    }
}

/// Layout from a set of active hints: pack them (with the indicator once
/// any were dropped); if they do not fit, drop the least important and try
/// again; with nothing left, no lines.
pub open spec fn layout_from(
    active: Seq<usize>,
    dropped: bool,
    widths: Seq<nat>,
    prios: Seq<u8>,
    width: nat,
    max_lines: nat,
) -> (Seq<Seq<LayoutItem>>, bool)
    decreases active.len(),
{
    match pack_spec(hint_items(active, dropped), widths, width, max_lines) {
        Some(lines) => (lines, dropped),
        None => if active.len() == 0 {
            (Seq::empty(), dropped)
        } else {
            proof {
                lemma_drop_choice_range(active, prios, active.len());
            }
            layout_from(
                active.remove(drop_choice(active, prios, active.len()) as int),
                true,
                widths,
                prios,
                width,
                max_lines,
            )
        },
    }
}

pub open spec fn hint_priorities(hints: Seq<ActionHint>) -> Seq<u8> {
    hints.map_values(|h: ActionHint| h.priority)
}

pub open spec fn layout_spec(hints: Seq<ActionHint>, width: nat, max_lines: nat) -> (Seq<Seq<LayoutItem>>, bool) {
    layout_from(
        Seq::new(hints.len(), |i: int| i as usize),
        false,
        hint_widths(hints),
        hint_priorities(hints),
        width,
        max_lines,
    )
}

/// The chosen position is among the first `k`.
pub proof fn lemma_drop_choice_range(active: Seq<usize>, prios: Seq<u8>, k: nat)
    requires
        k >= 1,
    ensures
        drop_choice(active, prios, k) < k,
    decreases k,
{
    if k > 1 {
        lemma_drop_choice_range(active, prios, (k - 1) as nat);
    }
}

/// Lays out the hints in at most `max_lines` lines of `width` cells,
/// dropping the least important hints (the latest one among equals) until
/// the rest fit together with the "(? more)" indicator.
pub fn layout_hints(hints: &Vec<ActionHint>, width: usize, max_lines: usize) -> (r: HintLayout)
    requires
        hints_fit(hints@),
    ensures
        (lines_view(r.lines@), r.dropped) == layout_spec(hints@, width as nat, max_lines as nat),
{
    let ghost ws = hint_widths(hints@);
    let ghost ps = hint_priorities(hints@);
    let mut active: Vec<usize> = Vec::new();
    let mut k: usize = 0;
    while k < hints.len()
        invariant
            k <= hints@.len(),
            active@ == Seq::new(k as nat, |i: int| i as usize),
        decreases hints@.len() - k,
    {
        active.push(k);
        k += 1;
        proof {
            assert(active@ =~= Seq::new(k as nat, |i: int| i as usize));
        }
    }
    let mut dropped_any = false;
    loop
        invariant
            hints_fit(hints@),
            ws == hint_widths(hints@),
            ps == hint_priorities(hints@),
            forall|j: int| 0 <= j < active@.len() ==> #[trigger] active@[j] < hints@.len(),
            layout_spec(hints@, width as nat, max_lines as nat) == layout_from(
                active@,
                dropped_any,
                ws,
                ps,
                width as nat,
                max_lines as nat,
            ),
        decreases active@.len(),
    {
        let mut items: Vec<LayoutItem> = Vec::new();
        let mut j: usize = 0;
        while j < active.len()
            invariant
                j <= active@.len(),
                items@ == active@.subrange(0, j as int).map_values(|i: usize| LayoutItem::Hint(i)),
            decreases active@.len() - j,
        {
            items.push(LayoutItem::Hint(active[j]));
            j += 1;
            proof {
                assert(items@ =~= active@.subrange(0, j as int).map_values(
                    |i: usize| LayoutItem::Hint(i),
                ));
            }
        }
        if dropped_any {
            items.push(LayoutItem::More);
        }
        proof {
            assert(active@.subrange(0, active@.len() as int) =~= active@);
            assert(items@ =~= hint_items(active@, dropped_any));
            assert forall|q: int| 0 <= q < items@.len() implies (#[trigger] items@[q] matches LayoutItem::Hint(
                i,
            ) ==> i < hints@.len()) by {
                if q < active@.len() {
                    assert(items@[q] == LayoutItem::Hint(active@[q]));
                }
            }
        }
        match pack_items(&items, hints, width, max_lines) {
            Some(lines) => {
                return HintLayout { lines, dropped: dropped_any };
            },
            None => {},
        }
        if active.len() == 0 {
            return HintLayout { lines: Vec::new(), dropped: dropped_any };
        }
        // The position of the hint to drop: lowest priority, latest row.
        let mut best: usize = 0;
        let mut q: usize = 1;
        while q < active.len()
            invariant
                1 <= q <= active@.len(),
                best < q,
                ps == hint_priorities(hints@),
                forall|j: int| 0 <= j < active@.len() ==> #[trigger] active@[j] < hints@.len(),
                best == drop_choice(active@, ps, q as nat),
            decreases active@.len() - q,
        {
            let a = active[q];
            let b = active[best];
            if hints[a].priority < hints[b].priority || (hints[a].priority == hints[b].priority
                && a > b) {
                best = q;
            }
            q += 1;
        }
        active.remove(best);
        dropped_any = true;
        proof {
            assert forall|j: int| 0 <= j < active@.len() implies #[trigger] active@[j] < hints@.len() by {
            }
        }
    }
}

/// Help lines: each hint as "  " then its key padded to the widest key,
/// a space, and its label.
pub open spec fn help_line(key: Seq<char>, label: Seq<char>, key_width: nat) -> Seq<char> {
    "  "@ + key + Seq::new((key_width - key.len()) as nat, |i: int| ' ') + " "@ + label
}

pub open spec fn max_key_width(hints: Seq<ActionHint>) -> nat
    decreases hints.len(),
{
    if hints.len() == 0 {
        0
    } else {
        let m = max_key_width(hints.drop_last());
        if hints.last().key@.len() > m {
            hints.last().key@.len()
        } else {
            m
        }
    }
}

pub fn format_help_lines(hints: &Vec<ActionHint>) -> (r: Vec<String>)
    ensures
        r@.len() == hints@.len(),
        forall|i: int|
            0 <= i < hints@.len() ==> #[trigger] r@[i]@ == help_line(
                hints@[i].key@,
                hints@[i].label@,
                max_key_width(hints@),
            ),
{
    let mut key_width: usize = 0;
    let mut i: usize = 0;
    while i < hints.len()
        invariant
            i <= hints@.len(),
            key_width == max_key_width(hints@.subrange(0, i as int)),
        decreases hints@.len() - i,
    {
        proof {
            assert(hints@.subrange(0, i + 1).drop_last() =~= hints@.subrange(0, i as int));
        }
        let w = hints[i].key_width();
        if w > key_width {
            key_width = w;
        }
        i += 1;
    }
    proof {
        assert(hints@.subrange(0, hints@.len() as int) =~= hints@);
    }
    let mut r: Vec<String> = Vec::new();
    let mut j: usize = 0;
    while j < hints.len()
        invariant
            j <= hints@.len(),
            key_width == max_key_width(hints@),
            r@.len() == j,
            forall|k: int|
                0 <= k < j ==> #[trigger] r@[k]@ == help_line(
                    hints@[k].key@,
                    hints@[k].label@,
                    max_key_width(hints@),
                ),
        decreases hints@.len() - j,
    {
        let hint = &hints[j];
        let kw = hint.key_width();
        let padding: usize = if key_width > kw {
            key_width - kw
        } else {
            0
        };
        let mut s = owned("  ");
        push_str(&mut s, hint.key.as_str());
        let ghost before = s@;
        let mut p: usize = 0;
        while p < padding
            invariant
                p <= padding,
                s@ == before + Seq::new(p as nat, |i: int| ' '),
            decreases padding - p,
        {
            push_char(&mut s, ' ');
            p += 1;
            proof {
                assert(s@ =~= before + Seq::new(p as nat, |i: int| ' '));
            }
        }
        push_str(&mut s, " ");
        push_str(&mut s, hint.label.as_str());
        proof {
            lemma_max_key_width(hints@, j as int);
            assert(s@ =~= help_line(hint.key@, hint.label@, max_key_width(hints@)));
        }
        r.push(s);
        j += 1;
    }
    r
}

proof fn lemma_max_key_width(hints: Seq<ActionHint>, i: int)
    requires
        0 <= i < hints.len(),
    ensures
        hints[i].key@.len() <= max_key_width(hints),
    decreases hints.len(),
{
    if i < hints.len() - 1 {
        lemma_max_key_width(hints.drop_last(), i);
    }
}


// ---------------------------------------------------------------------------
// Laws of the packing
// ---------------------------------------------------------------------------

/// Cells a line of items takes: the items' widths and a gap between each
/// two neighbours.
pub open spec fn line_cells(l: Seq<LayoutItem>, widths: Seq<nat>) -> nat
    decreases l.len(),
{
    if l.len() == 0 {
        0
    } else if l.len() == 1 {
        item_width_spec(l[0], widths)
    } else {
        line_cells(l.drop_last(), widths) + gap_width() + item_width_spec(l.last(), widths)
    }
}

/// The items of the lines, read line after line.
pub open spec fn flatten_lines(ls: Seq<Seq<LayoutItem>>) -> Seq<LayoutItem>
    decreases ls.len(),
{
    if ls.len() == 0 {
        Seq::empty()
    } else {
        flatten_lines(ls.drop_last()) + ls.last()
    }
}

/// Every line of two or more items fits in `width` cells.
pub open spec fn lines_within(ls: Seq<Seq<LayoutItem>>, widths: Seq<nat>, width: nat) -> bool {
    forall|j: int|
        0 <= j < ls.len() && #[trigger] ls[j].len() >= 2 ==> line_cells(ls[j], widths) <= width
}

/// A line is only ended when the next item would not fit on it: every line
/// but the last is followed by a line whose first item, with a gap, would
/// have made it wider than `width`.
pub open spec fn lines_greedy(ls: Seq<Seq<LayoutItem>>, widths: Seq<nat>, width: nat) -> bool {
    &&& forall|k: int| 1 <= k < ls.len() ==> #[trigger] ls[k].len() > 0
    &&& forall|j: int, k: int|
        #![trigger ls[j], ls[k]]
        0 <= j && k == j + 1 && k < ls.len() ==> line_cells(ls[j], widths) + gap_width()
            + item_width_spec(ls[k][0], widths) > width
}

pub open spec fn widths_positive(items: Seq<LayoutItem>, widths: Seq<nat>) -> bool {
    forall|k: int| 0 <= k < items.len() ==> item_width_spec(#[trigger] items[k], widths) > 0
}

pub open spec fn pack_state_ok(
    items: Seq<LayoutItem>,
    widths: Seq<nat>,
    width: nat,
    max_lines: nat,
    i: nat,
    lines: Seq<Seq<LayoutItem>>,
    line_width: nat,
) -> bool {
    &&& i <= items.len()
    &&& lines.len() >= 1
    &&& lines.len() <= if max_lines >= 1 {
        max_lines
    } else {
        1
    }
    &&& line_width == line_cells(lines.last(), widths)
    &&& (lines.last().len() == 0 <==> line_width == 0)
    &&& flatten_lines(lines) == items.subrange(0, i as int)
    &&& lines_within(lines, widths, width)
    &&& lines_greedy(lines, widths, width)
}

proof fn lemma_flatten_update_last(ls: Seq<Seq<LayoutItem>>, x: LayoutItem)
    requires
        ls.len() >= 1,
    ensures
        flatten_lines(ls.update(ls.len() - 1, ls.last().push(x))) == flatten_lines(ls).push(x),
{
    let u = ls.update(ls.len() - 1, ls.last().push(x));
    assert(u.drop_last() =~= ls.drop_last());
    assert(flatten_lines(ls.drop_last()) + ls.last().push(x) =~= (flatten_lines(ls.drop_last())
        + ls.last()).push(x));
}

proof fn lemma_flatten_push(ls: Seq<Seq<LayoutItem>>, l: Seq<LayoutItem>)
    ensures
        flatten_lines(ls.push(l)) == flatten_lines(ls) + l,
{
    assert(ls.push(l).drop_last() =~= ls);
}

proof fn lemma_line_cells_push(l: Seq<LayoutItem>, x: LayoutItem, widths: Seq<nat>)
    ensures
        line_cells(l.push(x), widths) == if l.len() == 0 {
            item_width_spec(x, widths)
        } else {
            line_cells(l, widths) + gap_width() + item_width_spec(x, widths)
        },
{
    assert(l.push(x).drop_last() =~= l);
    if l.len() == 0 {
        assert(l.push(x)[0] == x);
    }
}

proof fn lemma_fit_step(
    items: Seq<LayoutItem>,
    widths: Seq<nat>,
    width: nat,
    max_lines: nat,
    i: nat,
    lines: Seq<Seq<LayoutItem>>,
    line_width: nat,
)
    requires
        i < items.len(),
        item_width_spec(items[i as int], widths) > 0,
        pack_state_ok(items, widths, width, max_lines, i, lines, line_width),
        line_width + (if line_width == 0 {
            0
        } else {
            gap_width()
        }) + item_width_spec(items[i as int], widths) <= width,
    ensures
        pack_state_ok(
            items,
            widths,
            width,
            max_lines,
            i + 1,
            lines.update(lines.len() - 1, lines.last().push(items[i as int])),
            line_width + (if line_width == 0 {
                0
            } else {
                gap_width()
            }) + item_width_spec(items[i as int], widths),
        ),
{
    let x = items[i as int];
    let w = item_width_spec(x, widths);
    let last = lines.last();
    let nl = lines.update(lines.len() - 1, last.push(x));
    assert(items.subrange(0, i + 1 as int) =~= items.subrange(0, i as int).push(x));
    lemma_flatten_update_last(lines, x);
    lemma_line_cells_push(last, x, widths);
    assert(nl.last() == last.push(x));
    assert forall|j: int| 0 <= j < nl.len() && #[trigger] nl[j].len() >= 2 implies line_cells(
        nl[j],
        widths,
    ) <= width by {
        if j < nl.len() - 1 {
            assert(nl[j] == lines[j]);
        }
    }
    let nw = line_width + (if line_width == 0 {
        0
    } else {
        gap_width()
    }) + w;
    assert(nl.len() == lines.len());
    assert(nw == line_cells(nl.last(), widths));
    assert(nl.last().len() != 0 && nw != 0);
    assert(flatten_lines(nl) == items.subrange(0, i + 1 as int));
    assert(lines_within(nl, widths, width));
    assert forall|j: int, k: int|
        #![trigger nl[j], nl[k]]
        0 <= j && k == j + 1 && k < nl.len() implies line_cells(nl[j], widths)
            + gap_width() + item_width_spec(nl[k][0], widths) > width by {
        assert(nl[j] == lines[j]);
        assert(lines[k].len() > 0);
        if k == nl.len() - 1 {
            assert(nl[k][0] == lines[k][0]);
        } else {
            assert(nl[k] == lines[k]);
        }
    }
    assert forall|k: int| 1 <= k < nl.len() implies #[trigger] nl[k].len() > 0 by {
        assert(lines[k].len() > 0);
    }
    assert(lines_greedy(nl, widths, width));
}

proof fn lemma_new_line_step(
    items: Seq<LayoutItem>,
    widths: Seq<nat>,
    width: nat,
    max_lines: nat,
    i: nat,
    lines: Seq<Seq<LayoutItem>>,
    line_width: nat,
)
    requires
        i < items.len(),
        item_width_spec(items[i as int], widths) > 0,
        pack_state_ok(items, widths, width, max_lines, i, lines, line_width),
        line_width + (if line_width == 0 {
            0
        } else {
            gap_width()
        }) + item_width_spec(items[i as int], widths) > width,
        lines.len() < max_lines,
    ensures
        pack_state_ok(
            items,
            widths,
            width,
            max_lines,
            i + 1,
            lines.push(seq![items[i as int]]),
            item_width_spec(items[i as int], widths),
        ),
{
    let x = items[i as int];
    let w = item_width_spec(x, widths);
    let nl = lines.push(seq![x]);
    assert(items.subrange(0, i + 1 as int) =~= items.subrange(0, i as int).push(x));
    lemma_flatten_push(lines, seq![x]);
    assert(items.subrange(0, i as int) + seq![x] =~= items.subrange(0, i as int).push(x));
    assert(seq![x].len() == 1 && seq![x][0] == x);
    assert(nl.last() == seq![x]);
    assert forall|j: int| 0 <= j < nl.len() && #[trigger] nl[j].len() >= 2 implies line_cells(
        nl[j],
        widths,
    ) <= width by {
        if j < nl.len() - 1 {
            assert(nl[j] == lines[j]);
        }
    }
    assert forall|j: int, k: int|
        #![trigger nl[j], nl[k]]
        0 <= j && k == j + 1 && k < nl.len() implies line_cells(nl[j], widths)
            + gap_width() + item_width_spec(nl[k][0], widths) > width by {
        assert(nl[j] == lines[j]);
        if k == nl.len() - 1 {
            assert(nl[k][0] == x);
        } else {
            assert(nl[k] == lines[k]);
        }
    }
    assert forall|k: int| 1 <= k < nl.len() implies #[trigger] nl[k].len() > 0 by {
        if k < nl.len() - 1 {
            assert(nl[k] == lines[k]);
        }
    }
    assert(lines_greedy(nl, widths, width));
    assert(lines_within(nl, widths, width));
    assert(flatten_lines(nl) == items.subrange(0, i + 1 as int));
    assert(w == line_cells(nl.last(), widths));
    assert(nl.len() <= max_lines);
}

proof fn lemma_pack_from_ok(
    items: Seq<LayoutItem>,
    widths: Seq<nat>,
    width: nat,
    max_lines: nat,
    i: nat,
    lines: Seq<Seq<LayoutItem>>,
    line_width: nat,
)
    requires
        widths_positive(items, widths),
        pack_state_ok(items, widths, width, max_lines, i, lines, line_width),
    ensures
        pack_from(items, widths, width, max_lines, i, lines, line_width) matches Some(r) ==> {
            &&& flatten_lines(r) == items
            &&& r.len() <= if max_lines >= 1 {
                max_lines
            } else {
                1
            }
            &&& lines_within(r, widths, width)
            &&& lines_greedy(r, widths, width)
        },
    decreases items.len() - i,
{
    if i >= items.len() {
        assert(items.subrange(0, i as int) =~= items);
    } else {
        let x = items[i as int];
        let w = item_width_spec(x, widths);
        assert(w > 0);
        let gap = if line_width == 0 {
            0
        } else {
            gap_width()
        };
        if line_width + gap + w <= width {
            lemma_fit_step(items, widths, width, max_lines, i, lines, line_width);
            lemma_pack_from_ok(
                items,
                widths,
                width,
                max_lines,
                i + 1,
                lines.update(lines.len() - 1, lines.last().push(x)),
                line_width + gap + w,
            );
        } else if lines.len() >= max_lines {
        } else {
            lemma_new_line_step(items, widths, width, max_lines, i, lines, line_width);
            lemma_pack_from_ok(items, widths, width, max_lines, i + 1, lines.push(seq![x]), w);
        }
    }
}

/// Law: when the items are packed, the lines read in order give back every
/// item in order, there are at most `max_lines` lines, every line of two or
/// more items fits in `width` cells (an item too wide for the bar has a line
/// of its own), and a line only ends when the next item would not fit on it.
pub proof fn law_packed_lines_fit(
    items: Seq<LayoutItem>,
    widths: Seq<nat>,
    width: nat,
    max_lines: nat,
)
    requires
        widths_positive(items, widths),
    ensures
        pack_spec(items, widths, width, max_lines) matches Some(lines) ==> {
            &&& flatten_lines(lines) == items
            &&& lines.len() <= if max_lines >= 1 {
                max_lines
            } else {
                1
            }
            &&& lines_within(lines, widths, width)
            &&& lines_greedy(lines, widths, width)
        },
{
    let start = seq![Seq::<LayoutItem>::empty()];
    assert(start.drop_last() =~= Seq::<Seq<LayoutItem>>::empty());
    assert(flatten_lines(Seq::<Seq<LayoutItem>>::empty()) =~= Seq::<LayoutItem>::empty());
    assert(flatten_lines(start) =~= items.subrange(0, 0));
    assert(start.last() == Seq::<LayoutItem>::empty());
    lemma_pack_from_ok(items, widths, width, max_lines, 0, start, 0);
}


proof fn lemma_layout_from_fits(
    active: Seq<usize>,
    dropped: bool,
    widths: Seq<nat>,
    prios: Seq<u8>,
    width: nat,
    max_lines: nat,
)
    requires
        forall|k: int| 0 <= k < active.len() ==> #[trigger] active[k] < widths.len(),
        forall|i: int| 0 <= i < widths.len() ==> #[trigger] widths[i] > 0,
    ensures
        lines_within(layout_from(active, dropped, widths, prios, width, max_lines).0, widths, width),
        lines_greedy(layout_from(active, dropped, widths, prios, width, max_lines).0, widths, width),
        layout_from(active, dropped, widths, prios, width, max_lines).0.len() <= if max_lines >= 1 {
            max_lines
        } else {
            1
        },
    decreases active.len(),
{
    let items = hint_items(active, dropped);
    assert forall|k: int| 0 <= k < items.len() implies item_width_spec(#[trigger] items[k], widths)
        > 0 by {
        if k < active.len() {
            assert(items[k] == LayoutItem::Hint(active[k]));
            assert(active[k] < widths.len());
        }
    }
    law_packed_lines_fit(items, widths, width, max_lines);
    match pack_spec(items, widths, width, max_lines) {
        Some(lines) => {},
        None => {
            if active.len() > 0 {
                lemma_drop_choice_range(active, prios, active.len());
                let d = drop_choice(active, prios, active.len()) as int;
                let rest = active.remove(d);
                assert forall|k: int| 0 <= k < rest.len() implies #[trigger] rest[k] < widths.len() by {
                    if k < d {
                        assert(rest[k] == active[k]);
                    } else {
                        assert(rest[k] == active[k + 1]);
                    }
                }
                lemma_layout_from_fits(rest, true, widths, prios, width, max_lines);
            }
        },
    }
}

/// Law: the laid-out hint lines never hold more than `max_lines` lines, every
/// line of two or more items fits in the bar's `width` cells, and a line only
/// ends when the next item would not fit on it.
pub proof fn law_layout_lines_fit(hints: Seq<ActionHint>, width: nat, max_lines: nat)
    ensures
        lines_within(layout_spec(hints, width, max_lines).0, hint_widths(hints), width),
        lines_greedy(layout_spec(hints, width, max_lines).0, hint_widths(hints), width),
        layout_spec(hints, width, max_lines).0.len() <= if max_lines >= 1 {
            max_lines
        } else {
            1
        },
{
    let active = Seq::new(hints.len(), |i: int| i as usize);
    let widths = hint_widths(hints);
    assert forall|i: int| 0 <= i < widths.len() implies #[trigger] widths[i] > 0 by {
        assert(widths[i] == hint_width_spec(hints[i].key@, hints[i].label@));
    }
    assert forall|k: int| 0 <= k < active.len() implies #[trigger] active[k] < widths.len() by {}
    lemma_layout_from_fits(active, false, widths, hint_priorities(hints), width, max_lines);
}

} // verus!
