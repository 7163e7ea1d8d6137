//! The fixed palette of the cursor sprite: eight colours in the entries 1 to 8.
//! Entry 0 is kept for transparency and holds no colour of the table.

use crate::color::{pack, Bgr555, Channels, PaletteColor};
use vstd::prelude::*;

verus! {

/// The number of colours in the table.
pub const PALETTE_LEN: usize = 8;

/// The colours of the table, in order.
pub open spec fn colors() -> Seq<Channels> {
    seq![
        (0int, 0int, 0int),
        (31int, 0int, 0int),
        (0int, 31int, 0int),
        (0int, 0int, 31int),
        (31int, 31int, 0int),
        (31int, 0int, 31int),
        (0int, 31int, 31int),
        (31int, 31int, 31int),
    ]
}

/// Whether the table holds a colour with these channels.
pub open spec fn in_palette(ch: Channels) -> bool {
    exists|i: int| 0 <= i < 8 && colors()[i] == ch
}

/// The palette entry of a colour: one more than its place in the table, so
/// never 0. A colour that the table lacks has no entry.
pub open spec fn slot(ch: Channels) -> Option<int> {
    if in_palette(ch) {
        Some(1 + choose|i: int| 0 <= i < 8 && colors()[i] == ch)
    } else {
        None
    }
}

/// No colour stands twice in the table.
pub proof fn lemma_colors_distinct(i: int, j: int)
    requires
        0 <= i < 8,
        0 <= j < 8,
        colors()[i] == colors()[j],
    ensures
        i == j,
{
}

/// The entry of the colour at place `i` of the table is `i + 1`.
pub proof fn lemma_slot_of_table(i: int)
    requires
        0 <= i < 8,
    ensures
        slot(colors()[i]) == Some(i + 1),
{
    let ch = colors()[i];
    let j = choose|j: int| 0 <= j < 8 && colors()[j] == ch;
    lemma_colors_distinct(i, j);
}

/// A colour's entry, where it has one, lies in 1 to 8 and holds that colour:
/// the transparent entry 0 is never the entry of a colour.
pub proof fn lemma_slot_never_transparent(ch: Channels)
    ensures
        slot(ch).is_some() ==> 1 <= slot(ch).unwrap() <= 8 && colors()[slot(ch).unwrap() - 1] == ch,
        slot(ch).is_none() <==> !in_palette(ch),
{
}

/// A lookup always gives the same answer for the same colour: two palette
/// colours that are both the entry of one colour are the same.
pub proof fn lemma_lookup_stable(ch: Channels, first: PaletteColor, second: PaletteColor)
    requires
        slot(ch) == Some(first@ as int),
        slot(ch) == Some(second@ as int),
    ensures
        first == second,
        first@ != 0,
{
    lemma_slot_never_transparent(ch);
    first.lemma_view_injective(second);
}

/// The colour at place `index` of the table; `None` past its end.
pub fn color_at(index: usize) -> (r: Option<Bgr555>)
    ensures
        index < 8 ==> r.is_some() && r.unwrap().wf() && r.unwrap()@ == colors()[index as int],
        index >= 8 ==> r.is_none(),
{
    match index {
        0 => Some(Bgr555::black()),
        1 => Some(Bgr555::red()),
        2 => Some(Bgr555::green()),
        3 => Some(Bgr555::blue()),
        4 => Some(Bgr555::yellow()),
        5 => Some(Bgr555::magenta()),
        6 => Some(Bgr555::cyan()),
        7 => Some(Bgr555::white()),
        _ => None,
    }
}

/// Looks a colour up in the table. A colour of the table gives its entry,
/// which is never the transparent one; any other colour gives `None`.
pub fn palette_index(color: Bgr555) -> (r: Option<PaletteColor>)
    ensures
        match r {
            Some(entry) => slot(color@) == Some(entry@ as int),
            None => slot(color@).is_none(),
        },
{
    let mut i: usize = 0;
    while i < PALETTE_LEN
        invariant
            i <= 8,
            forall|j: int| 0 <= j < i ==> colors()[j] != color@,
        decreases 8 - i,
    {
        let candidate = color_at(i).unwrap();
        if candidate.r() == color.r() && candidate.g() == color.g() && candidate.b() == color.b() {
            proof {
                lemma_slot_of_table(i as int);
            }
            return Some(PaletteColor::new((i + 1) as u8));
        }
        i += 1;
    }
    None
}

/// The colour that a palette entry shows; `None` for the transparent entry
/// and for the entries above 8.
pub fn palette_color(entry: PaletteColor) -> (r: Option<Bgr555>)
    ensures
        1 <= entry@ <= 8 ==> r.is_some() && r.unwrap().wf() && r.unwrap()@ == colors()[entry@ - 1],
        !(1 <= entry@ <= 8) ==> r.is_none(),
{
    let index: u8 = entry.into_storage();
    if index == 0 {
        None
    } else {
        color_at((index - 1) as usize)
    }
}

/// The writes that fill the palette: for each colour of the table, in order,
/// its entry and the word to store there.
pub fn register_palette() -> (writes: Vec<(u8, u16)>)
    ensures
        writes@.len() == 8,
        forall|i: int|
            0 <= i < 8 ==> #[trigger] writes@[i] == ((i + 1) as u8, pack(colors()[i]) as u16),
{
    let mut writes: Vec<(u8, u16)> = Vec::new();
    let mut i: usize = 0;
    while i < PALETTE_LEN
        invariant
            i <= 8,
            writes@.len() == i,
            forall|j: int|
                0 <= j < i ==> #[trigger] writes@[j] == ((j + 1) as u8, pack(colors()[j]) as u16),
        decreases 8 - i,
    {
        let color = color_at(i).unwrap();
        writes.push(((i + 1) as u8, color.into_storage()));
        i += 1;
    }
    writes
}

} // verus!
