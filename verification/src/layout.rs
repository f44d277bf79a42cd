//! The arithmetic of a legend: heights, rows, and the places of stacked
//! layers.

use vstd::prelude::*;

verus! {

/// The height of a list of swatches: ten units above and below, thirty
/// for each entry, and twenty more where a title stands above the list.
pub open spec fn list_height(entries: int, has_label: bool) -> int {
    20 + 30 * entries + if has_label {
        20int
    } else {
        0int
    }
}

/// Where row `index` of a list of swatches starts: thirty units below
/// the row before it; the first row starts at `top`, or thirty units
/// lower where a title stands above the list.
pub open spec fn row_offset(top: int, has_label: bool, index: int) -> int {
    top + 30 * index + if has_label {
        30int
    } else {
        0int
    }
}

/// The height of a list of icons: the rows below a margin of ten units,
/// or of forty where a title stands above the list, and ten units below.
pub open spec fn icon_list_height(entries: int, has_label: bool) -> int {
    row_offset(10, has_label, entries) + 10
}

/// Where a rendered layer stands in a stack of layers.
#[derive(Clone, Copy, Debug, PartialEq, Eq)]
pub struct Placement {
    /// The distance from the top of the stack to the top of the layer.
    pub offset: u32,
    /// The distance from the top of the stack to the bottom of the layer.
    pub bottom: u32,
    /// The greatest width among this layer and those above it.
    pub width: u32,
}

/// The sum of the heights of the first `count` sizes.
pub open spec fn heights_sum(sizes: Seq<(u32, u32)>, count: int) -> int
    decreases count,
{
    if count <= 0 {
        0
    } else {
        heights_sum(sizes, count - 1) + sizes[count - 1].1
    }
}

/// The greatest width among the first `count` sizes, and 0 for none.
pub open spec fn widths_max(sizes: Seq<(u32, u32)>, count: int) -> int
    decreases count,
{
    if count <= 0 {
        0
    } else if sizes[count - 1].0 > widths_max(sizes, count - 1) {
        sizes[count - 1].0 as int
    } else {
        widths_max(sizes, count - 1)
    }
}

/// The place of layer `index` in a stack of layers of the given sizes,
/// each a width and a height, drawn one below the other.
pub open spec fn placement_of(sizes: Seq<(u32, u32)>, index: int) -> (int, int, int) {
    (heights_sum(sizes, index), heights_sum(sizes, index + 1), widths_max(sizes, index + 1))
}

/// The colour of a cell of the checkerboard that stands for a raster
/// layer: the five shades in turn, three steps on for each column and
/// seven for each row.
pub open spec fn checker_color_of(column: int, row: int) -> Seq<char> {
    let shade = (column * 3 + row * 7) % 5;
    if shade == 0 {
        "#e9ecef"@
    } else if shade == 1 {
        "#d8e2dc"@
    } else if shade == 2 {
        "#c0d6d4"@
    } else if shade == 3 {
        "#a8c8c8"@
    } else {
        "#90badc"@
    }
}

/// Picks the colour of a cell of the checkerboard.
pub fn checker_color(column: u8, row: u8) -> (r: &'static str)
    ensures
        r@ == checker_color_of(column as int, row as int),
{
    let shade: u32 = ((column as u32) * 3 + (row as u32) * 7) % 5;
    if shade == 0 {
        "#e9ecef"
    } else if shade == 1 {
        "#d8e2dc"
    } else if shade == 2 {
        "#c0d6d4"
    } else if shade == 3 {
        "#a8c8c8"
    } else {
        "#90badc"
    }
}

/// Computes the height of a list of swatches, where it fits.
pub fn swatch_list_height(entries: usize, has_label: bool) -> (r: Option<u32>)
    ensures
        match r {
            Some(height) => height == list_height(entries as int, has_label),
            None => list_height(entries as int, has_label) > u32::MAX,
        },
{
    let margin: u64 = if has_label {
        40
    } else {
        20
    };
    if entries > 143165576 {
        return None;
    }
    let height: u64 = 30 * (entries as u64) + margin;
    if height > 4294967295 {
        None
    } else {
        Some(height as u32)
    }
}

/// Computes where row `index` of a list of swatches starts, where that fits.
pub fn swatch_row(top: u32, has_label: bool, index: usize) -> (r: Option<u32>)
    ensures
        match r {
            Some(y) => y == row_offset(top as int, has_label, index as int),
            None => row_offset(top as int, has_label, index as int) > u32::MAX,
        },
{
    let shift: u64 = if has_label {
        30
    } else {
        0
    };
    if index > 143165576 {
        return None;
    }
    let y: u64 = (top as u64) + 30 * (index as u64) + shift;
    if y > 4294967295 {
        None
    } else {
        Some(y as u32)
    }
}

/// Computes the height of a list of icons, where it fits.
pub fn icon_rows_height(entries: usize, has_label: bool) -> (r: Option<u32>)
    ensures
        match r {
            Some(height) => height == icon_list_height(entries as int, has_label),
            None => icon_list_height(entries as int, has_label) > u32::MAX,
        },
{
    match swatch_row(10, has_label, entries) {
        Some(y) => if y > 4294967285 {
            None
        } else {
            Some(y + 10)
        },
        None => None,
    }
}

/// The sum of heights grows with the count.
pub proof fn lemma_heights_sum_grows(sizes: Seq<(u32, u32)>, i: int, j: int)
    requires
        0 <= i <= j,
    ensures
        heights_sum(sizes, i) <= heights_sum(sizes, j),
    decreases j - i,
{
    if i < j {
        lemma_heights_sum_grows(sizes, i, j - 1);
    }
}

/// Stacks rendered layers one below the other, in the order given. Each
/// size is a width and a height. The result places every layer, or is
/// nothing where the heights do not add up within 32 bits.
pub fn stack_layers(sizes: &Vec<(u32, u32)>) -> (r: Option<Vec<Placement>>)
    ensures
        match r {
            Some(places) => {
                &&& places.len() == sizes.len()
                &&& forall|i: int|
                    0 <= i < places.len() ==> (
                        #[trigger] places[i].offset as int,
                        places[i].bottom as int,
                        places[i].width as int,
                    ) == placement_of(sizes@, i)
            },
            None => heights_sum(sizes@, sizes.len() as int) > u32::MAX,
        },
{
    let mut places: Vec<Placement> = Vec::new();
    let mut offset: u32 = 0;
    let mut width: u32 = 0;
    let mut i: usize = 0;
    while i < sizes.len()
        invariant
            i <= sizes.len(),
            places.len() == i,
            offset == heights_sum(sizes@, i as int),
            width == widths_max(sizes@, i as int),
            forall|k: int|
                0 <= k < i ==> (
                    #[trigger] places[k].offset as int,
                    places[k].bottom as int,
                    places[k].width as int,
                ) == placement_of(sizes@, k),
        decreases sizes.len() - i,
    {
        let size = sizes[i];
        if size.1 > 4294967295 - offset {
            proof {
                lemma_heights_sum_grows(sizes@, i + 1, sizes.len() as int);
            }
            return None;
        }
        let bottom = offset + size.1;
        if size.0 > width {
            width = size.0;
        }
        places.push(Placement { offset, bottom, width });
        offset = bottom;
        i += 1;
    }
    Some(places)
}

} // verus!
