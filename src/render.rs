use vstd::prelude::*;

verus! {

/// The separator line drawn above the board and below every rank.
pub open spec fn border() -> Seq<char> {
    "+---+---+---+---+---+---+---+---+\n"@
}

/// The file letters printed under the board.
pub open spec fn legend() -> Seq<char> {
    "  a   b   c   d   e   f   g   h\n"@
}

/// The label of rank `rank` (0 for rank 1, .., 7 for rank 8).
pub open spec fn rank_label(rank: int) -> Seq<char> {
    if rank == 0 {
        "1"@
    } else if rank == 1 {
        "2"@
    } else if rank == 2 {
        "3"@
    } else if rank == 3 {
        "4"@
    } else if rank == 4 {
        "5"@
    } else if rank == 5 {
        "6"@
    } else if rank == 6 {
        "7"@
    } else {
        "8"@
    }
}

/// The first `n` cells (files A onwards) of rank `rank`, where `cell(i)` is
/// the text of the cell of square index `i`.
pub open spec fn cells(cell: spec_fn(int) -> Seq<char>, rank: int, n: nat) -> Seq<char>
    decreases n,
{
    if n == 0 {
        Seq::empty()
    } else {
        cells(cell, rank, (n - 1) as nat) + cell(8 * rank + n - 1)
    }
}

/// One printed rank: its eight cells, the closing bar with the rank label,
/// and a separator line.
pub open spec fn row(cell: spec_fn(int) -> Seq<char>, rank: int) -> Seq<char> {
    cells(cell, rank, 8) + "| "@ + rank_label(rank) + "\n"@ + border()
}

/// The first `k` printed ranks, from rank 8 downwards.
pub open spec fn rows(cell: spec_fn(int) -> Seq<char>, k: nat) -> Seq<char>
    decreases k,
{
    if k == 0 {
        Seq::empty()
    } else {
        rows(cell, (k - 1) as nat) + row(cell, 8 - k)
    }
}

/// The whole bordered 8x8 diagram: rank 8 at the top, file legend below.
pub open spec fn grid(cell: spec_fn(int) -> Seq<char>) -> Seq<char> {
    border() + rows(cell, 8) + legend()
}

pub(crate) fn border_text() -> (r: &'static str)
    ensures
        r@ == border(),
{
    "+---+---+---+---+---+---+---+---+\n"
}

pub(crate) fn legend_text() -> (r: &'static str)
    ensures
        r@ == legend(),
{
    "  a   b   c   d   e   f   g   h\n"
}

pub(crate) fn rank_label_text(rank: usize) -> (r: &'static str)
    requires
        rank < 8,
    ensures
        r@ == rank_label(rank as int),
{
    match rank {
        0 => "1",
        1 => "2",
        2 => "3",
        3 => "4",
        4 => "5",
        5 => "6",
        6 => "7",
        _ => "8",
    }
}

/// Appends the end of rank `rank` (bar, label, newline, separator) to `s`.
pub(crate) fn finish_row(s: &mut String, rank: usize)
    requires
        rank < 8,
    ensures
        final(s)@ == old(s)@ + "| "@ + rank_label(rank as int) + "\n"@ + border(),
{
    s.append("| ");
    s.append(rank_label_text(rank));
    s.append("\n");
    s.append(border_text());
}

} // verus!
