//! Row blocks: a batch of rows as a transport delivers it, read value by
//! value by row and column.

use vstd::prelude::*;

verus! {

/// The type tag of a value that is absent.
pub const TY_NULL: u8 = 0;

/// The tag of `taos_query::common::Ty::Null`, as its cast to `u8` gives it.
/// Trusted: that it is zero.
#[verifier::external_body]
fn null_type() -> (ty: u8)
    ensures
        ty == TY_NULL,
{
    taos_query::common::Ty::Null as u8
}

/// One value of a row block: its type tag, its length in bytes and its data,
/// absent for a database null.
#[derive(Debug, Clone, PartialEq, Eq)]
pub struct Cell {
    pub ty: u8,
    /// Fixed for a fixed-width type, the payload's length for a variable one.
    pub len: u32,
    pub data: Option<Vec<u8>>,
}

/// A cell as a value: tag, length and data.
pub struct CellView {
    pub ty: u8,
    pub len: u32,
    pub data: Option<Seq<u8>>,
}

impl View for Cell {
    type V = CellView;

    open spec fn view(&self) -> CellView {
        CellView {
            ty: self.ty,
            len: self.len,
            data: match self.data {
                Some(d) => Some(d@),
                None => None,
            },
        }
    }
}

/// What reading a position of a block yields: type tag, length and data.
pub struct RawValue<'a> {
    pub ty: u8,
    pub len: u32,
    pub data: Option<&'a [u8]>,
}

impl<'a> View for RawValue<'a> {
    type V = CellView;

    open spec fn view(&self) -> CellView {
        CellView {
            ty: self.ty,
            len: self.len,
            data: match self.data {
                Some(d) => Some(d@),
                None => None,
            },
        }
    }
}

/// What an absent value reads as.
pub open spec fn null_value() -> CellView {
    CellView { ty: TY_NULL, len: 0, data: None }
}

impl<'a> RawValue<'a> {
    /// The absent value: the null type, no length, no data.
    pub fn null() -> (value: RawValue<'a>)
        ensures
            value@ == null_value(),
    {
        RawValue { ty: null_type(), len: 0, data: None }
    }
}

/// Whether a cell's data, where present, has the length that the cell states.
pub open spec fn cell_fits(cell: CellView) -> bool {
    cell.data matches Some(d) ==> d.len() == cell.len
}

/// Whether the column has `nrows` cells, each of them fitting.
pub open spec fn is_column(nrows: nat, column: Seq<CellView>) -> bool {
    column.len() == nrows && forall|r: int| 0 <= r < nrows ==> cell_fits(#[trigger] column[r])
}

/// Whether the columns make a table of `nrows` rows of fitting cells.
pub open spec fn is_table(nrows: nat, columns: Seq<Seq<CellView>>) -> bool {
    forall|c: int| 0 <= c < columns.len() ==> is_column(nrows, #[trigger] columns[c])
}

/// The cells of a block's columns as values.
pub open spec fn cells_view(columns: Seq<Vec<Cell>>) -> Seq<Seq<CellView>> {
    columns.map_values(|column: Vec<Cell>| column@.map_values(|cell: Cell| cell@))
}

/// A batch of rows: the raw buffer as it came and its values by column.
#[derive(Debug)]
pub struct Block {
    nrows: usize,
    columns: Vec<Vec<Cell>>,
    raw: Vec<u8>,
}

/// A block as a value.
pub struct BlockView {
    pub nrows: nat,
    /// The values, column by column.
    pub columns: Seq<Seq<CellView>>,
    pub raw: Seq<u8>,
}

impl BlockView {
    /// The number of columns.
    pub open spec fn ncols(self) -> nat {
        self.columns.len()
    }

    /// Whether the block has a cell at the position.
    pub open spec fn holds(self, row: int, col: int) -> bool {
        0 <= row < self.nrows && 0 <= col < self.ncols()
    }

    /// What reading a position yields: the cell where the block holds the
    /// position, the absent value elsewhere.
    pub open spec fn value(self, row: int, col: int) -> CellView {
        if self.holds(row, col) {
            self.columns[col][row]
        } else {
            null_value()
        }
    }
}

impl View for Block {
    type V = BlockView;

    closed spec fn view(&self) -> BlockView {
        BlockView { nrows: self.nrows as nat, columns: cells_view(self.columns@), raw: self.raw@ }
    }
}

fn column_fits(column: &Vec<Cell>, nrows: usize) -> (ok: bool)
    ensures
        ok == is_column(nrows as nat, column@.map_values(|cell: Cell| cell@)),
{
    let ghost cells = column@.map_values(|cell: Cell| cell@);
    if column.len() != nrows {
        return false;
    }
    let mut r: usize = 0;
    while r < nrows
        invariant
            r <= nrows,
            column@.len() == nrows,
            cells == column@.map_values(|cell: Cell| cell@),
            forall|k: int| 0 <= k < r ==> cell_fits(#[trigger] cells[k]),
        decreases nrows - r,
    {
        let cell = &column[r];
        let fits = match &cell.data {
            Some(d) => d.len() <= u32::MAX as usize && d.len() as u32 == cell.len,
            None => true,
        };
        if !fits {
            assert(!cell_fits(cells[r as int]));
            return false;
        }
        r += 1;
    }
    true
}

impl Block {
    #[verifier::type_invariant]
    spec fn well_formed(self) -> bool {
        is_table(self.nrows as nat, cells_view(self.columns@))
    }

    /// A block of `nrows` rows with the given columns, where every column has
    /// that many cells and every cell's data has the length the cell states.
    pub fn new(nrows: usize, columns: Vec<Vec<Cell>>, raw: Vec<u8>) -> (block: Option<Block>)
        ensures
            block is Some <==> is_table(nrows as nat, cells_view(columns@)),
            block matches Some(b) ==> b@ == (BlockView {
                nrows: nrows as nat,
                columns: cells_view(columns@),
                raw: raw@,
            }),
    {
        let ghost table = cells_view(columns@);
        let mut c: usize = 0;
        while c < columns.len()
            invariant
                c <= columns.len(),
                table == cells_view(columns@),
                forall|k: int| 0 <= k < c ==> is_column(nrows as nat, #[trigger] table[k]),
            decreases columns.len() - c,
        {
            if !column_fits(&columns[c], nrows) {
                assert(!is_column(nrows as nat, table[c as int]));
                return None;
            }
            assert(is_column(nrows as nat, table[c as int]));
            c += 1;
        }
        Some(Block { nrows, columns, raw })
    }

    /// The number of rows.
    pub fn nrows(&self) -> (n: usize)
        ensures
            n == self@.nrows,
    {
        self.nrows
    }

    /// The number of columns.
    pub fn ncols(&self) -> (n: usize)
        ensures
            n == self@.ncols(),
    {
        self.columns.len()
    }

    /// The raw buffer of the block.
    pub fn as_bytes(&self) -> (raw: &[u8])
        ensures
            raw@ == self@.raw,
    {
        self.raw.as_slice()
    }

    /// Reads the value at a position that the block holds.
    pub fn get_raw_value(&self, row: usize, col: usize) -> (value: RawValue<'_>)
        requires
            self@.holds(row as int, col as int),
        ensures
            value@ == self@.value(row as int, col as int),
            cell_fits(value@),
    {
        proof {
            use_type_invariant(self);
            assert(is_column(self.nrows as nat, cells_view(self.columns@)[col as int]));
            assert(cell_fits(cells_view(self.columns@)[col as int][row as int]));
        }
        let cell = &self.columns[col][row];
        RawValue {
            ty: cell.ty,
            len: cell.len,
            data: match &cell.data {
                Some(d) => Some(d.as_slice()),
                None => None,
            },
        }
    }
}

} // verus!
