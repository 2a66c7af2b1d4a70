use crate::errors::mapping::HardwareMappingError;
use vstd::prelude::*;

verus! {

/// Number of pad rows on the default surface.
pub const ROWS: u8 = 5;

/// Number of pad columns on the default surface.
pub const COLS: u8 = 8;

/// A cell of the pad grid, as `Grid(row, col)`.
///
/// Row 5 is the top row and row 1 the bottom one; columns run from 1 on the
/// left to 8 on the right.
#[derive(Debug, Clone, Copy, PartialEq, Eq, Structural)]
pub enum PadKey {
    Grid(u8, u8),
}

/// A raw pad index together with the grid size it is read against.
/// A missing size falls back to the default 5 x 8 grid.
#[derive(Debug, Clone, Copy, PartialEq, Eq, Structural)]
pub struct PadData {
    pub n_of_rows: Option<u8>,
    pub n_of_columns: Option<u8>,
    pub index: u8,
}

impl PadData {
    pub fn new(n_of_rows: Option<u8>, n_of_columns: Option<u8>, index: u8) -> (r: PadData)
        ensures
            r.n_of_rows == n_of_rows,
            r.n_of_columns == n_of_columns,
            r.index == index,
    {
        PadData { n_of_rows, n_of_columns, index }
    }

    /// The number of rows, with the default applied.
    pub open spec fn rows(self) -> int {
        match self.n_of_rows {
            Some(r) => r as int,
            None => ROWS as int,
        }
    }

    /// The number of columns, with the default applied.
    pub open spec fn cols(self) -> int {
        match self.n_of_columns {
            Some(c) => c as int,
            None => COLS as int,
        }
    }
}

/// The cell that raw index `index` names on a grid of `rows` x `cols`
/// counted from the top-left, or an error when the grid has no such index.
pub open spec fn pad_of_index(rows: int, cols: int, index: u8) -> Result<PadKey, HardwareMappingError> {
    if (index as int) < rows * cols {
        Ok(PadKey::Grid((rows - index as int / cols) as u8, (index as int % cols + 1) as u8))
    } else {
        Err(HardwareMappingError::InvalidPadIndex(index))
    }
}

impl PadKey {
    pub open spec fn row_spec(self) -> u8 {
        match self {
            PadKey::Grid(row, _) => row,
        }
    }

    pub open spec fn col_spec(self) -> u8 {
        match self {
            PadKey::Grid(_, col) => col,
        }
    }

    /// The cell lies on the default 5 x 8 grid.
    pub open spec fn wf(self) -> bool {
        1 <= self.row_spec() <= ROWS && 1 <= self.col_spec() <= COLS
    }

    /// Raw index of the cell on the default grid, counted from the top-left.
    pub open spec fn index_spec(self) -> int {
        (ROWS - self.row_spec()) * COLS + (self.col_spec() - 1)
    }

    /// Decoding of a raw byte on the default grid.
    pub open spec fn decode_spec(value: u8) -> Result<PadKey, HardwareMappingError> {
        pad_of_index(ROWS as int, COLS as int, value)
    }

    #[must_use]
    pub fn get_row(self) -> (r: u8)
        ensures
            r == self.row_spec(),
    {
        match self {
            PadKey::Grid(row, _) => row,
        }
    }

    #[must_use]
    pub fn get_col(self) -> (r: u8)
        ensures
            r == self.col_spec(),
    {
        match self {
            PadKey::Grid(_, col) => col,
        }
    }

    /// The raw byte of the cell (0 to 39).
    #[must_use]
    pub fn get_index(self) -> (r: u8)
        requires
            self.wf(),
        ensures
            r as int == self.index_spec(),
            r < 40,
    {
        self.encode()
    }

    /// The raw byte of the cell (0 to 39).
    pub fn encode(self) -> (r: u8)
        requires
            self.wf(),
        ensures
            r as int == self.index_spec(),
            r < 40,
    {
        match self {
            PadKey::Grid(row, col) => (ROWS - row) * COLS + (col - 1),
        }
    }

    /// Reads a raw index against the grid size that `data` gives.
    pub fn from_pad_data(data: PadData) -> (r: Result<PadKey, HardwareMappingError>)
        ensures
            r == pad_of_index(data.rows(), data.cols(), data.index),
    {
        let rows: u8 = match data.n_of_rows {
            Some(n) => n,
            None => ROWS,
        };
        let cols: u8 = match data.n_of_columns {
            Some(n) => n,
            None => COLS,
        };
        assert((rows as int) * (cols as int) <= 255 * 255) by (nonlinear_arith)
            requires
                rows <= 255,
                cols <= 255,
        ;
        let cells: u16 = (rows as u16) * (cols as u16);
        if (data.index as u16) < cells {
            proof {
                assert(cols > 0) by (nonlinear_arith)
                    requires
                        (data.index as int) < rows as int * cols as int,
                        rows >= 0,
                ;
                assert((data.index as int) / (cols as int) < (rows as int)) by (nonlinear_arith)
                    requires
                        (data.index as int) < rows as int * cols as int,
                        cols > 0,
                ;
            }
            let row: u8 = rows - data.index / cols;
            let col: u8 = data.index % cols + 1;
            Ok(PadKey::Grid(row, col))
        } else {
            Err(HardwareMappingError::InvalidPadIndex(data.index))
        }
    }

    /// Decodes a raw byte on the default 5 x 8 grid.
    pub fn decode(value: u8) -> (r: Result<PadKey, HardwareMappingError>)
        ensures
            r == Self::decode_spec(value),
    {
        Self::from_pad_data(PadData::new(Some(ROWS), Some(COLS), value))
    }
}

/// Decoding the raw byte of any cell of the default grid gives that cell back.
pub proof fn lemma_pad_round_trip(p: PadKey)
    requires
        p.wf(),
    ensures
        0 <= p.index_spec() < 40,
        PadKey::decode_spec(p.index_spec() as u8) == Ok::<PadKey, HardwareMappingError>(p),
{
    let i = p.index_spec();
    assert(i / 8 == ROWS - p.row_spec());
    assert(i % 8 == p.col_spec() - 1);
}

/// No two distinct cells of the default grid share a raw byte.
pub proof fn lemma_pad_encode_injective(a: PadKey, b: PadKey)
    requires
        a.wf(),
        b.wf(),
        a.index_spec() == b.index_spec(),
    ensures
        a == b,
{
    lemma_pad_round_trip(a);
    lemma_pad_round_trip(b);
}

} // verus!
