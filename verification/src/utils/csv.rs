use vstd::prelude::*;

verus! {

/// Largest width and height of a map, in tiles.
pub const MAX_MAP_DIM: usize = 16384;

/// What a cell of a map file asks for: the kind of tile, with the number of
/// its texture where the kind has one.
#[derive(Copy, Clone, PartialEq, Eq, Structural, Debug)]
pub enum TileCode {
    /// An empty tile.
    EMPTY,
    /// A wall with the lit texture of this number.
    WALL(i32),
    /// A door.
    DOOR,
    /// An empty tile with a guard in it.
    GUARD,
    /// An empty tile with an officer in it.
    OFFICER,
    /// An empty tile with a member of the SS in it.
    SS,
    /// A decorative object with the texture of this number.
    OBJECT(i32),
}

/// Why a map was turned down.
#[derive(Copy, Clone, PartialEq, Eq, Structural, Debug)]
pub enum MapError {
    /// A cell names a kind of tile that does not exist.
    UnknownTag,
    /// A wall or an object comes without the number of its texture.
    MissingTexture,
    /// A wall's texture number has no successor for the unlit texture.
    TextureOutOfRange,
    /// The rows differ in length.
    RaggedRows,
    /// The map is wider or higher than `MAX_MAP_DIM`.
    TooLarge,
}

impl MapError {
    /// What to tell whoever supplied the map.
    pub open spec fn message(self) -> &'static str {
        match self {
            MapError::UnknownTag => "a cell names a kind of tile that does not exist",
            MapError::MissingTexture => "a wall or an object has no texture number",
            MapError::TextureOutOfRange => "a wall's texture number is too large",
            MapError::RaggedRows => "the rows of the map differ in length",
            MapError::TooLarge => "the map is too large",
        }
    }

    pub fn Message(self) -> (m: &'static str)
        ensures
            m == self.message(),
    {
        match self {
            MapError::UnknownTag => "a cell names a kind of tile that does not exist",
            MapError::MissingTexture => "a wall or an object has no texture number",
            MapError::TextureOutOfRange => "a wall's texture number is too large",
            MapError::RaggedRows => "the rows of the map differ in length",
            MapError::TooLarge => "the map is too large",
        }
    }
}

/// The byte `-`, which parts a cell's tag from its number.
pub const DASH: u8 = 45;

/// The byte `+`.
pub const PLUS: u8 = 43;

/// The byte `0`.
pub const DIGIT_ZERO: u8 = 48;

/// The byte `9`.
pub const DIGIT_NINE: u8 = 57;

/// Index of the first dash of `s` at or after `i`, or the length of `s` if
/// there is none.
pub open spec fn dash_from(s: Seq<u8>, i: int) -> int
    decreases s.len() - i,
{
    if i >= s.len() {
        s.len() as int
    } else if s[i] == DASH {
        i
    } else {
        dash_from(s, i + 1)
    }
}

/// The tag of a cell: what stands before its first dash.
pub open spec fn tag_part(s: Seq<u8>) -> Seq<u8> {
    s.subrange(0, dash_from(s, 0))
}

/// What stands between the first and the second dash of a cell, if it has
/// a dash.
pub open spec fn id_part(s: Seq<u8>) -> Option<Seq<u8>> {
    let d = dash_from(s, 0);
    if d >= s.len() {
        None
    } else {
        Some(s.subrange(d + 1, dash_from(s, d + 1)))
    }
}

/// The number that a string of decimal digits denotes.
pub open spec fn digits_value(s: Seq<u8>) -> int
    decreases s.len(),
{
    if s.len() == 0 {
        0
    } else {
        10 * digits_value(s.drop_last()) + (s.last() - DIGIT_ZERO)
    }
}

/// Whether every byte of `s` is a decimal digit.
pub open spec fn all_digits(s: Seq<u8>) -> bool {
    forall|i: int| 0 <= i < s.len() ==> DIGIT_ZERO <= #[trigger] s[i] <= DIGIT_NINE
}

/// The number that `s` denotes: one or more decimal digits, with or without
/// a plus sign before them, that stay within the range of `i32`.
pub open spec fn number_of(s: Seq<u8>) -> Option<i32> {
    let body = if s.len() > 0 && s[0] == PLUS {
        s.subrange(1, s.len() as int)
    } else {
        s
    };
    if body.len() > 0 && all_digits(body) && digits_value(body) <= i32::MAX {
        Some(digits_value(body) as i32)
    } else {
        None
    }
}

/// What a cell of a map file asks for. The cell is a tag, which may be
/// followed by a dash and a number; what follows a second dash is not read.
/// The tags are the empty one for an empty tile, `W` for a wall, `D` for a
/// door, `GU`, `OF` and `SS` for the three kinds of enemy, and `O` for an
/// object. Walls and objects need the number.
pub open spec fn tile_code_of(s: Seq<u8>) -> Result<TileCode, MapError> {
    let tag = tag_part(s);
    let id = match id_part(s) {
        Some(p) => number_of(p),
        None => None,
    };
    if tag =~= Seq::<u8>::empty() {
        Ok(TileCode::EMPTY)
    } else if tag =~= seq![87u8] {
        match id {
            Some(n) => Ok(TileCode::WALL(n)),
            None => Err(MapError::MissingTexture),
        }
    } else if tag =~= seq![68u8] {
        Ok(TileCode::DOOR)
    } else if tag =~= seq![71u8, 85u8] {
        Ok(TileCode::GUARD)
    } else if tag =~= seq![79u8, 70u8] {
        Ok(TileCode::OFFICER)
    } else if tag =~= seq![83u8, 83u8] {
        Ok(TileCode::SS)
    } else if tag =~= seq![79u8] {
        match id {
            Some(n) => Ok(TileCode::OBJECT(n)),
            None => Err(MapError::MissingTexture),
        }
    } else {
        Err(MapError::UnknownTag)
    }
}

/// If no byte of `s` from `start` up to `i` is a dash, and `i` is the end of
/// `s` or the place of a dash, then `i` is where the first dash from `start`
/// is.
pub proof fn lemma_dash_from(s: Seq<u8>, start: int, i: int)
    requires
        0 <= start <= i <= s.len(),
        forall|j: int| start <= j < i ==> s[j] != DASH,
        i == s.len() || s[i] == DASH,
    ensures
        dash_from(s, start) == i,
    decreases i - start,
{
    if start < i {
        lemma_dash_from(s, start + 1, i);
    }
}

/// Index of the first dash of `field` at or after `start`.
fn FindDash(field: &[u8], start: usize) -> (i: usize)
    requires
        start <= field@.len(),
    ensures
        i == dash_from(field@, start as int),
        start <= i <= field@.len(),
{
    let mut i: usize = start;
    while i < field.len() && field[i] != DASH
        invariant
            start <= i <= field@.len(),
            forall|j: int| start <= j < i ==> field@[j] != DASH,
        decreases field@.len() - i,
    {
        i = i + 1;
    }
    proof {
        lemma_dash_from(field@, start as int, i as int);
    }
    i
}

/// The number that the bytes of `field` from `from` up to `to` denote.
fn ParseNumber(field: &[u8], from: usize, to: usize) -> (n: Option<i32>)
    requires
        from <= to <= field@.len(),
    ensures
        n == number_of(field@.subrange(from as int, to as int)),
{
    let ghost s = field@.subrange(from as int, to as int);
    let mut i: usize = from;
    if i < to && field[i] == PLUS {
        i = i + 1;
    }
    let first: usize = i;
    let ghost body = field@.subrange(first as int, to as int);
    if first == to {
        return None;
    }
    let mut value: i64 = 0;
    let mut tooBig: bool = false;
    while i < to
        invariant
            from <= first <= i <= to <= field@.len(),
            s == field@.subrange(from as int, to as int),
            body == field@.subrange(first as int, to as int),
            body == if s.len() > 0 && s[0] == PLUS {
                s.subrange(1, s.len() as int)
            } else {
                s
            },
            all_digits(body.subrange(0, i - first)),
            !tooBig ==> value == digits_value(body.subrange(0, i - first)) && 0 <= value <= i32::MAX,
            tooBig ==> digits_value(body.subrange(0, i - first)) > i32::MAX,
        decreases to - i,
    {
        let b: u8 = field[i];
        if b < DIGIT_ZERO || b > DIGIT_NINE {
            assert(body[i - first] == b);
            return None;
        }
        proof {
            let before = body.subrange(0, i - first);
            let upto = body.subrange(0, i - first + 1);
            assert(upto.drop_last() =~= before);
        }
        if !tooBig {
            value = value * 10 + (b - DIGIT_ZERO) as i64;
            if value > 2147483647 {
                tooBig = true;
            }
        }
        i = i + 1;
    }
    assert(body.subrange(0, to - first) =~= body);
    if tooBig {
        None
    } else {
        Some(value as i32)
    }
}

/// Whether the bytes of `field` before `end` are the one byte `a`.
fn TagIs1(field: &[u8], end: usize, a: u8) -> (b: bool)
    requires
        end <= field@.len(),
    ensures
        b == (field@.subrange(0, end as int) =~= seq![a]),
{
    let r = end == 1 && field[0] == a;
    proof {
        let t = field@.subrange(0, end as int);
        if r {
        } else if t =~= seq![a] {
            assert(t[0] == a);
        }
    }
    r
}

/// Whether the bytes of `field` before `end` are the two bytes `a` and `b`.
fn TagIs2(field: &[u8], end: usize, a: u8, b: u8) -> (r: bool)
    requires
        end <= field@.len(),
    ensures
        r == (field@.subrange(0, end as int) =~= seq![a, b]),
{
    let r = end == 2 && field[0] == a && field[1] == b;
    r
}

/// Reads one cell of a map file.
pub fn ParseTileCode(field: &[u8]) -> (r: Result<TileCode, MapError>)
    ensures
        r == tile_code_of(field@),
{
    let dash: usize = FindDash(field, 0);
    let id: Option<i32> = if dash < field.len() {
        let end: usize = FindDash(field, dash + 1);
        ParseNumber(field, dash + 1, end)
    } else {
        None
    };
    if dash == 0 {
        Ok(TileCode::EMPTY)
    } else if TagIs1(field, dash, 87) {
        match id {
            Some(n) => Ok(TileCode::WALL(n)),
            None => Err(MapError::MissingTexture),
        }
    } else if TagIs1(field, dash, 68) {
        Ok(TileCode::DOOR)
    } else if TagIs2(field, dash, 71, 85) {
        Ok(TileCode::GUARD)
    } else if TagIs2(field, dash, 79, 70) {
        Ok(TileCode::OFFICER)
    } else if TagIs2(field, dash, 83, 83) {
        Ok(TileCode::SS)
    } else if TagIs1(field, dash, 79) {
        match id {
            Some(n) => Ok(TileCode::OBJECT(n)),
            None => Err(MapError::MissingTexture),
        }
    } else {
        Err(MapError::UnknownTag)
    }
}

/// A rectangular table of tile codes, kept in a two-dimensional array of
/// the crate `ndarray`. The array is hidden: what it holds is known only as
/// `grid_cells` and `grid_cols`, through what the four functions below that
/// touch it are taken to do.
#[verifier::external_body]
pub struct TileCodeGrid {
    cells: ndarray::Array2<TileCode>,
}

/// The rows of a table of tile codes, the first row first.
pub uninterp spec fn grid_cells(g: TileCodeGrid) -> Seq<Seq<TileCode>>;

/// The number of cells in each row of a table of tile codes. A table
/// without rows has it too.
pub uninterp spec fn grid_cols(g: TileCodeGrid) -> nat;

impl TileCodeGrid {
    /// Builds the array with `ndarray::Array2::from_shape_vec` for the shape
    /// `(rows, cols)`. The call is taken to succeed exactly if `cells` holds
    /// `rows * cols` codes, the sizes asked for being too small for the
    /// count to overflow, and to lay the codes out row after row, so that
    /// the cell `j` of the row `i` is `cells[i * cols + j]`.
    #[verifier::external_body]
    pub(crate) fn FromShapeVec(rows: usize, cols: usize, cells: Vec<TileCode>) -> (r: Option<Self>)
        requires
            rows <= MAX_MAP_DIM,
            cols <= MAX_MAP_DIM,
        ensures
            r.is_some() <==> rows * cols == cells@.len(),
            r matches Some(g) ==> {
                &&& grid_cols(g) == cols
                &&& grid_cells(g).len() == rows
                &&& forall|i: int|
                    0 <= i < rows ==> (#[trigger] grid_cells(g)[i]).len() == cols
                &&& forall|i: int, j: int|
                    0 <= i < rows && 0 <= j < cols ==> #[trigger] grid_cells(g)[i][j] == cells@[i * cols
                        + j]
            },
    {
        match ndarray::Array2::from_shape_vec((rows, cols), cells) {
            Ok(cells) => Some(TileCodeGrid { cells }),
            Err(_) => None,
        }
    }

    /// The number of rows, as `ndarray::ArrayBase::nrows` gives it: the
    /// length of the first axis, taken to be the number of rows that the
    /// table holds.
    #[verifier::external_body]
    pub(crate) fn Rows(&self) -> (n: usize)
        ensures
            n == grid_cells(*self).len(),
    {
        self.cells.nrows()
    }

    /// The number of columns, as `ndarray::ArrayBase::ncols` gives it: the
    /// length of the second axis, taken to be the length of every row that
    /// the table holds.
    #[verifier::external_body]
    pub(crate) fn Cols(&self) -> (n: usize)
        ensures
            n == grid_cols(*self),
            forall|i: int| 0 <= i < grid_cells(*self).len() ==> (#[trigger] grid_cells(*self)[i]).len() == n,
    {
        self.cells.ncols()
    }

    /// The cell in the row `row` and the column `col`, read with the index
    /// operator of the array for `[row, col]`, which is taken to give the
    /// cell that the table holds there. The operator panics outside the
    /// array, so the place must be inside it.
    #[verifier::external_body]
    pub(crate) fn Cell(&self, row: usize, col: usize) -> (c: TileCode)
        requires
            row < grid_cells(*self).len(),
            col < grid_cols(*self),
        ensures
            c == grid_cells(*self)[row as int][col as int],
    {
        self.cells[[row, col]]
    }

    /// The table with the rows `rows`, which must agree in length.
    pub fn FromRows(rows: &Vec<Vec<TileCode>>) -> (r: Result<Self, MapError>)
        ensures
            r == Err::<Self, MapError>(MapError::RaggedRows) <==> ragged(table_of(rows@)),
            r == Err::<Self, MapError>(MapError::TooLarge) <==> !ragged(table_of(rows@)) && too_large(
                table_of(rows@),
            ),
            r matches Ok(g) ==> grid_cells(g) == table_of(rows@) && grid_cols(g) == width_of(
                table_of(rows@),
            ),
            r is Ok || r == Err::<Self, MapError>(MapError::RaggedRows) || r == Err::<Self, MapError>(
                MapError::TooLarge,
            ),
    {
        let ghost table = table_of(rows@);
        let height: usize = rows.len();
        let width: usize = if height == 0 {
            0
        } else {
            rows[0].len()
        };
        let mut cells: Vec<TileCode> = Vec::new();
        let mut i: usize = 0;
        while i < height
            invariant
                0 <= i <= height == rows@.len(),
                table == table_of(rows@),
                width == width_of(table),
                forall|k: int| 0 <= k < rows@.len() ==> #[trigger] table[k] == rows@[k]@,
                forall|k: int| 0 <= k < i ==> (#[trigger] table[k]).len() == width,
                cells@.len() == i * width,
                forall|k: int, j: int|
                    0 <= k < i && 0 <= j < width ==> cells@[k * width + j] == #[trigger] table[k][j],
            decreases height - i,
        {
            let row: &Vec<TileCode> = &rows[i];
            if row.len() != width {
                assert(table[i as int].len() != width_of(table));
                return Err(MapError::RaggedRows);
            }
            let ghost before = cells@;
            let mut j: usize = 0;
            while j < width
                invariant
                    0 <= j <= width == row@.len(),
                    0 <= i < height,
                    before.len() == i * width,
                    cells@.len() == i * width + j,
                    forall|k: int| 0 <= k < before.len() ==> cells@[k] == before[k],
                    forall|m: int| 0 <= m < j ==> cells@[i * width + m] == row@[m],
                decreases width - j,
            {
                cells.push(row[j]);
                j = j + 1;
            }
            proof {
                assert((i + 1) * width == i * width + width) by (nonlinear_arith);
                assert forall|k: int, m: int| 0 <= k < i + 1 && 0 <= m < width implies cells@[k * width
                    + m] == #[trigger] table[k][m] by {
                    if k < i {
                        assert(k * width + m < i * width) by (nonlinear_arith)
                            requires
                                0 <= k < i,
                                0 <= m < width,
                        ;
                    }
                }
            }
            i = i + 1;
        }
        if height > MAX_MAP_DIM || width > MAX_MAP_DIM {
            return Err(MapError::TooLarge);
        }
        match TileCodeGrid::FromShapeVec(height, width, cells) {
            Some(g) => {
                proof {
                    assert forall|k: int| 0 <= k < height implies grid_cells(g)[k] == table[k] by {
                    }
                }
                Ok(g)
            },
            None => Err(MapError::TooLarge),
        }
    }
}

/// The table whose rows are the contents of `rows`.
pub open spec fn table_of(rows: Seq<Vec<TileCode>>) -> Seq<Seq<TileCode>> {
    Seq::new(rows.len(), |i: int| rows[i]@)
}

/// The length of the first row of a table, or zero if it has no row.
pub open spec fn width_of(table: Seq<Seq<TileCode>>) -> nat {
    if table.len() == 0 {
        0
    } else {
        table[0].len()
    }
}

/// Whether some row of a table differs in length from the first.
pub open spec fn ragged(table: Seq<Seq<TileCode>>) -> bool {
    exists|i: int| 0 <= i < table.len() && (#[trigger] table[i]).len() != width_of(table)
}

/// Whether a table has more rows or longer rows than a map may have.
pub open spec fn too_large(table: Seq<Seq<TileCode>>) -> bool {
    table.len() > MAX_MAP_DIM || width_of(table) > MAX_MAP_DIM
}

/// The records of a map file as sequences: each record a sequence of
/// fields, each field a sequence of bytes.
pub open spec fn records_of(records: Seq<Vec<Vec<u8>>>) -> Seq<Seq<Seq<u8>>> {
    Seq::new(records.len(), |i: int| Seq::new(records[i]@.len(), |j: int| records[i]@[j]@))
}

/// The tile codes of the fields of one record, or the error of the first
/// field that cannot be read.
pub open spec fn row_codes(fields: Seq<Seq<u8>>) -> Result<Seq<TileCode>, MapError>
    decreases fields.len(),
{
    if fields.len() == 0 {
        Ok(Seq::<TileCode>::empty())
    } else {
        match row_codes(fields.drop_last()) {
            Err(e) => Err(e),
            Ok(codes) => match tile_code_of(fields.last()) {
                Err(e) => Err(e),
                Ok(code) => Ok(codes.push(code)),
            },
        }
    }
}

/// The rows of tile codes of the records of a map file, in the order of the
/// file, or the error of the first field that cannot be read. Records
/// without fields are passed over.
pub open spec fn table_codes(records: Seq<Seq<Seq<u8>>>) -> Result<Seq<Seq<TileCode>>, MapError>
    decreases records.len(),
{
    if records.len() == 0 {
        Ok(Seq::<Seq<TileCode>>::empty())
    } else {
        match table_codes(records.drop_last()) {
            Err(e) => Err(e),
            Ok(table) => if records.last().len() == 0 {
                Ok(table)
            } else {
                match row_codes(records.last()) {
                    Err(e) => Err(e),
                    Ok(row) => Ok(table.push(row)),
                }
            },
        }
    }
}

/// What a map file holds, read from its records. The last record of the
/// file becomes the first row of the table, so that rows count upward from
/// the bottom of the file. A field that cannot be read, rows of different
/// lengths and a table that is too large are errors, in this order.
pub open spec fn parsed_table(records: Seq<Seq<Seq<u8>>>) -> Result<Seq<Seq<TileCode>>, MapError> {
    match table_codes(records) {
        Err(e) => Err(e),
        Ok(table) => if ragged(table) {
            Err(MapError::RaggedRows)
        } else if too_large(table) {
            Err(MapError::TooLarge)
        } else {
            Ok(table.reverse())
        },
    }
}

/// Reads the tile codes of one record.
fn ParseRecord(record: &Vec<Vec<u8>>) -> (r: Result<Vec<TileCode>, MapError>)
    ensures
        match row_codes(Seq::new(record@.len(), |j: int| record@[j]@)) {
            Ok(codes) => r matches Ok(row) && row@ == codes,
            Err(e) => r == Err::<Vec<TileCode>, MapError>(e),
        },
{
    let ghost fields = Seq::new(record@.len(), |j: int| record@[j]@);
    let mut row: Vec<TileCode> = Vec::new();
    let mut j: usize = 0;
    while j < record.len()
        invariant
            0 <= j <= record@.len(),
            fields == Seq::new(record@.len(), |j: int| record@[j]@),
            row_codes(fields.take(j as int)) == Ok::<Seq<TileCode>, MapError>(row@),
        decreases record@.len() - j,
    {
        proof {
            assert(fields.take(j + 1).drop_last() =~= fields.take(j as int));
        }
        match ParseTileCode(record[j].as_slice()) {
            Ok(code) => {
                row.push(code);
            },
            Err(e) => {
                proof {
                    lemma_row_error_stays(fields, j + 1);
                }
                return Err(e);
            },
        }
        j = j + 1;
    }
    assert(fields.take(record@.len() as int) =~= fields);
    Ok(row)
}

/// Once a field of a record cannot be read, the record cannot be read: the
/// error of its first `n` fields is the error of the record.
pub proof fn lemma_row_error_stays(fields: Seq<Seq<u8>>, n: int)
    requires
        0 <= n <= fields.len(),
        row_codes(fields.take(n)) is Err,
    ensures
        row_codes(fields) == row_codes(fields.take(n)),
    decreases fields.len() - n,
{
    if n < fields.len() {
        assert(fields.take(n + 1).drop_last() =~= fields.take(n));
        lemma_row_error_stays(fields, n + 1);
    } else {
        assert(fields.take(n) =~= fields);
    }
}

/// Once a record of a file cannot be read, the file cannot be read: the
/// error of its first `n` records is the error of the file.
pub proof fn lemma_table_error_stays(records: Seq<Seq<Seq<u8>>>, n: int)
    requires
        0 <= n <= records.len(),
        table_codes(records.take(n)) is Err,
    ensures
        table_codes(records) == table_codes(records.take(n)),
    decreases records.len() - n,
{
    if n < records.len() {
        assert(records.take(n + 1).drop_last() =~= records.take(n));
        lemma_table_error_stays(records, n + 1);
    } else {
        assert(records.take(n) =~= records);
    }
}

/// A table is ragged exactly if the table of its rows in the opposite
/// order is, and both have rows of the same length if they are not.
pub proof fn lemma_ragged_reverse(table: Seq<Seq<TileCode>>)
    ensures
        ragged(table) == ragged(table.reverse()),
        !ragged(table) ==> width_of(table) == width_of(table.reverse()),
        too_large(table) && !ragged(table) ==> too_large(table.reverse()),
        too_large(table.reverse()) && !ragged(table) ==> too_large(table),
{
    let flipped = table.reverse();
    let n = table.len() as int;
    if ragged(table) {
        let i = choose|i: int| 0 <= i < table.len() && (#[trigger] table[i]).len() != width_of(table);
        if table[n - 1].len() == width_of(table) {
            assert(flipped[n - 1 - i] == table[i]);
        } else {
            assert(flipped[n - 1] == table[0]);
        }
    }
}

/// Reads a map file that was split into records and fields.
pub fn ParseCSV(records: &Vec<Vec<Vec<u8>>>) -> (r: Result<TileCodeGrid, MapError>)
    ensures
        match parsed_table(records_of(records@)) {
            Ok(table) => r matches Ok(g) && grid_cells(g) == table && grid_cols(g) == width_of(table),
            Err(e) => r == Err::<TileCodeGrid, MapError>(e),
        },
{
    let ghost all = records_of(records@);
    let mut rows: Vec<Vec<TileCode>> = Vec::new();
    let mut i: usize = 0;
    assert(table_of(rows@) =~= Seq::<Seq<TileCode>>::empty());
    while i < records.len()
        invariant
            0 <= i <= records@.len(),
            all == records_of(records@),
            table_codes(all.take(i as int)) == Ok::<Seq<Seq<TileCode>>, MapError>(table_of(rows@)),
        decreases records@.len() - i,
    {
        let record: &Vec<Vec<u8>> = &records[i];
        proof {
            assert(all.take(i + 1).drop_last() =~= all.take(i as int));
        }
        // A record without fields is an empty line.
        if record.len() > 0 {
            match ParseRecord(record) {
                Ok(row) => {
                    let ghost before = table_of(rows@);
                    rows.push(row);
                    assert(table_of(rows@) =~= before.push(row@));
                },
                Err(e) => {
                    proof {
                        lemma_table_error_stays(all, i + 1);
                    }
                    return Err(e);
                },
            }
        }
        i = i + 1;
    }
    assert(all.take(records@.len() as int) =~= all);
    let ghost table = table_of(rows@);

    // The file counts rows downward, the map upward.
    let mut flipped: Vec<Vec<TileCode>> = Vec::new();
    while rows.len() > 0
        invariant
            rows@.len() + flipped@.len() == table.len(),
            forall|k: int| 0 <= k < rows@.len() ==> (#[trigger] rows@[k])@ == table[k],
            forall|k: int|
                0 <= k < flipped@.len() ==> (#[trigger] flipped@[k])@ == table[table.len() - 1 - k],
        decreases rows@.len(),
    {
        match rows.pop() {
            Some(row) => {
                flipped.push(row);
            },
            None => {},
        }
    }
    proof {
        assert(table_of(flipped@) =~= table.reverse());
        lemma_ragged_reverse(table);
    }
    TileCodeGrid::FromRows(&flipped)
}

} // verus!
