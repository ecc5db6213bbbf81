//! The result-set cursor: the outcome of a query kept with at most one row
//! block at a time and with the column metadata in both layouts.

use vstd::prelude::*;
use crate::block::{cell_fits, null_value, Block, BlockView, CellView, RawValue};
use crate::error::{is_c_string, WsError, WsErrorView};
use crate::field::{Field, FieldView, WS_FIELD, WS_FIELD_V2, WS_FIELD_V2_VIEW, WS_FIELD_VIEW};
use crate::timestamp::Precision;

verus! {

/// What a transport reports of an executed statement. It does not change
/// while the result set lives.
#[derive(Debug, Clone, PartialEq, Eq)]
pub struct ResultSet {
    pub precision: Precision,
    pub affected_rows: usize,
    /// The schema: one entry for each column, in order.
    pub fields: Vec<Field>,
}

/// A transport's report of a statement, as a value.
pub struct ResultSetView {
    pub precision: Precision,
    pub affected_rows: usize,
    pub fields: Seq<FieldView>,
}

impl View for ResultSet {
    type V = ResultSetView;

    open spec fn view(&self) -> ResultSetView {
        ResultSetView {
            precision: self.precision,
            affected_rows: self.affected_rows,
            fields: self.fields@.map_values(|f: Field| f@),
        }
    }
}

/// A query's outcome as a value.
pub open spec fn outcome_view(rs: Result<ResultSet, WsError>) -> Result<
    ResultSetView,
    WsErrorView,
> {
    match rs {
        Ok(rs) => Ok(rs@),
        Err(e) => Err(e@),
    }
}

/// A block that may be absent, as a value.
pub open spec fn block_view(block: Option<Block>) -> Option<BlockView> {
    match block {
        Some(b) => Some(b@),
        None => None,
    }
}

/// The metadata array of a schema in the current layout.
pub open spec fn entries(fields: Seq<FieldView>) -> Seq<WS_FIELD_VIEW> {
    fields.map_values(|f: FieldView| WS_FIELD::of(f))
}

/// The metadata array of a schema in the legacy layout.
pub open spec fn entries_v2(fields: Seq<FieldView>) -> Seq<WS_FIELD_V2_VIEW> {
    fields.map_values(|f: FieldView| WS_FIELD_V2::of(f))
}

/// A metadata array of the current layout as values.
pub open spec fn entry_views(array: Seq<WS_FIELD>) -> Seq<WS_FIELD_VIEW> {
    array.map_values(|e: WS_FIELD| e@)
}

/// A metadata array of the legacy layout as values.
pub open spec fn entry_views_v2(array: Seq<WS_FIELD_V2>) -> Seq<WS_FIELD_V2_VIEW> {
    array.map_values(|e: WS_FIELD_V2| e@)
}

/// The number of rows that a fetch reports: those of the block, as the
/// foreign integer holds them, and zero where there is no block.
pub open spec fn rows_of(block: Option<BlockView>) -> i32 {
    match block {
        Some(b) => b.nrows as i32,
        None => 0,
    }
}

/// The cursor of one query: its outcome, the block it holds and whether the
/// end of the data was reported.
pub struct WsResultSetView {
    pub outcome: Result<ResultSetView, WsErrorView>,
    pub block: Option<BlockView>,
    pub drained: bool,
}

impl WsResultSetView {
    /// The code that the result set reports: zero on success.
    pub open spec fn errno(self) -> i32 {
        match self.outcome {
            Ok(_) => 0,
            Err(e) => e.code,
        }
    }

    /// What a fetch does where the transport hands `next`: the code and the
    /// row count it returns, and the cursor after it.
    pub open spec fn fetched(self, next: Option<BlockView>) -> (i32, i32, WsResultSetView) {
        match self.outcome {
            Err(e) => (e.code, 0, self),
            Ok(_) => if self.drained {
                (0, 0, WsResultSetView { block: None, ..self })
            } else {
                (0, rows_of(next), WsResultSetView { block: next, drained: rows_of(next) == 0, ..self })
            },
        }
    }

    /// What reading a position yields: the held block's value there, the
    /// absent value where no block is held or the block does not hold it.
    pub open spec fn value(self, row: int, col: int) -> CellView {
        match self.block {
            Some(b) => b.value(row, col),
            None => null_value(),
        }
    }
}

/// What stands behind a result-set handle: the outcome of the query, the
/// block that is held, and the metadata arrays once they were asked for.
#[derive(Debug)]
pub struct WsResultSet {
    rs: Result<ResultSet, WsError>,
    block: Option<Block>,
    fields: Vec<WS_FIELD>,
    fields_v2: Vec<WS_FIELD_V2>,
    drained: bool,
}

impl View for WsResultSet {
    type V = WsResultSetView;

    closed spec fn view(&self) -> WsResultSetView {
        WsResultSetView {
            outcome: outcome_view(self.rs),
            block: block_view(self.block),
            drained: self.drained,
        }
    }
}

fn build_entries(fields: &Vec<Field>) -> (array: Vec<WS_FIELD>)
    ensures
        array@.len() == fields@.len(),
        entry_views(array@) == entries(fields@.map_values(|f: Field| f@)),
{
    let mut array: Vec<WS_FIELD> = Vec::new();
    let mut i: usize = 0;
    while i < fields.len()
        invariant
            i <= fields.len(),
            array@.len() == i,
            forall|k: int| 0 <= k < i ==> (#[trigger] array@[k])@ == WS_FIELD::of(fields@[k]@),
        decreases fields.len() - i,
    {
        array.push(WS_FIELD::from(&fields[i]));
        i += 1;
    }
    assert(entry_views(array@) =~= entries(fields@.map_values(|f: Field| f@)));
    array
}

fn build_entries_v2(fields: &Vec<Field>) -> (array: Vec<WS_FIELD_V2>)
    ensures
        array@.len() == fields@.len(),
        entry_views_v2(array@) == entries_v2(fields@.map_values(|f: Field| f@)),
{
    let mut array: Vec<WS_FIELD_V2> = Vec::new();
    let mut i: usize = 0;
    while i < fields.len()
        invariant
            i <= fields.len(),
            array@.len() == i,
            forall|k: int| 0 <= k < i ==> (#[trigger] array@[k])@ == WS_FIELD_V2::of(fields@[k]@),
        decreases fields.len() - i,
    {
        array.push(WS_FIELD_V2::from(&fields[i]));
        i += 1;
    }
    assert(entry_views_v2(array@) =~= entries_v2(fields@.map_values(|f: Field| f@)));
    array
}

impl WsResultSet {
    #[verifier::type_invariant]
    spec fn well_formed(self) -> bool {
        &&& self.rs is Err ==> self.block is None && !self.drained
        &&& self.fields@.len() > 0 ==> self.rs is Ok && entry_views(self.fields@) == entries(
            self.rs->Ok_0@.fields,
        )
        &&& self.fields_v2@.len() > 0 ==> self.rs is Ok && entry_views_v2(self.fields_v2@)
            == entries_v2(self.rs->Ok_0@.fields)
    }

    /// The metadata array of the current layout as it is kept: empty until
    /// it is first asked for.
    pub closed spec fn cached(&self) -> Seq<WS_FIELD> {
        self.fields@
    }

    /// The metadata array of the legacy layout as it is kept.
    pub closed spec fn cached_v2(&self) -> Seq<WS_FIELD_V2> {
        self.fields_v2@
    }

    /// The cursor of a query's outcome: no block is held yet.
    pub fn new(rs: Result<ResultSet, WsError>) -> (set: WsResultSet)
        ensures
            set@ == (WsResultSetView { outcome: outcome_view(rs), block: None, drained: false }),
            set.cached().len() == 0,
            set.cached_v2().len() == 0,
    {
        WsResultSet { rs, block: None, fields: Vec::new(), fields_v2: Vec::new(), drained: false }
    }

    /// The code of the result: zero on success.
    pub fn errno(&self) -> (code: i32)
        ensures
            code == self@.errno(),
    {
        match &self.rs {
            Ok(_) => 0,
            Err(err) => err.code(),
        }
    }

    /// The message as a C string: empty on success.
    pub fn errstr(&self) -> (message: &[u8])
        ensures
            is_c_string(message@),
            message@ == match self@.outcome {
                Ok(_) => seq![0u8],
                Err(e) => e.message.push(0u8),
            },
    {
        match &self.rs {
            Ok(_) => {
                let empty: &'static [u8; 1] = &[0u8];
                assert(seq![0u8].drop_last() =~= Seq::<u8>::empty());
                empty.as_slice()
            },
            Err(err) => err.errstr(),
        }
    }

    /// The time precision of the result: millisecond in the error state.
    pub fn precision(&self) -> (p: Precision)
        ensures
            p == match self@.outcome {
                Ok(rs) => rs.precision,
                Err(_) => Precision::Millisecond,
            },
    {
        match &self.rs {
            Ok(rs) => rs.precision,
            Err(_) => Precision::Millisecond,
        }
    }

    /// The number of rows that the statement affected, as the foreign integer
    /// holds it: zero in the error state.
    pub fn affected_rows(&self) -> (n: i32)
        ensures
            n == match self@.outcome {
                Ok(rs) => rs.affected_rows as i32,
                Err(_) => 0,
            },
    {
        match &self.rs {
            Ok(rs) => #[verifier::truncate]
            (rs.affected_rows as i32),
            Err(_) => 0,
        }
    }

    /// The number of columns, as the foreign integer holds it: zero in the
    /// error state.
    pub fn num_of_fields(&self) -> (n: i32)
        ensures
            n == match self@.outcome {
                Ok(rs) => rs.fields.len() as i32,
                Err(_) => 0,
            },
    {
        match &self.rs {
            Ok(rs) => #[verifier::truncate]
            (rs.fields.len() as i32),
            Err(_) => 0,
        }
    }

    /// The metadata array in the current layout, absent in the error state.
    /// The array is built when the kept one has not the schema's length, and
    /// only then.
    pub fn get_fields(&mut self) -> (array: Option<&[WS_FIELD]>)
        ensures
            final(self)@ == old(self)@,
            final(self).cached_v2() == old(self).cached_v2(),
            match old(self)@.outcome {
                Ok(rs) => array is Some && array->0@ == final(self).cached() && array->0@.len()
                    == rs.fields.len() && entry_views(array->0@) == entries(rs.fields) && (old(
                    self,
                ).cached().len() == rs.fields.len() ==> final(self).cached() == old(
                    self,
                ).cached()),
                Err(_) => array is None && final(self).cached() == old(self).cached(),
            },
    {
        proof {
            use_type_invariant(&*self);
        }
        match &self.rs {
            Ok(rs) => {
                if self.fields.len() != rs.fields.len() {
                    self.fields = build_entries(&rs.fields);
                } else {
                    assert(entry_views(self.fields@) =~= entries(rs@.fields));
                }
                assert(rs@.fields.len() == rs.fields@.len());
                Some(self.fields.as_slice())
            },
            Err(_) => None,
        }
    }

    /// The metadata array in the legacy layout, absent in the error state.
    /// The array is built when the kept one has not the schema's length, and
    /// only then.
    pub fn get_fields_v2(&mut self) -> (array: Option<&[WS_FIELD_V2]>)
        ensures
            final(self)@ == old(self)@,
            final(self).cached() == old(self).cached(),
            match old(self)@.outcome {
                Ok(rs) => array is Some && array->0@ == final(self).cached_v2() && array->0@.len()
                    == rs.fields.len() && entry_views_v2(array->0@) == entries_v2(rs.fields) && (
                old(self).cached_v2().len() == rs.fields.len() ==> final(self).cached_v2() == old(
                    self,
                ).cached_v2()),
                Err(_) => array is None && final(self).cached_v2() == old(self).cached_v2(),
            },
    {
        proof {
            use_type_invariant(&*self);
        }
        match &self.rs {
            Ok(rs) => {
                if self.fields_v2.len() != rs.fields.len() {
                    self.fields_v2 = build_entries_v2(&rs.fields);
                } else {
                    assert(entry_views_v2(self.fields_v2@) =~= entries_v2(rs@.fields));
                }
                assert(rs@.fields.len() == rs.fields@.len());
                Some(self.fields_v2.as_slice())
            },
            Err(_) => None,
        }
    }

    /// Whether a fetch would take a block from the transport: the result is
    /// no error and the end of its data was not reported.
    pub fn wants_block(&self) -> (wanted: bool)
        ensures
            wanted == (self@.outcome is Ok && !self@.drained),
    {
        match &self.rs {
            Ok(_) => !self.drained,
            Err(_) => false,
        }
    }

    /// Advances to the block that the transport handed, if any, and returns
    /// the code and the number of rows now held. In the error state nothing
    /// changes and the code is the stored one. Zero rows with code zero
    /// report the end of the data; from then on no block is taken.
    pub fn fetch_block(&mut self, next: Option<Block>) -> (r: (i32, i32))
        ensures
            (r.0, r.1, final(self)@) == old(self)@.fetched(block_view(next)),
            final(self).cached() == old(self).cached(),
            final(self).cached_v2() == old(self).cached_v2(),
    {
        proof {
            use_type_invariant(&*self);
        }
        match &self.rs {
            Ok(_) => {
                if self.drained {
                    self.block = None;
                    (0, 0)
                } else {
                    let rows: i32 = match &next {
                        Some(block) => #[verifier::truncate]
                        (block.nrows() as i32),
                        None => 0,
                    };
                    self.block = next;
                    self.drained = rows == 0;
                    (0, rows)
                }
            },
            Err(err) => (err.code(), 0),
        }
    }

    /// The raw buffer of the held block.
    pub fn block_bytes(&self) -> (raw: Option<&[u8]>)
        ensures
            match self@.block {
                Some(b) => raw is Some && raw->0@ == b.raw,
                None => raw is None,
            },
    {
        match &self.block {
            Some(block) => Some(block.as_bytes()),
            None => None,
        }
    }

    /// Reads the value at a position of the held block. A position that the
    /// block does not hold, or any position where no block is held, reads as
    /// the absent value.
    pub fn get_raw_value(&self, row: usize, col: usize) -> (value: RawValue<'_>)
        ensures
            value@ == self@.value(row as int, col as int),
            cell_fits(value@),
    {
        match &self.block {
            Some(block) => {
                if row < block.nrows() && col < block.ncols() {
                    block.get_raw_value(row, col)
                } else {
                    RawValue::null()
                }
            },
            None => RawValue::null(),
        }
    }
}


/// The two metadata arrays of a schema have one entry for each column, in
/// the order of the columns. The two entries of a column agree in name and
/// type tag; the current one has the column's width, the legacy one its low
/// sixteen bits.
pub proof fn lemma_metadata_arrays_agree(fields: Seq<FieldView>)
    ensures
        entries(fields).len() == fields.len(),
        entries_v2(fields).len() == fields.len(),
        forall|i: int|
            #![trigger entries(fields)[i]]
            #![trigger entries_v2(fields)[i]]
            0 <= i < fields.len() ==> {
                &&& entries(fields)[i].name == entries_v2(fields)[i].name
                &&& entries(fields)[i].ty == fields[i].ty
                &&& entries_v2(fields)[i].ty == fields[i].ty
                &&& entries(fields)[i].bytes == fields[i].bytes
                &&& entries_v2(fields)[i].bytes == fields[i].bytes % 0x1_0000
            },
{
}

/// The end of the data is final: once a fetch has returned no rows with code
/// zero, every later fetch returns no rows with code zero and leaves no block
/// held, whatever the transport hands.
pub proof fn lemma_end_of_data_is_final(
    set: WsResultSetView,
    first: Option<BlockView>,
    later: Option<BlockView>,
)
    requires
        set.outcome is Err ==> set.block is None,
        set.fetched(first).0 == 0,
        set.fetched(first).1 == 0,
    ensures
        set.fetched(first).2.fetched(later).0 == 0,
        set.fetched(first).2.fetched(later).1 == 0,
        set.fetched(first).2.fetched(later).2.block is None,
{
}

/// Until the end of the data was reported, a successful result set takes the
/// block that the transport hands: it holds that block and returns its rows.
pub proof fn lemma_fetch_takes_the_block(set: WsResultSetView, next: Option<BlockView>)
    requires
        set.outcome is Ok,
        !set.drained,
    ensures
        set.fetched(next).0 == 0,
        set.fetched(next).1 == rows_of(next),
        set.fetched(next).2.block == next,
        set.fetched(next).2.outcome == set.outcome,
        set.fetched(next).2.drained <==> rows_of(next) == 0,
{
}

/// Reading outside the held block reads the absent value: any position
/// where no block is held, and a position whose row or column the block has
/// not.
pub proof fn lemma_outside_reads_null(set: WsResultSetView, row: int, col: int)
    requires
        set.block matches Some(b) ==> row < 0 || col < 0 || row >= b.nrows || col >= b.ncols(),
    ensures
        set.value(row, col) == null_value(),
{
}

} // verus!
