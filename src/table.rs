//! Bracket tables built from scale rows, and the policies that wrap them.

use crate::decimal::Decimal;
use crate::formula::{parse_formula, Formula, FormulaParseError};
use crate::schema::{Scale, ScaleEntry, TableType};
use vstd::prelude::*;

verus! {

/// A row that does not fit the shape its table type asks for.
#[derive(Clone, Copy, PartialEq, Eq, Structural, Debug)]
pub enum TableShapeError {
    /// The row carries a formula where none belongs.
    NonEmptyFormula { row: usize },
    /// The row carries a base tax where it must be zero.
    NonZeroTaxes { row: usize },
    /// The row carries a percentage where it must be zero.
    NonZeroPercent { row: usize },
    /// The row carries an amount where it must be zero.
    NonZeroAmount { row: usize },
    /// The table has this many rows where it must have exactly one.
    RowCount { rows: usize },
}

/// Why a table could not be built.
#[derive(Clone, Copy, PartialEq, Eq, Structural, Debug)]
pub enum TableError {
    Shape(TableShapeError),
    /// The formula of a row could not be read.
    Formula { row: usize, error: FormulaParseError },
    /// The scale's table type is not one this library evaluates.
    UnsupportedTableType,
}

/// Marginal brackets: from `bracket_start` on, `base_tax` plus
/// `marginal_rate` percent of the income above the start.
#[derive(Clone, Copy, PartialEq, Eq, Structural, Debug)]
pub struct TableBundEntry {
    pub bracket_start: Decimal,
    pub base_tax: Decimal,
    pub marginal_rate: Decimal,
}

/// From `bracket_start` on, the tax is `formula` at the income.
#[derive(Clone, PartialEq, Eq, Debug)]
pub struct TableFormelEntry {
    pub bracket_start: Decimal,
    pub formula: Formula,
}

/// From `bracket_start` on, an average rate interpolated towards the next bracket.
#[derive(Clone, Copy, PartialEq, Eq, Structural, Debug)]
pub struct TableFreiburgEntry {
    pub bracket_start: Decimal,
    pub tax_rate: Decimal,
}

/// A band of width `bracket_len` (`None`: unbounded) taxed at `marginal_rate` percent.
#[derive(Clone, Copy, PartialEq, Eq, Structural, Debug)]
pub struct TableZuerichEntry {
    pub bracket_len: Option<Decimal>,
    pub marginal_rate: Decimal,
}

#[derive(Clone, Debug)]
pub struct TableBund(pub Vec<TableBundEntry>);

#[derive(Clone, Copy, Debug)]
pub struct TableFlattax(pub Decimal);

#[derive(Clone, Debug)]
pub struct TableFormel(pub Vec<TableFormelEntry>);

#[derive(Clone, Debug)]
pub struct TableFreiburg(pub Vec<TableFreiburgEntry>);

#[derive(Clone, Debug)]
pub struct TableZuerich(pub Vec<TableZuerichEntry>);

/// Widths of Zurich-style bands from `10^ZUERICH_OPEN_BAND_DIGITS` on stand
/// for the unbounded top band.
pub const ZUERICH_OPEN_BAND_DIGITS: u32 = 7;

/// Converts the rows one by one: all entries in order, or the error of the
/// first row that does not convert.
pub open spec fn convert_rows<E>(
    rows: Seq<ScaleEntry>,
    f: spec_fn(int, ScaleEntry) -> Result<E, TableError>,
) -> Result<Seq<E>, TableError>
    decreases rows.len(),
{
    if rows.len() == 0 {
        Ok(Seq::empty())
    } else {
        match convert_rows(rows.drop_last(), f) {
            Err(e) => Err(e),
            Ok(es) => match f(rows.len() - 1, rows.last()) {
                Err(e) => Err(e),
                Ok(x) => Ok(es.push(x)),
            },
        }
    }
}

pub proof fn lemma_convert_rows_error<E>(
    rows: Seq<ScaleEntry>,
    f: spec_fn(int, ScaleEntry) -> Result<E, TableError>,
    j: int,
    k: int,
)
    requires
        0 <= j <= k <= rows.len(),
        convert_rows(rows.subrange(0, j), f) is Err,
    ensures
        convert_rows(rows.subrange(0, k), f) == convert_rows(rows.subrange(0, j), f),
    decreases k - j,
{
    if j < k {
        lemma_convert_rows_error(rows, f, j, k - 1);
        assert(rows.subrange(0, k).drop_last() =~= rows.subrange(0, k - 1));
    }
}

pub proof fn lemma_convert_rows_step<E>(
    rows: Seq<ScaleEntry>,
    f: spec_fn(int, ScaleEntry) -> Result<E, TableError>,
    i: int,
)
    requires
        0 <= i < rows.len(),
    ensures
        convert_rows(rows.subrange(0, i + 1), f) == (match convert_rows(rows.subrange(0, i), f) {
            Err(e) => Err(e),
            Ok(es) => match f(i, rows[i]) {
                Err(e) => Err(e),
                Ok(x) => Ok(es.push(x)),
            },
        }),
{
    assert(rows.subrange(0, i + 1).drop_last() =~= rows.subrange(0, i));
}

pub open spec fn bund_row(i: int, r: ScaleEntry) -> Result<TableBundEntry, TableError> {
    if r.formula@.len() != 0 {
        Err(TableError::Shape(TableShapeError::NonEmptyFormula { row: i as usize }))
    } else {
        Ok(TableBundEntry { bracket_start: r.amount, base_tax: r.taxes, marginal_rate: r.percent })
    }
}

pub open spec fn bund_row_fn() -> spec_fn(int, ScaleEntry) -> Result<TableBundEntry, TableError> {
    |i: int, r: ScaleEntry| bund_row(i, r)
}

pub open spec fn bund_rows(rows: Seq<ScaleEntry>) -> Result<Seq<TableBundEntry>, TableError> {
    convert_rows(rows, bund_row_fn())
}

impl TableBund {
    /// Every row must have an empty formula.
    pub fn try_from(rows: &[ScaleEntry]) -> (r: Result<TableBund, TableError>)
        ensures
            match r {
                Ok(t) => bund_rows(rows@) == Ok::<Seq<TableBundEntry>, TableError>(t.0@),
                Err(e) => bund_rows(rows@) == Err::<Seq<TableBundEntry>, TableError>(e),
            },
    {
        let mut entries: Vec<TableBundEntry> = Vec::new();
        let mut i: usize = 0;
        assert(rows@.subrange(0, 0) =~= Seq::<ScaleEntry>::empty());
        while i < rows.len()
            invariant
                i <= rows@.len(),
                bund_rows(rows@.subrange(0, i as int)) == Ok::<
                    Seq<TableBundEntry>,
                    TableError,
                >(entries@),
            decreases rows@.len() - i,
        {
            let row = &rows[i];
            proof {
                lemma_convert_rows_step(rows@, bund_row_fn(), i as int);
            }
            if !row.formula.as_str().is_empty() {
                let e = TableError::Shape(TableShapeError::NonEmptyFormula { row: i });
                proof {
                    lemma_convert_rows_error(rows@, bund_row_fn(), i + 1, rows@.len() as int);
                    assert(rows@.subrange(0, rows@.len() as int) =~= rows@);
                }
                return Err(e);
            }
            entries.push(
                TableBundEntry {
                    bracket_start: row.amount,
                    base_tax: row.taxes,
                    marginal_rate: row.percent,
                },
            );
            i += 1;
        }
        assert(rows@.subrange(0, rows@.len() as int) =~= rows@);
        Ok(TableBund(entries))
    }
}

} // verus!

verus! {

pub open spec fn formel_row(i: int, r: ScaleEntry) -> Result<TableFormelEntry, TableError> {
    if !r.taxes.spec_is_zero() {
        Err(TableError::Shape(TableShapeError::NonZeroTaxes { row: i as usize }))
    } else if !r.percent.spec_is_zero() {
        Err(TableError::Shape(TableShapeError::NonZeroPercent { row: i as usize }))
    } else {
        match parse_formula(r.formula@) {
            Err(error) => Err(TableError::Formula { row: i as usize, error }),
            Ok(formula) => Ok(TableFormelEntry { bracket_start: r.amount, formula }),
        }
    }
}

pub open spec fn formel_row_fn() -> spec_fn(int, ScaleEntry) -> Result<TableFormelEntry, TableError> {
    |i: int, r: ScaleEntry| formel_row(i, r)
}

pub open spec fn formel_rows(rows: Seq<ScaleEntry>) -> Result<Seq<TableFormelEntry>, TableError> {
    convert_rows(rows, formel_row_fn())
}

impl TableFormel {
    /// Every row must have zero taxes and percent; its formula is read.
    pub fn try_from(rows: &[ScaleEntry]) -> (r: Result<TableFormel, TableError>)
        ensures
            match r {
                Ok(t) => formel_rows(rows@) == Ok::<Seq<TableFormelEntry>, TableError>(t.0@),
                Err(e) => formel_rows(rows@) == Err::<Seq<TableFormelEntry>, TableError>(e),
            },
    {
        let mut entries: Vec<TableFormelEntry> = Vec::new();
        let mut i: usize = 0;
        assert(rows@.subrange(0, 0) =~= Seq::<ScaleEntry>::empty());
        while i < rows.len()
            invariant
                i <= rows@.len(),
                formel_rows(rows@.subrange(0, i as int)) == Ok::<
                    Seq<TableFormelEntry>,
                    TableError,
                >(entries@),
            decreases rows@.len() - i,
        {
            let row = &rows[i];
            proof {
                lemma_convert_rows_step(rows@, formel_row_fn(), i as int);
            }
            let checked = if !row.taxes.is_zero() {
                Err(TableError::Shape(TableShapeError::NonZeroTaxes { row: i }))
            } else if !row.percent.is_zero() {
                Err(TableError::Shape(TableShapeError::NonZeroPercent { row: i }))
            } else {
                match Formula::try_from(row.formula.as_str()) {
                    Err(error) => Err(TableError::Formula { row: i, error }),
                    Ok(formula) => Ok(TableFormelEntry { bracket_start: row.amount, formula }),
                }
            };
            match checked {
                Err(e) => {
                    proof {
                        lemma_convert_rows_error(
                            rows@,
                            formel_row_fn(),
                            i + 1,
                            rows@.len() as int,
                        );
                        assert(rows@.subrange(0, rows@.len() as int) =~= rows@);
                    }
                    return Err(e);
                },
                Ok(entry) => {
                    entries.push(entry);
                },
            }
            i += 1;
        }
        assert(rows@.subrange(0, rows@.len() as int) =~= rows@);
        Ok(TableFormel(entries))
    }
}

pub open spec fn freiburg_row(i: int, r: ScaleEntry) -> Result<TableFreiburgEntry, TableError> {
    if r.formula@.len() != 0 {
        Err(TableError::Shape(TableShapeError::NonEmptyFormula { row: i as usize }))
    } else if !r.taxes.spec_is_zero() {
        Err(TableError::Shape(TableShapeError::NonZeroTaxes { row: i as usize }))
    } else {
        Ok(TableFreiburgEntry { bracket_start: r.amount, tax_rate: r.percent })
    }
}

pub open spec fn freiburg_row_fn() -> spec_fn(int, ScaleEntry) -> Result<
    TableFreiburgEntry,
    TableError,
> {
    |i: int, r: ScaleEntry| freiburg_row(i, r)
}

pub open spec fn freiburg_rows(rows: Seq<ScaleEntry>) -> Result<
    Seq<TableFreiburgEntry>,
    TableError,
> {
    convert_rows(rows, freiburg_row_fn())
}

impl TableFreiburg {
    /// Every row must have an empty formula and zero taxes.
    pub fn try_from(rows: &[ScaleEntry]) -> (r: Result<TableFreiburg, TableError>)
        ensures
            match r {
                Ok(t) => freiburg_rows(rows@) == Ok::<Seq<TableFreiburgEntry>, TableError>(t.0@),
                Err(e) => freiburg_rows(rows@) == Err::<Seq<TableFreiburgEntry>, TableError>(e),
            },
    {
        let mut entries: Vec<TableFreiburgEntry> = Vec::new();
        let mut i: usize = 0;
        assert(rows@.subrange(0, 0) =~= Seq::<ScaleEntry>::empty());
        while i < rows.len()
            invariant
                i <= rows@.len(),
                freiburg_rows(rows@.subrange(0, i as int)) == Ok::<
                    Seq<TableFreiburgEntry>,
                    TableError,
                >(entries@),
            decreases rows@.len() - i,
        {
            let row = &rows[i];
            proof {
                lemma_convert_rows_step(rows@, freiburg_row_fn(), i as int);
            }
            let checked = if !row.formula.as_str().is_empty() {
                Err(TableError::Shape(TableShapeError::NonEmptyFormula { row: i }))
            } else if !row.taxes.is_zero() {
                Err(TableError::Shape(TableShapeError::NonZeroTaxes { row: i }))
            } else {
                Ok(TableFreiburgEntry { bracket_start: row.amount, tax_rate: row.percent })
            };
            match checked {
                Err(e) => {
                    proof {
                        lemma_convert_rows_error(
                            rows@,
                            freiburg_row_fn(),
                            i + 1,
                            rows@.len() as int,
                        );
                        assert(rows@.subrange(0, rows@.len() as int) =~= rows@);
                    }
                    return Err(e);
                },
                Ok(entry) => {
                    entries.push(entry);
                },
            }
            i += 1;
        }
        assert(rows@.subrange(0, rows@.len() as int) =~= rows@);
        Ok(TableFreiburg(entries))
    }
}

pub open spec fn zuerich_row(i: int, r: ScaleEntry) -> Result<TableZuerichEntry, TableError> {
    if r.formula@.len() != 0 {
        Err(TableError::Shape(TableShapeError::NonEmptyFormula { row: i as usize }))
    } else if !r.taxes.spec_is_zero() {
        Err(TableError::Shape(TableShapeError::NonZeroTaxes { row: i as usize }))
    } else {
        Ok(
            TableZuerichEntry {
                bracket_len: if r.amount.spec_at_least_pow10(ZUERICH_OPEN_BAND_DIGITS as nat) {
                    None
                } else {
                    Some(r.amount)
                },
                marginal_rate: r.percent,
            },
        )
    }
}

pub open spec fn zuerich_row_fn() -> spec_fn(int, ScaleEntry) -> Result<
    TableZuerichEntry,
    TableError,
> {
    |i: int, r: ScaleEntry| zuerich_row(i, r)
}

pub open spec fn zuerich_rows(rows: Seq<ScaleEntry>) -> Result<Seq<TableZuerichEntry>, TableError> {
    convert_rows(rows, zuerich_row_fn())
}

impl TableZuerich {
    /// Every row must have an empty formula and zero taxes; `amount` is the
    /// band's width, unbounded from ten million on.
    pub fn try_from(rows: &[ScaleEntry]) -> (r: Result<TableZuerich, TableError>)
        ensures
            match r {
                Ok(t) => zuerich_rows(rows@) == Ok::<Seq<TableZuerichEntry>, TableError>(t.0@),
                Err(e) => zuerich_rows(rows@) == Err::<Seq<TableZuerichEntry>, TableError>(e),
            },
    {
        let mut entries: Vec<TableZuerichEntry> = Vec::new();
        let mut i: usize = 0;
        assert(rows@.subrange(0, 0) =~= Seq::<ScaleEntry>::empty());
        while i < rows.len()
            invariant
                i <= rows@.len(),
                zuerich_rows(rows@.subrange(0, i as int)) == Ok::<
                    Seq<TableZuerichEntry>,
                    TableError,
                >(entries@),
            decreases rows@.len() - i,
        {
            let row = &rows[i];
            proof {
                lemma_convert_rows_step(rows@, zuerich_row_fn(), i as int);
            }
            let checked = if !row.formula.as_str().is_empty() {
                Err(TableError::Shape(TableShapeError::NonEmptyFormula { row: i }))
            } else if !row.taxes.is_zero() {
                Err(TableError::Shape(TableShapeError::NonZeroTaxes { row: i }))
            } else {
                let bracket_len = if row.amount.at_least_pow10(ZUERICH_OPEN_BAND_DIGITS) {
                    None
                } else {
                    Some(row.amount)
                };
                Ok(TableZuerichEntry { bracket_len, marginal_rate: row.percent })
            };
            match checked {
                Err(e) => {
                    proof {
                        lemma_convert_rows_error(
                            rows@,
                            zuerich_row_fn(),
                            i + 1,
                            rows@.len() as int,
                        );
                        assert(rows@.subrange(0, rows@.len() as int) =~= rows@);
                    }
                    return Err(e);
                },
                Ok(entry) => {
                    entries.push(entry);
                },
            }
            i += 1;
        }
        assert(rows@.subrange(0, rows@.len() as int) =~= rows@);
        Ok(TableZuerich(entries))
    }
}

pub open spec fn flattax_rows(rows: Seq<ScaleEntry>) -> Result<Decimal, TableError> {
    if rows.len() != 1 {
        Err(TableError::Shape(TableShapeError::RowCount { rows: rows.len() as usize }))
    } else if rows[0].formula@.len() != 0 {
        Err(TableError::Shape(TableShapeError::NonEmptyFormula { row: 0 }))
    } else if !rows[0].amount.spec_is_zero() {
        Err(TableError::Shape(TableShapeError::NonZeroAmount { row: 0 }))
    } else {
        Ok(rows[0].percent)
    }
}

impl TableFlattax {
    /// Exactly one row, with an empty formula and a zero amount; its
    /// percentage is the rate.
    pub fn try_from(rows: &[ScaleEntry]) -> (r: Result<TableFlattax, TableError>)
        ensures
            match r {
                Ok(t) => flattax_rows(rows@) == Ok::<Decimal, TableError>(t.0),
                Err(e) => flattax_rows(rows@) == Err::<Decimal, TableError>(e),
            },
    {
        if rows.len() != 1 {
            Err(TableError::Shape(TableShapeError::RowCount { rows: rows.len() }))
        } else if !rows[0].formula.as_str().is_empty() {
            Err(TableError::Shape(TableShapeError::NonEmptyFormula { row: 0 }))
        } else if !rows[0].amount.is_zero() {
            Err(TableError::Shape(TableShapeError::NonZeroAmount { row: 0 }))
        } else {
            Ok(TableFlattax(rows[0].percent))
        }
    }
}

} // verus!

verus! {

/// A bracket table of one of the five shapes.
#[derive(Clone, Debug)]
pub enum RawTable {
    Bund(TableBund),
    Flattax(TableFlattax),
    Formel(TableFormel),
    Freiburg(TableFreiburg),
    Zuerich(TableZuerich),
}

/// What a `RawTable` holds: its shape and its entries.
pub ghost enum RawTableModel {
    Bund(Seq<TableBundEntry>),
    Flattax(Decimal),
    Formel(Seq<TableFormelEntry>),
    Freiburg(Seq<TableFreiburgEntry>),
    Zuerich(Seq<TableZuerichEntry>),
}

impl View for RawTable {
    type V = RawTableModel;

    open spec fn view(&self) -> RawTableModel {
        match self {
            RawTable::Bund(t) => RawTableModel::Bund(t.0@),
            RawTable::Flattax(t) => RawTableModel::Flattax(t.0),
            RawTable::Formel(t) => RawTableModel::Formel(t.0@),
            RawTable::Freiburg(t) => RawTableModel::Freiburg(t.0@),
            RawTable::Zuerich(t) => RawTableModel::Zuerich(t.0@),
        }
    }
}

/// The table that rows of the given type make, or why they make none.
pub open spec fn raw_table(table_type: TableType, rows: Seq<ScaleEntry>) -> Result<
    RawTableModel,
    TableError,
> {
    match table_type {
        TableType::Bund => match bund_rows(rows) {
            Ok(es) => Ok(RawTableModel::Bund(es)),
            Err(e) => Err(e),
        },
        TableType::Flattax => match flattax_rows(rows) {
            Ok(rate) => Ok(RawTableModel::Flattax(rate)),
            Err(e) => Err(e),
        },
        TableType::Formel => match formel_rows(rows) {
            Ok(es) => Ok(RawTableModel::Formel(es)),
            Err(e) => Err(e),
        },
        TableType::Freiburg => match freiburg_rows(rows) {
            Ok(es) => Ok(RawTableModel::Freiburg(es)),
            Err(e) => Err(e),
        },
        TableType::Zuerich => match zuerich_rows(rows) {
            Ok(es) => Ok(RawTableModel::Zuerich(es)),
            Err(e) => Err(e),
        },
        TableType::Unknown => Err(TableError::UnsupportedTableType),
    }
}

impl RawTable {
    /// Builds the table that the scale's type names from the scale's rows.
    pub fn try_from(scale: &Scale) -> (r: Result<RawTable, TableError>)
        ensures
            match r {
                Ok(t) => raw_table(scale.table_type, scale.table@) == Ok::<
                    RawTableModel,
                    TableError,
                >(t@),
                Err(e) => raw_table(scale.table_type, scale.table@) == Err::<
                    RawTableModel,
                    TableError,
                >(e),
            },
    {
        let rows = scale.table.as_slice();
        match scale.table_type {
            TableType::Bund => match TableBund::try_from(rows) {
                Ok(t) => Ok(RawTable::Bund(t)),
                Err(e) => Err(e),
            },
            TableType::Flattax => match TableFlattax::try_from(rows) {
                Ok(t) => Ok(RawTable::Flattax(t)),
                Err(e) => Err(e),
            },
            TableType::Formel => match TableFormel::try_from(rows) {
                Ok(t) => Ok(RawTable::Formel(t)),
                Err(e) => Err(e),
            },
            TableType::Freiburg => match TableFreiburg::try_from(rows) {
                Ok(t) => Ok(RawTable::Freiburg(t)),
                Err(e) => Err(e),
            },
            TableType::Zuerich => match TableZuerich::try_from(rows) {
                Ok(t) => Ok(RawTable::Zuerich(t)),
                Err(e) => Err(e),
            },
            TableType::Unknown => Err(TableError::UnsupportedTableType),
        }
    }
}

/// How income is rounded and split before a table is consulted.
#[derive(Clone, Copy, PartialEq, Eq, Structural, Debug)]
pub enum EvalPolicy {
    /// The table at the income itself; split incomes divided exactly.
    Raw,
    /// The income rounded down to a multiple of 100; split incomes go by the
    /// average rate at the rounded income divided by the split.
    Round100,
    /// As `Round100`, with the divided income rounded down to 100 again.
    DoubleRound100,
    /// As `Raw`; only ever used without splitting.
    NoSplitRaw,
    /// As `Round100`; only ever used without splitting.
    NoSplitRound100,
    /// As `Raw`, kept apart for the canton of Valais.
    Valais,
}

impl EvalPolicy {
    /// The policy accepts a splitting ratio other than zero.
    pub open spec fn spec_allows_split(self) -> bool {
        !(self is NoSplitRaw || self is NoSplitRound100)
    }

    /// The policy rounds the income down to a multiple of 100 before the table is consulted.
    pub open spec fn spec_rounds(self) -> bool {
        self is Round100 || self is DoubleRound100 || self is NoSplitRound100
    }

    pub fn allows_split(&self) -> (r: bool)
        ensures
            r == self.spec_allows_split(),
    {
        !matches!(self, EvalPolicy::NoSplitRaw | EvalPolicy::NoSplitRound100)
    }

    pub fn rounds(&self) -> (r: bool)
        ensures
            r == self.spec_rounds(),
    {
        matches!(self, EvalPolicy::Round100 | EvalPolicy::DoubleRound100 | EvalPolicy::NoSplitRound100)
    }
}

/// A bracket table together with the policy it is evaluated under.
#[derive(Clone, Debug)]
pub struct Table {
    table: RawTable,
    policy: EvalPolicy,
}

impl Table {
    pub closed spec fn spec_raw(self) -> RawTable {
        self.table
    }

    pub closed spec fn spec_policy(self) -> EvalPolicy {
        self.policy
    }

    /// Builds the scale's table, to be evaluated under `policy`.
    pub fn try_from(scale: &Scale, policy: EvalPolicy) -> (r: Result<Table, TableError>)
        ensures
            match r {
                Ok(t) => raw_table(scale.table_type, scale.table@) == Ok::<
                    RawTableModel,
                    TableError,
                >(t.spec_raw()@) && t.spec_policy() == policy,
                Err(e) => raw_table(scale.table_type, scale.table@) == Err::<
                    RawTableModel,
                    TableError,
                >(e),
            },
    {
        match RawTable::try_from(scale) {
            Ok(table) => Ok(Table { table, policy }),
            Err(e) => Err(e),
        }
    }

    pub fn raw(&self) -> (r: &RawTable)
        ensures
            *r == self.spec_raw(),
    {
        &self.table
    }

    pub fn policy(&self) -> (r: EvalPolicy)
        ensures
            r == self.spec_policy(),
    {
        self.policy
    }
}

} // verus!

verus! {

/// How a table is consulted for an income `x`; `raw` is the table itself,
/// `floor100(v)` is `v` rounded down to a multiple of 100.
#[derive(Clone, Copy, PartialEq, Eq, Structural, Debug)]
pub enum EvalMethod {
    /// `raw(x)`.
    AtIncome,
    /// `raw(floor100(x))`.
    AtFlooredIncome,
    /// `raw(x / split) * split`.
    SplitIncome,
    /// With `xx = floor100(x)` and `yy = xx / split`: `xx` times the average
    /// rate `raw(yy) / yy`, which is 0 where `yy` is 0.
    SplitAverageRate,
    /// As `SplitAverageRate`, with `yy = floor100(xx / split)`.
    SplitFlooredAverageRate,
}

/// The method for a single income.
pub open spec fn method_of(policy: EvalPolicy) -> EvalMethod {
    if policy.spec_rounds() {
        EvalMethod::AtFlooredIncome
    } else {
        EvalMethod::AtIncome
    }
}

/// The method for an income split by a ratio, which is zero or not.
pub open spec fn split_method_of(policy: EvalPolicy, split_is_zero: bool) -> EvalMethod {
    if split_is_zero {
        method_of(policy)
    } else {
        match policy {
            EvalPolicy::Round100 => EvalMethod::SplitAverageRate,
            EvalPolicy::DoubleRound100 => EvalMethod::SplitFlooredAverageRate,
            _ => EvalMethod::SplitIncome,
        }
    }
}

impl EvalPolicy {
    /// How `eval(x)` consults a table under this policy.
    pub fn eval_method(&self) -> (r: EvalMethod)
        ensures
            r == method_of(*self),
    {
        match self {
            EvalPolicy::Raw | EvalPolicy::NoSplitRaw | EvalPolicy::Valais => EvalMethod::AtIncome,
            EvalPolicy::Round100
            | EvalPolicy::DoubleRound100
            | EvalPolicy::NoSplitRound100 => EvalMethod::AtFlooredIncome,
        }
    }

    /// How `eval_split(x, split)` consults a table under this policy. A
    /// policy that does not split is only ever given a zero ratio.
    pub fn eval_split_method(&self, split_is_zero: bool) -> (r: EvalMethod)
        requires
            split_is_zero || self.spec_allows_split(),
        ensures
            r == split_method_of(*self, split_is_zero),
    {
        match self {
            EvalPolicy::Raw | EvalPolicy::Valais | EvalPolicy::NoSplitRaw => if split_is_zero {
                EvalMethod::AtIncome
            } else {
                EvalMethod::SplitIncome
            },
            EvalPolicy::Round100 => if split_is_zero {
                EvalMethod::AtFlooredIncome
            } else {
                EvalMethod::SplitAverageRate
            },
            EvalPolicy::DoubleRound100 => if split_is_zero {
                EvalMethod::AtFlooredIncome
            } else {
                EvalMethod::SplitFlooredAverageRate
            },
            EvalPolicy::NoSplitRound100 => EvalMethod::AtFlooredIncome,
        }
    }
}

/// Splitting by a zero ratio consults every table as a single income does:
/// `eval_split(x, 0)` and `eval(x)` agree under every policy.
pub proof fn lemma_zero_split_is_single(policy: EvalPolicy)
    ensures
        split_method_of(policy, true) == method_of(policy),
{
}

} // verus!

verus! {

impl RawTable {
    /// The first bracket starts at zero, as a schedule by boundaries should;
    /// tables by width, a flat rate and empty tables have nothing to check.
    pub open spec fn spec_starts_at_zero(self) -> bool {
        match self {
            RawTable::Bund(t) => t.0@.len() > 0 ==> t.0@[0].bracket_start.spec_is_zero(),
            RawTable::Formel(t) => t.0@.len() > 0 ==> t.0@[0].bracket_start.spec_is_zero(),
            RawTable::Freiburg(t) => t.0@.len() > 0 ==> t.0@[0].bracket_start.spec_is_zero(),
            RawTable::Flattax(_) | RawTable::Zuerich(_) => true,
        }
    }

    pub fn starts_at_zero(&self) -> (r: bool)
        ensures
            r == self.spec_starts_at_zero(),
    {
        match self {
            RawTable::Bund(t) => t.0.len() == 0 || t.0[0].bracket_start.is_zero(),
            RawTable::Formel(t) => t.0.len() == 0 || t.0[0].bracket_start.is_zero(),
            RawTable::Freiburg(t) => t.0.len() == 0 || t.0[0].bracket_start.is_zero(),
            RawTable::Flattax(_) | RawTable::Zuerich(_) => true,
        }
    }
}

} // verus!
