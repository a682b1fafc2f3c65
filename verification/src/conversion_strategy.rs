//! The conversion plan of a result set: one strategy a column, the schema of
//! the columnar file, the cost of a row, and the transcoding of a batch.

use vstd::prelude::*;
use parquet::basic::Encoding;
use crate::column_strategy::{
    select, spec_select, ColumnDescriptor, ColumnStrategy, ColumnarType, MappingOptions,
};
use crate::error::ExportError;
use crate::fetch_batch::{BoundColumn, RowBatch};
use crate::transcode::{spec_decode, spec_definition_levels, ColumnChunk, ValuesModel};

verus! {

/// One column of the columnar schema.
#[derive(Debug)]
pub struct SchemaColumn {
    /// Name of the column, as the result set has it.
    pub name: String,
    /// Whether the column may hold NULL.
    pub nullable: bool,
    /// Storage type and meaning of the values.
    pub columnar_type: ColumnarType,
    /// Position, among the encodings chosen by hand, of the one that
    /// applies to this column; `None` where the encoder chooses.
    pub encoding: Option<usize>,
}

/// The position of the last of the first `k` encodings chosen by hand that
/// names the column `name`.
pub open spec fn override_among(
    overrides: Seq<(String, Encoding)>,
    name: Seq<char>,
    k: int,
) -> Option<usize>
    decreases k,
{
    if k <= 0 {
        None
    } else if overrides[k - 1].0@ == name {
        Some((k - 1) as usize)
    } else {
        override_among(overrides, name, k - 1)
    }
}

/// The position of the encoding that applies to the column `name`: the last
/// one chosen for that name, as a later choice replaces an earlier one.
pub open spec fn encoding_override(overrides: Seq<(String, Encoding)>, name: Seq<char>) -> Option<
    usize,
> {
    override_among(overrides, name, overrides.len() as int)
}

/// Finds the encoding chosen by hand for the column `name`.
pub fn find_encoding_override(overrides: &Vec<(String, Encoding)>, name: &String) -> (found:
    Option<usize>)
    ensures
        found == encoding_override(overrides@, name@),
        found matches Some(i) ==> i < overrides.len() && overrides@[i as int].0@ == name@,
        found matches Some(i) ==> forall|j: int|
            i < j < overrides.len() ==> (#[trigger] overrides@[j]).0@ != name@,
        found is None ==> forall|j: int|
            0 <= j < overrides.len() ==> (#[trigger] overrides@[j]).0@ != name@,
{
    let mut k: usize = overrides.len();
    while k > 0
        invariant
            k <= overrides.len(),
            encoding_override(overrides@, name@) == override_among(overrides@, name@, k as int),
            forall|j: int| k <= j < overrides.len() ==> (#[trigger] overrides@[j]).0@ != name@,
        decreases k,
    {
        if overrides[k - 1].0 == *name {
            return Some(k - 1);
        }
        k -= 1;
    }
    None
}

/// The strategies of the first `k` columns, in order, or the error of the
/// first column that has none.
pub open spec fn selected(
    descriptors: Seq<ColumnDescriptor>,
    options: &MappingOptions,
    k: int,
) -> Result<Seq<ColumnStrategy>, ExportError>
    decreases k,
{
    if k <= 0 {
        Ok(Seq::empty())
    } else {
        match selected(descriptors, options, k - 1) {
            Err(e) => Err(e),
            Ok(strategies) => match spec_select(&descriptors[k - 1], options) {
                Ok(strategy) => Ok(strategies.push(strategy)),
                Err(e) => Err(e),
            },
        }
    }
}

/// Bytes of bound buffer that one row takes under `strategies`.
pub open spec fn footprint_sum(strategies: Seq<ColumnStrategy>) -> int
    decreases strategies.len(),
{
    if strategies.len() == 0 {
        0
    } else {
        footprint_sum(strategies.drop_last()) + strategies.last().spec_footprint()
    }
}

/// The strategies of a result set, or why it has no plan: the error of the
/// first column without a strategy, or `InvalidConfiguration` where the
/// buffers of a single row do not fit the address space.
pub open spec fn planned(descriptors: Seq<ColumnDescriptor>, options: &MappingOptions) -> Result<
    Seq<ColumnStrategy>,
    ExportError,
> {
    match selected(descriptors, options, descriptors.len() as int) {
        Err(e) => Err(e),
        Ok(strategies) => if footprint_sum(strategies) > usize::MAX {
            Err(ExportError::InvalidConfiguration)
        } else {
            Ok(strategies)
        },
    }
}

proof fn lemma_selected_error_stays(
    descriptors: Seq<ColumnDescriptor>,
    options: &MappingOptions,
    j: int,
    n: int,
)
    requires
        j <= n,
        selected(descriptors, options, j) is Err,
    ensures
        selected(descriptors, options, n) == selected(descriptors, options, j),
    decreases n - j,
{
    if j < n {
        lemma_selected_error_stays(descriptors, options, j, n - 1);
    }
}

/// Every selected strategy can be bound, and is the one the registry gives
/// for its column.
pub proof fn lemma_selected_columns(
    descriptors: Seq<ColumnDescriptor>,
    options: &MappingOptions,
    k: int,
)
    requires
        0 <= k <= descriptors.len(),
        selected(descriptors, options, k) is Ok,
    ensures
        selected(descriptors, options, k)->Ok_0.len() == k,
        forall|i: int|
            0 <= i < k ==> spec_select(&descriptors[i], options) == Ok::<
                ColumnStrategy,
                ExportError,
            >(#[trigger] selected(descriptors, options, k)->Ok_0[i]),
    decreases k,
{
    if k > 0 {
        lemma_selected_columns(descriptors, options, k - 1);
    }
}

proof fn lemma_footprint_sum_grows(strategies: Seq<ColumnStrategy>, i: int)
    requires
        0 <= i <= strategies.len(),
    ensures
        0 <= footprint_sum(strategies.take(i)) <= footprint_sum(strategies),
    decreases strategies.len() - i,
{
    if i < strategies.len() {
        lemma_footprint_sum_grows(strategies, i + 1);
        assert(strategies.take(i + 1).drop_last() =~= strategies.take(i));
        lemma_footprint_sum_nonnegative(strategies.take(i));
    } else {
        assert(strategies.take(i) =~= strategies);
        lemma_footprint_sum_nonnegative(strategies);
    }
}

proof fn lemma_footprint_sum_nonnegative(strategies: Seq<ColumnStrategy>)
    ensures
        footprint_sum(strategies) >= 0,
    decreases strategies.len(),
{
    if strategies.len() > 0 {
        lemma_footprint_sum_nonnegative(strategies.drop_last());
    }
}

/// The plan for one result set: how each column is fetched and converted,
/// what the columnar file looks like, and what a row costs in buffers. The
/// order of the columns is that of the result set and never changes.
#[derive(Debug)]
pub struct ConversionStrategy {
    /// The strategy of every column.
    pub strategies: Vec<ColumnStrategy>,
    /// The schema of the columnar file.
    pub schema: Vec<SchemaColumn>,
    /// Bytes of bound buffer that one row takes.
    pub per_row_bytes: usize,
}

/// What one batch becomes: a row group, column by column.
#[derive(Debug)]
pub struct RowGroup {
    /// The number of rows in the group.
    pub num_rows: usize,
    /// One chunk a column, in the order of the schema.
    pub columns: Vec<ColumnChunk>,
}

/// What the first `n` rows of `column` become in a column that is
/// `nullable` or not, under `strategy`: as `spec_decode` says, but a NULL in
/// a column that takes none is `ValueOutOfRange`.
pub open spec fn column_outcome(
    strategy: ColumnStrategy,
    nullable: bool,
    column: &BoundColumn,
    n: usize,
) -> Result<ValuesModel, ExportError> {
    if !column.holds(strategy.buffer_kind(), n) {
        Err(ExportError::FetchFailure)
    } else if !nullable && exists|j: int| 0 <= j < n && column.nulls@[j] {
        Err(ExportError::ValueOutOfRange)
    } else {
        spec_decode(strategy, column, n)
    }
}

/// Whether a NULL is among the first `n` rows.
fn has_null(nulls: &Vec<bool>, n: usize) -> (found: bool)
    requires
        n <= nulls.len(),
    ensures
        found == exists|j: int| 0 <= j < n && nulls@[j],
{
    let mut j: usize = 0;
    while j < n
        invariant
            j <= n <= nulls.len(),
            forall|i: int| 0 <= i < j ==> !nulls@[i],
        decreases n - j,
    {
        if nulls[j] {
            return true;
        }
        j += 1;
    }
    false
}

impl ConversionStrategy {
    /// The invariant of a plan: strategies and schema have one entry a
    /// column, in the same order; every strategy can be bound and targets
    /// the type its schema column has; the cost of a row is the sum of the
    /// footprints.
    pub open spec fn wf(&self) -> bool {
        &&& self.strategies@.len() == self.schema@.len()
        &&& forall|i: int|
            0 <= i < self.strategies@.len() ==> {
                &&& (#[trigger] self.strategies@[i]).wf()
                &&& self.schema@[i].columnar_type == self.strategies@[i].columnar_type()
            }
        &&& self.per_row_bytes == footprint_sum(self.strategies@)
    }

    /// Whether the plan is the one for `descriptors`: its strategies are
    /// those the registry gives, and its schema keeps name and nullability
    /// of every column and the encoding chosen for it by hand.
    pub open spec fn plans(
        &self,
        descriptors: Seq<ColumnDescriptor>,
        options: &MappingOptions,
        overrides: Seq<(String, Encoding)>,
    ) -> bool {
        &&& planned(descriptors, options) == Ok::<Seq<ColumnStrategy>, ExportError>(
            self.strategies@,
        )
        &&& self.schema@.len() == descriptors.len()
        &&& forall|i: int|
            0 <= i < descriptors.len() ==> {
                &&& self.schema@[i].name@ == (#[trigger] descriptors[i]).name@
                &&& self.schema@[i].nullable == descriptors[i].nullable
                &&& self.schema@[i].encoding == encoding_override(overrides, descriptors[i].name@)
                &&& spec_select(&descriptors[i], options) == Ok::<ColumnStrategy, ExportError>(
                    self.strategies@[i],
                )
            }
    }

    /// What column `i` of `batch` becomes under the plan.
    pub open spec fn outcome(&self, batch: &RowBatch, i: int) -> Result<ValuesModel, ExportError> {
        column_outcome(
            self.strategies@[i],
            self.schema@[i].nullable,
            &batch.columns@[i],
            batch.num_rows,
        )
    }

    /// Builds the plan for a result set from the description of its columns.
    /// Fails with the error of the first column that has no strategy, else
    /// with `InvalidConfiguration` where the buffers of a single row do not
    /// fit the address space.
    #[verifier::loop_isolation(false)]
    pub fn new(
        descriptors: &Vec<ColumnDescriptor>,
        options: &MappingOptions,
        overrides: &Vec<(String, Encoding)>,
    ) -> (result: Result<ConversionStrategy, ExportError>)
        ensures
            match result {
                Ok(plan) => plan.wf() && plan.plans(descriptors@, options, overrides@),
                Err(e) => planned(descriptors@, options) == Err::<
                    Seq<ColumnStrategy>,
                    ExportError,
                >(e),
            },
    {
        let mut strategies: Vec<ColumnStrategy> = Vec::new();
        let mut schema: Vec<SchemaColumn> = Vec::new();
        let mut i: usize = 0;
        while i < descriptors.len()
            invariant
                i <= descriptors.len(),
                strategies@.len() == i,
                schema@.len() == i,
                selected(descriptors@, options, i as int) == Ok::<
                    Seq<ColumnStrategy>,
                    ExportError,
                >(strategies@),
                forall|k: int|
                    0 <= k < i ==> {
                        &&& (#[trigger] strategies@[k]).wf()
                        &&& schema@[k].columnar_type == strategies@[k].columnar_type()
                    },
                forall|k: int|
                    0 <= k < i ==> {
                        &&& spec_select(&(#[trigger] descriptors@[k]), options) == Ok::<
                            ColumnStrategy,
                            ExportError,
                        >(strategies@[k])
                        &&& schema@[k].name@ == descriptors@[k].name@
                        &&& schema@[k].nullable == descriptors@[k].nullable
                        &&& schema@[k].encoding == encoding_override(
                            overrides@,
                            descriptors@[k].name@,
                        )
                    },
            decreases descriptors.len() - i,
        {
            let descriptor = &descriptors[i];
            let strategy = match select(descriptor, options) {
                Ok(strategy) => strategy,
                Err(e) => {
                    proof {
                        lemma_selected_error_stays(
                            descriptors@,
                            options,
                            i + 1,
                            descriptors@.len() as int,
                        );
                    }
                    return Err(e);
                },
            };
            schema.push(
                SchemaColumn {
                    name: descriptor.name.clone(),
                    nullable: descriptor.nullable,
                    columnar_type: strategy.columnar_type(),
                    encoding: find_encoding_override(overrides, &descriptor.name),
                },
            );
            strategies.push(strategy);
            i += 1;
        }
        let mut per_row_bytes: usize = 0;
        let mut k: usize = 0;
        assert(strategies@.take(0) =~= Seq::<ColumnStrategy>::empty());
        while k < strategies.len()
            invariant
                k <= strategies.len(),
                forall|j: int| 0 <= j < strategies@.len() ==> (#[trigger] strategies@[j]).wf(),
                per_row_bytes == footprint_sum(strategies@.take(k as int)),
            decreases strategies.len() - k,
        {
            let footprint = strategies[k].footprint();
            proof {
                assert(strategies@.take(k + 1).drop_last() =~= strategies@.take(k as int));
                lemma_footprint_sum_grows(strategies@, k + 1);
            }
            if footprint > usize::MAX - per_row_bytes {
                return Err(ExportError::InvalidConfiguration);
            }
            per_row_bytes = per_row_bytes + footprint;
            k += 1;
        }
        assert(strategies@.take(strategies@.len() as int) =~= strategies@);
        Ok(ConversionStrategy { strategies, schema, per_row_bytes })
    }

    /// The schema of the columnar file: one column for every column of the
    /// result set, in its order.
    pub fn parquet_schema(&self) -> (schema: &Vec<SchemaColumn>)
        ensures
            schema == &self.schema,
    {
        &self.schema
    }

    /// Bytes of bound buffer that one row takes: the footprints of all
    /// columns together.
    pub fn per_row_bytes(&self) -> (bytes: usize)
        ensures
            bytes == self.per_row_bytes,
    {
        self.per_row_bytes
    }

    /// Whether `chunks` are what the columns of `batch` become under the
    /// first `k` strategies of the plan.
    pub open spec fn transcoded(&self, batch: &RowBatch, chunks: Seq<ColumnChunk>, k: int) -> bool {
        &&& chunks.len() == k
        &&& forall|i: int|
            0 <= i < k ==> {
                &&& #[trigger] self.outcome(batch, i) == Ok::<ValuesModel, ExportError>(
                    chunks[i].values@,
                )
                &&& chunks[i].definition_levels@ == spec_definition_levels(
                    batch.columns@[i].nulls@,
                    batch.num_rows as int,
                )
            }
    }

    /// Whether column `i` of `batch` is the first that cannot be transcoded,
    /// and fails with `e`.
    pub open spec fn fails_at(&self, batch: &RowBatch, i: int, e: ExportError) -> bool {
        &&& 0 <= i < self.strategies@.len()
        &&& forall|k: int| 0 <= k < i ==> (#[trigger] self.outcome(batch, k)) is Ok
        &&& self.outcome(batch, i) == Err::<ValuesModel, ExportError>(e)
    }

    /// Transcodes a batch into a row group: every column by its strategy,
    /// in the order of the schema, all rows of the batch in one group. Fails
    /// with `FetchFailure` where the batch has another number of columns
    /// than the plan, else with the error of the first column that cannot be
    /// transcoded.
    pub fn transcode(&self, batch: &RowBatch) -> (result: Result<RowGroup, ExportError>)
        requires
            self.wf(),
        ensures
            match result {
                Ok(group) => {
                    &&& batch.columns@.len() == self.strategies@.len()
                    &&& group.num_rows == batch.num_rows
                    &&& self.transcoded(batch, group.columns@, self.strategies@.len() as int)
                },
                Err(e) => if batch.columns@.len() != self.strategies@.len() {
                    e == ExportError::FetchFailure
                } else {
                    exists|i: int| self.fails_at(batch, i, e)
                },
            },
    {
        if batch.columns.len() != self.strategies.len() {
            return Err(ExportError::FetchFailure);
        }
        let n = batch.num_rows;
        let mut columns: Vec<ColumnChunk> = Vec::new();
        let mut i: usize = 0;
        while i < self.strategies.len()
            invariant
                self.wf(),
                i <= self.strategies.len(),
                batch.columns@.len() == self.strategies@.len(),
                n == batch.num_rows,
                self.transcoded(batch, columns@, i as int),
            decreases self.strategies.len() - i,
        {
            let strategy = self.strategies[i];
            let column = &batch.columns[i];
            if column.values.kind() != strategy.buffer_kind() || n > column.nulls.len() || n
                > column.values.len() {
                assert(self.fails_at(batch, i as int, ExportError::FetchFailure));
                return Err(ExportError::FetchFailure);
            }
            if !self.schema[i].nullable && has_null(&column.nulls, n) {
                assert(self.fails_at(batch, i as int, ExportError::ValueOutOfRange));
                return Err(ExportError::ValueOutOfRange);
            }
            match strategy.decode(column, n) {
                Ok(chunk) => {
                    columns.push(chunk);
                },
                Err(e) => {
                    assert(self.fails_at(batch, i as int, e));
                    return Err(e);
                },
            }
            i += 1;
        }
        Ok(RowGroup { num_rows: n, columns })
    }

    /// Strategies, schema and batches agree on the columns: the plan has one
    /// strategy and one schema column for every column of the result set, in
    /// its order, and each schema column has the type its strategy writes.
    pub proof fn lemma_columns_agree(
        &self,
        descriptors: Seq<ColumnDescriptor>,
        options: &MappingOptions,
        overrides: Seq<(String, Encoding)>,
    )
        requires
            self.wf(),
            self.plans(descriptors, options, overrides),
        ensures
            self.strategies@.len() == descriptors.len(),
            self.schema@.len() == descriptors.len(),
            forall|i: int|
                0 <= i < descriptors.len() ==> {
                    &&& self.schema@[i].name@ == (#[trigger] descriptors[i]).name@
                    &&& self.schema@[i].columnar_type == self.strategies@[i].columnar_type()
                    &&& spec_select(&descriptors[i], options) == Ok::<ColumnStrategy, ExportError>(
                        self.strategies@[i],
                    )
                },
    {
    }
}

} // verus!
