//! The export engine: which statements make up a dump, how rows are cut into
//! batches, and the step function that a driver follows table by table.

use vstd::prelude::*;
use vstd::slice::slice_subrange;
use crate::connection::list_tables_sql;
use crate::factory::EngineKind;
use crate::text::{decimal, push_decimal, row_texts, same_text, texts};

verus! {

/// Rows asked for in one page of a table's data.
pub const EXPORT_PAGE_ROWS: usize = 10_000;

/// Rows per statement: `max_insert_size`, and one where that is zero.
pub open spec fn batch_size(max_insert_size: nat) -> nat {
    if max_insert_size == 0 {
        1
    } else {
        max_insert_size
    }
}

/// `rows` cut into consecutive batches of `size` rows; the last batch holds
/// what is left.
pub open spec fn batches<T>(rows: Seq<T>, size: nat) -> Seq<Seq<T>>
    decreases rows.len(),
{
    if rows.len() == 0 {
        Seq::empty()
    } else if rows.len() <= size || size == 0 {
        seq![rows]
    } else {
        seq![rows.take(size as int)] + batches(rows.skip(size as int), size)
    }
}

/// `n` is a whole number of batches.
pub open spec fn aligned(n: nat, size: nat) -> bool
    decreases n,
{
    n == 0 || (size >= 1 && n >= size && aligned((n - size) as nat, size))
}

/// After a whole number of batches, further rows that fit into one batch
/// form the next batch and leave the earlier ones as they are.
pub proof fn lemma_batches_append<T>(prefix: Seq<T>, chunk: Seq<T>, size: nat)
    requires
        size >= 1,
        aligned(prefix.len(), size),
        0 < chunk.len() <= size,
    ensures
        batches(prefix + chunk, size) == batches(prefix, size).push(chunk),
    decreases prefix.len(),
{
    let whole = prefix + chunk;
    if prefix.len() == 0 {
        assert(whole =~= chunk);
        assert(batches(prefix, size).push(chunk) =~= seq![chunk]);
    } else {
        let head = prefix.take(size as int);
        let tail = prefix.skip(size as int);
        assert(whole.take(size as int) =~= head);
        assert(whole.skip(size as int) =~= tail + chunk);
        lemma_batches_append(tail, chunk, size);
        if prefix.len() == size {
            assert(head =~= prefix);
            assert(batches(tail, size) =~= Seq::<Seq<T>>::empty());
            assert(batches(whole, size) =~= seq![prefix].push(chunk));
        } else {
            assert(batches(whole, size) =~= (seq![head] + batches(tail, size)).push(chunk));
        }
    }
}

/// The batches hold every row once, in the order of the rows.
pub proof fn lemma_batches_keep_rows<T>(rows: Seq<T>, size: nat)
    ensures
        batches(rows, size).flatten() == rows,
    decreases rows.len(),
{
    if rows.len() == 0 {
        assert(batches(rows, size).flatten() =~= rows);
    } else if rows.len() <= size || size == 0 {
        seq![rows].lemma_flatten_one_element();
        assert(seq![rows].first() == rows);
    } else {
        let head = rows.take(size as int);
        let tail = rows.skip(size as int);
        lemma_batches_keep_rows(tail, size);
        vstd::seq_lib::lemma_flatten_concat(seq![head], batches(tail, size));
        seq![head].lemma_flatten_one_element();
        assert(seq![head].first() == head);
        assert(head + tail =~= rows);
    }
}

/// No batch is empty, none holds more than `size` rows, and every batch
/// before the last holds exactly `size` rows.
pub proof fn lemma_batch_boundaries<T>(rows: Seq<T>, size: nat, i: int)
    requires
        size >= 1,
        0 <= i < batches(rows, size).len(),
    ensures
        1 <= batches(rows, size)[i].len() <= size,
        i + 1 < batches(rows, size).len() ==> batches(rows, size)[i].len() == size,
    decreases rows.len(),
{
    if rows.len() == 0 {
    } else if rows.len() <= size {
    } else {
        let tail = rows.skip(size as int);
        if i > 0 {
            lemma_batch_boundaries(tail, size, i - 1);
        }
    }
}

/// The number of batches is the number of rows divided by `size`, rounded up.
pub proof fn lemma_batch_count<T>(rows: Seq<T>, size: nat)
    requires
        size >= 1,
    ensures
        batches(rows, size).len() * size >= rows.len(),
        rows.len() > 0 ==> (batches(rows, size).len() - 1) * size < rows.len(),
    decreases rows.len(),
{
    let count = batches(rows, size).len() as int;
    if rows.len() == 0 {
        assert(count == 0);
        assert(count * size == 0) by (nonlinear_arith)
            requires
                count == 0,
        ;
    } else if rows.len() <= size {
        assert(count == 1);
        assert(count * size == size && (count - 1) * size == 0) by (nonlinear_arith)
            requires
                count == 1,
        ;
    } else {
        let tail = rows.skip(size as int);
        lemma_batch_count(tail, size);
        let n = batches(tail, size).len() as int;
        assert(count == n + 1);
        assert(tail.len() == rows.len() - size);
        assert(count * size == n * size + size && (count - 1) * size == (n - 1) * size + size)
            by (nonlinear_arith)
            requires
                count == n + 1,
        ;
    }
}

/// One statement that writes `rows` into `table`, in the dialect of `kind`.
/// `key_columns` are the columns of the table's primary key, which
/// PostgreSQL names as the conflict target; MariaDB has no use for them.
pub open spec fn insert_text(
    kind: EngineKind,
    table: Seq<char>,
    columns: Seq<Seq<char>>,
    key_columns: Seq<Seq<char>>,
    rows: Seq<Seq<Seq<char>>>,
    data_mode: Seq<char>,
) -> Seq<char> {
    match kind {
        EngineKind::MariaDb => crate::mariadb::insert_statement(table, columns, rows, data_mode),
        EngineKind::Postgres => crate::postgresql::insert_statement(
            table,
            columns,
            key_columns,
            rows,
            data_mode,
        ),
    }
}

/// The key columns bear on the statements of PostgreSQL in `replace` mode
/// and on no others.
pub proof fn lemma_keys_are_the_conflict_target_only(
    kind: EngineKind,
    table: Seq<char>,
    columns: Seq<Seq<char>>,
    keys: Seq<Seq<char>>,
    other_keys: Seq<Seq<char>>,
    rows: Seq<Seq<Seq<char>>>,
    data_mode: Seq<char>,
)
    requires
        kind == EngineKind::MariaDb || data_mode != "replace"@,
    ensures
        insert_text(kind, table, columns, keys, rows, data_mode) == insert_text(
            kind,
            table,
            columns,
            other_keys,
            rows,
            data_mode,
        ),
{
}

/// One statement per batch, in order.
pub open spec fn statements(
    kind: EngineKind,
    table: Seq<char>,
    columns: Seq<Seq<char>>,
    key_columns: Seq<Seq<char>>,
    chunks: Seq<Seq<Seq<Seq<char>>>>,
    data_mode: Seq<char>,
) -> Seq<char>
    decreases chunks.len(),
{
    if chunks.len() == 0 {
        Seq::empty()
    } else {
        statements(kind, table, columns, key_columns, chunks.drop_last(), data_mode) + insert_text(
            kind,
            table,
            columns,
            key_columns,
            chunks.last(),
            data_mode,
        )
    }
}

/// The statements for one page of rows: the rows are cut into batches of
/// `max_insert_size`, and each batch becomes one statement.
pub open spec fn page_text(
    kind: EngineKind,
    table: Seq<char>,
    columns: Seq<Seq<char>>,
    key_columns: Seq<Seq<char>>,
    rows: Seq<Seq<Seq<char>>>,
    data_mode: Seq<char>,
    max_insert_size: nat,
) -> Seq<char> {
    statements(
        kind,
        table,
        columns,
        key_columns,
        batches(rows, batch_size(max_insert_size)),
        data_mode,
    )
}

/// Appends one statement that writes `rows` into `table`.
pub fn push_insert(
    out: &mut String,
    kind: EngineKind,
    table: &str,
    columns: &[String],
    key_columns: &[String],
    rows: &[Vec<String>],
    data_mode: &str,
)
    ensures
        final(out)@ == old(out)@ + insert_text(
            kind,
            table@,
            texts(columns@),
            texts(key_columns@),
            row_texts(rows@),
            data_mode@,
        ),
{
    match kind {
        EngineKind::MariaDb => crate::mariadb::push_insert_statement(
            out,
            table,
            columns,
            rows,
            data_mode,
        ),
        EngineKind::Postgres => crate::postgresql::push_insert_statement(
            out,
            table,
            columns,
            key_columns,
            rows,
            data_mode,
        ),
    }
}

/// Appends the statements for one page of rows of SQL literals.
pub fn push_page(
    out: &mut String,
    kind: EngineKind,
    table: &str,
    columns: &[String],
    key_columns: &[String],
    rows: &[Vec<String>],
    data_mode: &str,
    max_insert_size: usize,
)
    ensures
        final(out)@ == old(out)@ + page_text(
            kind,
            table@,
            texts(columns@),
            texts(key_columns@),
            row_texts(rows@),
            data_mode@,
            max_insert_size as nat,
        ),
{
    let ghost begin = out@;
    let ghost all = row_texts(rows@);
    let ghost cols = texts(columns@);
    let ghost keys = texts(key_columns@);
    let size: usize = if max_insert_size == 0 {
        1
    } else {
        max_insert_size
    };
    let total = rows.len();
    let mut start: usize = 0;
    while start < total
        invariant
            total == rows@.len(),
            all == row_texts(rows@),
            cols == texts(columns@),
            keys == texts(key_columns@),
            size as nat == batch_size(max_insert_size as nat),
            start <= total,
            start == total || aligned(start as nat, size as nat),
            out@ == begin + statements(
                kind,
                table@,
                cols,
                keys,
                batches(all.take(start as int), size as nat),
                data_mode@,
            ),
        decreases total - start,
    {
        let end: usize = if total - start <= size {
            total
        } else {
            start + size
        };
        let chunk = slice_subrange(rows, start, end);
        push_insert(out, kind, table, columns, key_columns, chunk, data_mode);
        proof {
            let prefix = all.take(start as int);
            let piece = all.subrange(start as int, end as int);
            assert(row_texts(chunk@) =~= piece);
            assert(prefix + piece =~= all.take(end as int));
            lemma_batches_append(prefix, piece, size as nat);
            let done = batches(prefix, size as nat);
            assert(done.push(piece).drop_last() =~= done);
            assert(out@ =~= begin + statements(
                kind,
                table@,
                cols,
                keys,
                done.push(piece),
                data_mode@,
            ));
        }
        start = end;
    }
    proof {
        assert(all.take(total as int) =~= all);
    }
}

/// Where an export stands between two requests.
#[derive(Debug, Clone, Copy, PartialEq, Eq, Structural)]
pub enum ExportStage {
    /// The list of tables has been asked for.
    AwaitTables,
    /// The description of the current table has been asked for: how it is
    /// created, or what its primary key is, or both.
    AwaitCreate,
    /// A page of the current table's rows has been asked for.
    AwaitPage,
    /// Every table is written.
    Done,
}

/// What the driver is to do next for an export.
#[derive(Debug)]
pub enum ExportRequest {
    /// Run `sql` and report the first column of each row.
    ListTables { sql: String },
    /// Run `sql` with `parameters` bound and report how the current table is
    /// created.
    DescribeTable { sql: String, parameters: Vec<String> },
    /// Run `sql` and report the column names and rows.
    FetchPage { sql: String },
    /// Nothing: the dump is complete.
    Finished,
}

/// The mathematical content of an `ExportRequest`.
pub enum ExportRequestView {
    ListTables { sql: Seq<char> },
    DescribeTable { sql: Seq<char>, parameters: Seq<Seq<char>> },
    FetchPage { sql: Seq<char> },
    Finished,
}

impl View for ExportRequest {
    type V = ExportRequestView;

    open spec fn view(&self) -> ExportRequestView {
        match self {
            ExportRequest::ListTables { sql } => ExportRequestView::ListTables { sql: sql@ },
            ExportRequest::DescribeTable { sql, parameters } => ExportRequestView::DescribeTable {
                sql: sql@,
                parameters: texts(parameters@),
            },
            ExportRequest::FetchPage { sql } => ExportRequestView::FetchPage { sql: sql@ },
            ExportRequest::Finished => ExportRequestView::Finished,
        }
    }
}

/// The mathematical content of an `ExportJob`.
pub struct ExportJobView {
    pub kind: EngineKind,
    pub include_drop: bool,
    pub include_create: bool,
    pub data_mode: Seq<char>,
    pub max_insert_size: nat,
    /// The tables to write, in order.
    pub tables: Seq<Seq<char>>,
    /// Index of the table being written.
    pub position: nat,
    pub stage: ExportStage,
    /// Rows of the current table that earlier pages held.
    pub offset: nat,
    /// The columns of the current table's primary key, as far as the
    /// table was described.
    pub key_columns: Seq<Seq<char>>,
    /// The dump so far.
    pub output: Seq<char>,
}

/// `name` as an identifier in the dialect of `kind`.
pub open spec fn quoted_name(kind: EngineKind, name: Seq<char>) -> Seq<char> {
    match kind {
        EngineKind::MariaDb => crate::mariadb::quoted_identifier(name),
        EngineKind::Postgres => crate::postgresql::quoted_identifier(name),
    }
}

/// The comment line that opens a table's part of the dump.
pub open spec fn table_banner(table: Seq<char>) -> Seq<char> {
    "\n-- Table: "@ + table + "\n"@
}

/// The statement that removes a table before it is created again. PostgreSQL
/// needs `CASCADE` to remove what refers to the table.
pub open spec fn drop_text(kind: EngineKind, table: Seq<char>) -> Seq<char> {
    match kind {
        EngineKind::MariaDb => "DROP TABLE IF EXISTS "@ + quoted_name(kind, table) + ";\n"@,
        EngineKind::Postgres => "DROP TABLE IF EXISTS "@ + quoted_name(kind, table)
            + " CASCADE;\n"@,
    }
}

/// The request for the description of a table: MariaDB shows the CREATE
/// statement itself, PostgreSQL lists the columns of the table bound to `$1`
/// and tells which of them make up the primary key.
pub open spec fn describe_request(kind: EngineKind, table: Seq<char>) -> ExportRequestView {
    match kind {
        EngineKind::MariaDb => ExportRequestView::DescribeTable {
            sql: "SHOW CREATE TABLE "@ + quoted_name(kind, table),
            parameters: Seq::empty(),
        },
        EngineKind::Postgres => ExportRequestView::DescribeTable {
            sql: crate::postgresql::DESCRIBE_COLUMNS_SQL@,
            parameters: seq![table],
        },
    }
}

/// The statement that reads one page of a table, starting after `offset` rows.
pub open spec fn page_sql(kind: EngineKind, table: Seq<char>, offset: nat) -> Seq<char> {
    "SELECT * FROM "@ + quoted_name(kind, table) + " LIMIT "@ + decimal(EXPORT_PAGE_ROWS as nat)
        + " OFFSET "@ + decimal(offset)
}

/// Whether row data is exported: in every data mode but `no_data`.
pub open spec fn wants_data(data_mode: Seq<char>) -> bool {
    data_mode != "no_data"@
}

/// Whether the statements of a table need its primary key: those of
/// PostgreSQL in `replace` mode do, for their conflict target.
pub open spec fn wants_keys(kind: EngineKind, data_mode: Seq<char>) -> bool {
    kind == EngineKind::Postgres && data_mode == "replace"@
}

/// Whether a table is described before its rows are read: where its CREATE
/// text is exported, and where its statements need its primary key.
pub open spec fn wants_description(job: ExportJobView) -> bool {
    job.include_create || wants_keys(job.kind, job.data_mode)
}

/// The job is in a state that its steps can start from.
pub open spec fn job_is_sound(job: ExportJobView) -> bool {
    &&& job.position <= job.tables.len()
    &&& (job.stage == ExportStage::AwaitCreate || job.stage == ExportStage::AwaitPage)
        ==> job.position < job.tables.len()
}

/// Starting at the table at `position`: writes the banner and the DROP
/// statement of each table in turn, until one needs its description or its
/// rows, or until no table is left. No key columns are known of a table
/// that is newly opened.
pub open spec fn open_tables(job: ExportJobView) -> (ExportJobView, ExportRequestView)
    decreases job.tables.len() - job.position,
{
    if job.position >= job.tables.len() {
        (ExportJobView { stage: ExportStage::Done, ..job }, ExportRequestView::Finished)
    } else {
        let table = job.tables[job.position as int];
        let output = job.output + table_banner(table) + (if job.include_drop {
            drop_text(job.kind, table)
        } else {
            Seq::empty()
        });
        let opened = ExportJobView { output, key_columns: Seq::empty(), ..job };
        if wants_description(job) {
            (
                ExportJobView { stage: ExportStage::AwaitCreate, ..opened },
                describe_request(job.kind, table),
            )
        } else if wants_data(job.data_mode) {
            (
                ExportJobView { stage: ExportStage::AwaitPage, offset: 0, ..opened },
                ExportRequestView::FetchPage { sql: page_sql(job.kind, table, 0) },
            )
        } else {
            open_tables(ExportJobView { position: job.position + 1, ..opened })
        }
    }
}

/// The job and first request of an export: the list of tables is asked for
/// where none is selected, else the selected tables are written in the order
/// given.
pub open spec fn export_begun(
    kind: EngineKind,
    include_drop: bool,
    include_create: bool,
    data_mode: Seq<char>,
    selected_tables: Seq<Seq<char>>,
    max_insert_size: nat,
) -> (ExportJobView, ExportRequestView) {
    let job = ExportJobView {
        kind,
        include_drop,
        include_create,
        data_mode,
        max_insert_size,
        tables: selected_tables,
        position: 0,
        stage: ExportStage::AwaitTables,
        offset: 0,
        key_columns: Seq::empty(),
        output: Seq::empty(),
    };
    if selected_tables.len() == 0 {
        (job, ExportRequestView::ListTables { sql: list_tables_sql(kind) })
    } else {
        open_tables(job)
    }
}

/// The job after the tables were listed.
pub open spec fn tables_received(job: ExportJobView, names: Seq<Seq<char>>) -> (
    ExportJobView,
    ExportRequestView,
) {
    open_tables(ExportJobView { tables: names, position: 0, ..job })
}

/// The job after the current table was described: its CREATE text,
/// `block`, is written where CREATE statements are exported, and
/// `key_columns` are kept for the statements of its rows.
pub open spec fn table_described(
    job: ExportJobView,
    block: Seq<char>,
    key_columns: Seq<Seq<char>>,
) -> (ExportJobView, ExportRequestView) {
    let output = job.output + (if job.include_create {
        block
    } else {
        Seq::empty()
    });
    if wants_data(job.data_mode) {
        (
            ExportJobView { output, key_columns, stage: ExportStage::AwaitPage, offset: 0, ..job },
            ExportRequestView::FetchPage {
                sql: page_sql(job.kind, job.tables[job.position as int], 0),
            },
        )
    } else {
        open_tables(ExportJobView { output, key_columns, position: job.position + 1, ..job })
    }
}

/// The job after a page of the current table arrived: its rows are written
/// in batches, and a page with fewer rows than were asked for ends the table.
pub open spec fn page_received(
    job: ExportJobView,
    columns: Seq<Seq<char>>,
    rows: Seq<Seq<Seq<char>>>,
) -> (ExportJobView, ExportRequestView) {
    let table = job.tables[job.position as int];
    let output = job.output + page_text(
        job.kind,
        table,
        columns,
        job.key_columns,
        rows,
        job.data_mode,
        job.max_insert_size,
    );
    if rows.len() < EXPORT_PAGE_ROWS {
        open_tables(
            ExportJobView { output: output + "\n"@, position: job.position + 1, ..job },
        )
    } else {
        let offset = job.offset + EXPORT_PAGE_ROWS as nat;
        (
            ExportJobView { output, offset, ..job },
            ExportRequestView::FetchPage { sql: page_sql(job.kind, table, offset) },
        )
    }
}

/// The CREATE text that MariaDB's own CREATE statement becomes in the dump.
pub open spec fn shown_create_block(statement: Option<Seq<char>>) -> Seq<char> {
    match statement {
        Some(s) => s + ";\n\n"@,
        None => Seq::empty(),
    }
}

/// A copy of a list of strings.
pub fn copy_texts(source: &[String]) -> (copy: Vec<String>)
    ensures
        texts(copy@) == texts(source@),
{
    let mut copy: Vec<String> = Vec::new();
    let mut i: usize = 0;
    while i < source.len()
        invariant
            i <= source.len(),
            texts(copy@) =~= texts(source@).take(i as int),
        decreases source.len() - i,
    {
        let item = source[i].clone();
        proof {
            assert(texts(copy@.push(item)) =~= texts(copy@).push(item@));
            assert(texts(source@).take(i + 1) =~= texts(source@).take(i as int).push(
                source@[i as int]@,
            ));
        }
        copy.push(item);
        i = i + 1;
    }
    proof {
        assert(texts(source@).take(source.len() as int) =~= texts(source@));
    }
    copy
}

/// An export under way: the options, the tables, and the dump so far.
#[derive(Debug)]
pub struct ExportJob {
    kind: EngineKind,
    include_drop: bool,
    include_create: bool,
    data_mode: String,
    max_insert_size: usize,
    tables: Vec<String>,
    position: usize,
    stage: ExportStage,
    offset: u64,
    key_columns: Vec<String>,
    output: String,
}

impl View for ExportJob {
    type V = ExportJobView;

    closed spec fn view(&self) -> ExportJobView {
        ExportJobView {
            kind: self.kind,
            include_drop: self.include_drop,
            include_create: self.include_create,
            data_mode: self.data_mode@,
            max_insert_size: self.max_insert_size as nat,
            tables: texts(self.tables@),
            position: self.position as nat,
            stage: self.stage,
            offset: self.offset as nat,
            key_columns: texts(self.key_columns@),
            output: self.output@,
        }
    }
}

impl ExportJob {
    /// Appends `name` as an identifier in the job's dialect.
    fn push_quoted_name(out: &mut String, kind: EngineKind, name: &str)
        ensures
            final(out)@ == old(out)@ + quoted_name(kind, name@),
    {
        match kind {
            EngineKind::MariaDb => crate::mariadb::push_quoted_identifier(out, name),
            EngineKind::Postgres => crate::postgresql::push_quoted_identifier(out, name),
        }
    }

    /// The statement that reads one page of `table`.
    fn page_request(kind: EngineKind, table: &str, offset: u64) -> (request: ExportRequest)
        ensures
            request@ == (ExportRequestView::FetchPage { sql: page_sql(kind, table@, offset as nat) }),
    {
        let mut sql = String::new();
        sql.append("SELECT * FROM ");
        Self::push_quoted_name(&mut sql, kind, table);
        sql.append(" LIMIT ");
        push_decimal(&mut sql, EXPORT_PAGE_ROWS as u64);
        sql.append(" OFFSET ");
        push_decimal(&mut sql, offset);
        proof {
            assert(sql@ =~= page_sql(kind, table@, offset as nat));
        }
        ExportRequest::FetchPage { sql }
    }

    /// The request for the description of `table`.
    fn describe(kind: EngineKind, table: &str) -> (request: ExportRequest)
        ensures
            request@ == describe_request(kind, table@),
    {
        match kind {
            EngineKind::MariaDb => {
                let mut sql = String::new();
                sql.append("SHOW CREATE TABLE ");
                Self::push_quoted_name(&mut sql, kind, table);
                let parameters: Vec<String> = Vec::new();
                proof {
                    assert(texts(parameters@) =~= Seq::<Seq<char>>::empty());
                }
                ExportRequest::DescribeTable { sql, parameters }
            },
            EngineKind::Postgres => {
                let mut parameters: Vec<String> = Vec::new();
                parameters.push(table.to_owned());
                proof {
                    assert(texts(parameters@) =~= seq![table@]);
                }
                ExportRequest::DescribeTable {
                    sql: crate::postgresql::DESCRIBE_COLUMNS_SQL.to_owned(),
                    parameters,
                }
            },
        }
    }

    /// Writes what opens each table in turn, until one needs a request.
    fn open_tables(&mut self) -> (request: ExportRequest)
        requires
            old(self)@.position <= old(self)@.tables.len(),
        ensures
            (final(self)@, request@) == open_tables(old(self)@),
            job_is_sound(final(self)@),
    {
        loop
            invariant
                self@.position <= self@.tables.len(),
                open_tables(self@) == open_tables(old(self)@),
            decreases self.tables.len() - self.position,
        {
            if self.position >= self.tables.len() {
                self.stage = ExportStage::Done;
                return ExportRequest::Finished;
            }
            let ghost before = self@;
            let ghost table = self@.tables[self.position as int];
            assert(table == self.tables@[self.position as int]@);
            self.output.append("\n-- Table: ");
            self.output.append(self.tables[self.position].as_str());
            self.output.append("\n");
            if self.include_drop {
                self.output.append("DROP TABLE IF EXISTS ");
                Self::push_quoted_name(
                    &mut self.output,
                    self.kind,
                    self.tables[self.position].as_str(),
                );
                match self.kind {
                    EngineKind::MariaDb => self.output.append(";\n"),
                    EngineKind::Postgres => self.output.append(" CASCADE;\n"),
                }
            }
            self.key_columns = Vec::new();
            proof {
                assert(self.output@ =~= before.output + table_banner(table) + (if self.include_drop {
                    drop_text(self.kind, table)
                } else {
                    Seq::empty()
                }));
                assert(texts(self.key_columns@) =~= Seq::<Seq<char>>::empty());
            }
            if self.include_create || self.needs_keys() {
                self.stage = ExportStage::AwaitCreate;
                return Self::describe(self.kind, self.tables[self.position].as_str());
            }
            if !same_text(self.data_mode.as_str(), "no_data") {
                self.stage = ExportStage::AwaitPage;
                self.offset = 0;
                return Self::page_request(self.kind, self.tables[self.position].as_str(), 0);
            }
            self.position = self.position + 1;
        }
    }

    /// Whether the statements of a table need its primary key.
    fn needs_keys(&self) -> (needed: bool)
        ensures
            needed == wants_keys(self@.kind, self@.data_mode),
    {
        match self.kind {
            EngineKind::MariaDb => false,
            EngineKind::Postgres => same_text(self.data_mode.as_str(), "replace"),
        }
    }

    /// Starts an export. The first request asks for the list of tables where
    /// none is selected; else the selected tables are written, in the order
    /// given.
    pub fn begin(
        kind: EngineKind,
        include_drop: bool,
        include_create: bool,
        data_mode: &str,
        selected_tables: &[String],
        max_insert_size: usize,
    ) -> (started: (ExportJob, ExportRequest))
        ensures
            (started.0@, started.1@) == export_begun(
                kind,
                include_drop,
                include_create,
                data_mode@,
                texts(selected_tables@),
                max_insert_size as nat,
            ),
            job_is_sound(started.0@),
    {
        let mut job = ExportJob {
            kind,
            include_drop,
            include_create,
            data_mode: data_mode.to_owned(),
            max_insert_size,
            tables: copy_texts(selected_tables),
            position: 0,
            stage: ExportStage::AwaitTables,
            offset: 0,
            key_columns: Vec::new(),
            output: String::new(),
        };
        proof {
            assert(texts(job.key_columns@) =~= Seq::<Seq<char>>::empty());
        }
        if selected_tables.len() == 0 {
            let sql = match kind {
                EngineKind::MariaDb => crate::mariadb::LIST_TABLES_SQL.to_owned(),
                EngineKind::Postgres => crate::postgresql::LIST_TABLES_SQL.to_owned(),
            };
            (job, ExportRequest::ListTables { sql })
        } else {
            let request = job.open_tables();
            (job, request)
        }
    }

    /// Where the export stands.
    pub fn stage(&self) -> (stage: ExportStage)
        ensures
            stage == self@.stage,
    {
        self.stage
    }

    /// Rows of the current table that earlier pages held.
    pub fn offset(&self) -> (offset: u64)
        ensures
            offset == self@.offset,
    {
        self.offset
    }

    /// The table being written.
    pub fn current_table(&self) -> (table: String)
        requires
            self@.position < self@.tables.len(),
        ensures
            table@ == self@.tables[self@.position as int],
    {
        assert(self.position < self.tables.len()) by {
            assert(self@.position < self@.tables.len());
        }
        self.tables[self.position].clone()
    }

    /// Takes the list of tables and moves on to the first of them.
    pub fn tables_listed(&mut self, names: Vec<String>) -> (request: ExportRequest)
        requires
            old(self)@.stage == ExportStage::AwaitTables,
        ensures
            (final(self)@, request@) == tables_received(old(self)@, texts(names@)),
            job_is_sound(final(self)@),
    {
        self.tables = names;
        self.position = 0;
        self.open_tables()
    }

    /// Whether CREATE statements are exported.
    pub fn include_create(&self) -> (included: bool)
        ensures
            included == self@.include_create,
    {
        self.include_create
    }

    /// Takes the description of the current table: writes its CREATE text
    /// where CREATE statements are exported, keeps the columns of its
    /// primary key for the statements of its rows, and moves on to the rows,
    /// or to the next table where no data is exported.
    pub fn table_described(&mut self, block: &str, key_columns: Vec<String>) -> (request: ExportRequest)
        requires
            old(self)@.stage == ExportStage::AwaitCreate,
            job_is_sound(old(self)@),
        ensures
            (final(self)@, request@) == table_described(old(self)@, block@, texts(key_columns@)),
            job_is_sound(final(self)@),
    {
        assert(self.position < self.tables.len()) by {
            assert(self@.position < self@.tables.len());
        }
        if self.include_create {
            self.output.append(block);
        } else {
            proof {
                assert(self.output@ =~= self.output@ + Seq::<char>::empty());
            }
        }
        self.key_columns = key_columns;
        if !same_text(self.data_mode.as_str(), "no_data") {
            self.stage = ExportStage::AwaitPage;
            self.offset = 0;
            Self::page_request(self.kind, self.tables[self.position].as_str(), 0)
        } else {
            self.position = self.position + 1;
            self.open_tables()
        }
    }

    /// Takes what MariaDB showed as the current table's CREATE statement, if
    /// it showed any, and writes it.
    pub fn create_statement_shown(&mut self, statement: Option<String>) -> (request: ExportRequest)
        requires
            old(self)@.stage == ExportStage::AwaitCreate,
            job_is_sound(old(self)@),
        ensures
            (final(self)@, request@) == table_described(
                old(self)@,
                shown_create_block(crate::connection::optional_text(statement)),
                Seq::empty(),
            ),
            job_is_sound(final(self)@),
    {
        let keys: Vec<String> = Vec::new();
        proof {
            assert(texts(keys@) =~= Seq::<Seq<char>>::empty());
        }
        match statement {
            Some(s) => {
                let mut block = s;
                block.append(";\n\n");
                self.table_described(block.as_str(), keys)
            },
            None => {
                proof {
                    reveal_strlit("");
                    assert(""@ =~= Seq::<char>::empty());
                }
                self.table_described("", keys)
            },
        }
    }

    /// Takes one page of the current table, as rows of SQL literals, and
    /// writes it in batches. A page with fewer than `EXPORT_PAGE_ROWS` rows
    /// ends the table; after a full page the next one is asked for.
    pub fn page_fetched(
        &mut self,
        columns: &[String],
        rows: &[Vec<String>],
    ) -> (request: ExportRequest)
        requires
            old(self)@.stage == ExportStage::AwaitPage,
            job_is_sound(old(self)@),
            rows@.len() >= EXPORT_PAGE_ROWS ==> old(self)@.offset + EXPORT_PAGE_ROWS <= u64::MAX,
        ensures
            (final(self)@, request@) == page_received(
                old(self)@,
                texts(columns@),
                row_texts(rows@),
            ),
            job_is_sound(final(self)@),
    {
        assert(self.position < self.tables.len()) by {
            assert(self@.position < self@.tables.len());
        }
        push_page(
            &mut self.output,
            self.kind,
            self.tables[self.position].as_str(),
            columns,
            self.key_columns.as_slice(),
            rows,
            self.data_mode.as_str(),
            self.max_insert_size,
        );
        if rows.len() < EXPORT_PAGE_ROWS {
            self.output.push('\n');
            proof {
                reveal_strlit("\n");
                assert("\n"@ =~= seq!['\n']);
                assert(self.output@ =~= old(self)@.output + page_text(
                    self@.kind,
                    self@.tables[self@.position as int],
                    texts(columns@),
                    self@.key_columns,
                    row_texts(rows@),
                    self@.data_mode,
                    self@.max_insert_size,
                ) + "\n"@);
            }
            self.position = self.position + 1;
            self.open_tables()
        } else {
            self.offset = self.offset + EXPORT_PAGE_ROWS as u64;
            Self::page_request(self.kind, self.tables[self.position].as_str(), self.offset)
        }
    }

    /// Gives up the export after a request has failed: what was written so
    /// far is dropped, and the failure is reported as a query error in the
    /// driver's words.
    pub fn abort(self, message: String) -> (e: crate::connection::QueryError)
        ensures
            e@ == crate::connection::plain_error(message@, crate::error_codes::QUERY_ERROR@),
    {
        crate::connection::QueryError::with_code(message, crate::error_codes::QUERY_ERROR)
    }

    /// Ends the export and hands out the dump.
    pub fn finish(self) -> (dump: String)
        ensures
            dump@ == self@.output,
    {
        self.output
    }
}

} // verus!
