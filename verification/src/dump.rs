//! What an export writes in the end: the dump as a function of the options
//! and of what the database holds, and the proof that serving the requests
//! of an export job writes exactly that.

use vstd::prelude::*;
use crate::export::{
    drop_text, export_begun, job_is_sound, open_tables, page_received, page_text, table_banner,
    table_described, tables_received, wants_data, wants_description, ExportJobView,
    ExportRequestView, ExportStage, EXPORT_PAGE_ROWS,
};
use crate::factory::EngineKind;

verus! {

/// What the database holds of one table, as far as an export reads it.
pub struct TableContent {
    pub name: Seq<char>,
    /// The CREATE text of the table as the dump carries it.
    pub create_block: Seq<char>,
    /// The columns of the primary key, as the description of the table
    /// gives them.
    pub key_columns: Seq<Seq<char>>,
    pub columns: Seq<Seq<char>>,
    /// All rows, each as its SQL literals, in the order the engine gives them.
    pub rows: Seq<Seq<Seq<char>>>,
}

/// The names of a list of tables.
pub open spec fn table_names(tables: Seq<TableContent>) -> Seq<Seq<char>> {
    tables.map_values(|t: TableContent| t.name)
}

/// The key columns that the statements of a table are written with: those
/// of its description where the export describes its tables, and none
/// where it does not.
pub open spec fn known_keys(options: ExportJobView, table: TableContent) -> Seq<Seq<char>> {
    if wants_description(options) {
        table.key_columns
    } else {
        Seq::empty()
    }
}

/// The statements for all rows of a table: the rows are read in pages of
/// `EXPORT_PAGE_ROWS`, and every page is written in batches of its own.
pub open spec fn pages_text(
    kind: EngineKind,
    table: Seq<char>,
    columns: Seq<Seq<char>>,
    key_columns: Seq<Seq<char>>,
    rows: Seq<Seq<Seq<char>>>,
    data_mode: Seq<char>,
    max_insert_size: nat,
) -> Seq<char>
    decreases rows.len(),
{
    if rows.len() < EXPORT_PAGE_ROWS {
        page_text(kind, table, columns, key_columns, rows, data_mode, max_insert_size)
    } else {
        page_text(
            kind,
            table,
            columns,
            key_columns,
            rows.take(EXPORT_PAGE_ROWS as int),
            data_mode,
            max_insert_size,
        ) + pages_text(
            kind,
            table,
            columns,
            key_columns,
            rows.skip(EXPORT_PAGE_ROWS as int),
            data_mode,
            max_insert_size,
        )
    }
}

/// The part of a dump that one table makes: its banner, the DROP statement
/// where asked for, the CREATE text where asked for, and, unless no data is
/// exported, the statements for its rows and an empty line.
pub open spec fn table_text(options: ExportJobView, table: TableContent) -> Seq<char> {
    table_banner(table.name) + (if options.include_drop {
        drop_text(options.kind, table.name)
    } else {
        Seq::empty()
    }) + (if options.include_create {
        table.create_block
    } else {
        Seq::empty()
    }) + (if wants_data(options.data_mode) {
        pages_text(
            options.kind,
            table.name,
            table.columns,
            known_keys(options, table),
            table.rows,
            options.data_mode,
            options.max_insert_size,
        ) + "\n"@
    } else {
        Seq::empty()
    })
}

/// The dump of a list of tables: the part of each table, in order.
pub open spec fn dump_text(options: ExportJobView, tables: Seq<TableContent>) -> Seq<char>
    decreases tables.len(),
{
    if tables.len() == 0 {
        Seq::empty()
    } else {
        table_text(options, tables.first()) + dump_text(options, tables.drop_first())
    }
}

/// The row offset after all pages of a table were read.
pub open spec fn offset_after(offset: nat, rows: nat) -> nat
    decreases rows,
{
    if rows < EXPORT_PAGE_ROWS {
        offset
    } else {
        offset_after(offset + EXPORT_PAGE_ROWS as nat, (rows - EXPORT_PAGE_ROWS) as nat)
    }
}

/// Serves the page requests of the current table from `rows`, the rows that
/// no earlier page held, until a page ends the table.
pub open spec fn serve_pages(
    job: ExportJobView,
    columns: Seq<Seq<char>>,
    rows: Seq<Seq<Seq<char>>>,
) -> (ExportJobView, ExportRequestView)
    decreases rows.len(),
{
    if rows.len() < EXPORT_PAGE_ROWS {
        page_received(job, columns, rows)
    } else {
        serve_pages(
            page_received(job, columns, rows.take(EXPORT_PAGE_ROWS as int)).0,
            columns,
            rows.skip(EXPORT_PAGE_ROWS as int),
        )
    }
}

/// Serves the requests of the current table from what the database holds
/// of it: its description where that is awaited, then its rows page by page.
pub open spec fn serve_table(job: ExportJobView, table: TableContent) -> (
    ExportJobView,
    ExportRequestView,
) {
    if job.stage == ExportStage::AwaitCreate {
        let described = table_described(job, table.create_block, table.key_columns);
        if wants_data(job.data_mode) {
            serve_pages(described.0, table.columns, table.rows)
        } else {
            described
        }
    } else {
        serve_pages(job, table.columns, table.rows)
    }
}

/// Serves every request of an export from what the database holds, and
/// gives the dump that the job ends with. `tables` holds the content of
/// the job's tables, in the job's order. Serving a table always moves on to
/// a later one; the test for it lets the definition end on any job.
pub open spec fn serve(job: ExportJobView, tables: Seq<TableContent>) -> Seq<char>
    decreases job.tables.len() - job.position,
{
    if job.stage == ExportStage::Done || job.position >= job.tables.len() {
        job.output
    } else {
        let next = serve_table(job, tables[job.position as int]).0;
        if job.position < next.position <= next.tables.len() && next.tables == job.tables {
            serve(next, tables)
        } else {
            job.output
        }
    }
}

/// Opening tables keeps the options and the list of tables, never goes
/// back, and stops at a table only to await its description or its rows.
pub proof fn lemma_open_tables_moves_on(job: ExportJobView)
    requires
        job.position <= job.tables.len(),
    ensures
        ({
            let opened = open_tables(job).0;
            &&& opened.tables == job.tables
            &&& opened.kind == job.kind
            &&& opened.include_drop == job.include_drop
            &&& opened.include_create == job.include_create
            &&& opened.data_mode == job.data_mode
            &&& opened.max_insert_size == job.max_insert_size
            &&& job.position <= opened.position <= job.tables.len()
            &&& job_is_sound(opened)
            &&& opened.stage != ExportStage::AwaitTables
            &&& opened.stage == ExportStage::Done <==> opened.position == job.tables.len()
            &&& opened.stage == ExportStage::AwaitCreate ==> wants_description(opened)
            &&& opened.stage == ExportStage::AwaitPage ==> !wants_description(opened) && wants_data(
                opened.data_mode,
            ) && opened.offset == 0
        }),
    decreases job.tables.len() - job.position,
{
    if job.position < job.tables.len() && !wants_description(job) && !wants_data(job.data_mode) {
        let table = job.tables[job.position as int];
        let output = job.output + table_banner(table) + (if job.include_drop {
            drop_text(job.kind, table)
        } else {
            Seq::empty()
        });
        lemma_open_tables_moves_on(
            ExportJobView {
                output,
                key_columns: Seq::empty(),
                position: job.position + 1,
                ..job
            },
        );
    }
}

/// Serving the pages of a table writes the statements for its rows and an
/// empty line, and moves on to the next table.
pub proof fn lemma_pages_are_written(
    job: ExportJobView,
    columns: Seq<Seq<char>>,
    rows: Seq<Seq<Seq<char>>>,
)
    requires
        job.stage == ExportStage::AwaitPage,
        job.position < job.tables.len(),
    ensures
        serve_pages(job, columns, rows) == open_tables(
            ExportJobView {
                output: job.output + pages_text(
                    job.kind,
                    job.tables[job.position as int],
                    columns,
                    job.key_columns,
                    rows,
                    job.data_mode,
                    job.max_insert_size,
                ) + "\n"@,
                position: job.position + 1,
                offset: offset_after(job.offset, rows.len()),
                ..job
            },
        ),
    decreases rows.len(),
{
    let table = job.tables[job.position as int];
    if rows.len() >= EXPORT_PAGE_ROWS {
        let head = rows.take(EXPORT_PAGE_ROWS as int);
        let tail = rows.skip(EXPORT_PAGE_ROWS as int);
        let after = page_received(job, columns, head).0;
        lemma_pages_are_written(after, columns, tail);
        let head_text = page_text(
            job.kind,
            table,
            columns,
            job.key_columns,
            head,
            job.data_mode,
            job.max_insert_size,
        );
        let tail_text = pages_text(
            job.kind,
            table,
            columns,
            job.key_columns,
            tail,
            job.data_mode,
            job.max_insert_size,
        );
        assert(job.output + head_text + tail_text + "\n"@ =~= job.output + (head_text + tail_text)
            + "\n"@);
    }
}

/// The job after a table was written in full: the table's part of the dump
/// is appended, and the next table is the current one.
pub open spec fn after_table(job: ExportJobView, table: TableContent) -> ExportJobView {
    ExportJobView {
        output: job.output + table_text(job, table),
        position: job.position + 1,
        stage: if wants_data(job.data_mode) {
            ExportStage::AwaitPage
        } else if wants_description(job) {
            ExportStage::AwaitCreate
        } else {
            job.stage
        },
        offset: if wants_data(job.data_mode) {
            offset_after(0, table.rows.len())
        } else {
            job.offset
        },
        key_columns: known_keys(job, table),
        ..job
    }
}

/// A table that needs no request is written when it is opened.
proof fn lemma_table_without_requests(job: ExportJobView, content: TableContent)
    requires
        job.position < job.tables.len(),
        content.name == job.tables[job.position as int],
        !wants_description(job),
        !wants_data(job.data_mode),
    ensures
        open_tables(job) == open_tables(after_table(job, content)),
{
    let table = job.tables[job.position as int];
    let opened_output = job.output + table_banner(table) + (if job.include_drop {
        drop_text(job.kind, table)
    } else {
        Seq::empty()
    });
    assert(opened_output =~= job.output + table_text(job, content));
    let moved = ExportJobView {
        output: opened_output,
        key_columns: Seq::empty(),
        position: job.position + 1,
        ..job
    };
    assert(moved == after_table(job, content));
}

/// A table whose rows are exported without a description is written by
/// serving its pages.
proof fn lemma_table_with_data(job: ExportJobView, content: TableContent)
    requires
        job.position < job.tables.len(),
        content.name == job.tables[job.position as int],
        !wants_description(job),
        wants_data(job.data_mode),
    ensures
        open_tables(job).0.position == job.position,
        open_tables(job).0.stage == ExportStage::AwaitPage,
        serve_table(open_tables(job).0, content) == open_tables(after_table(job, content)),
{
    let table = job.tables[job.position as int];
    let opened_output = job.output + table_banner(table) + (if job.include_drop {
        drop_text(job.kind, table)
    } else {
        Seq::empty()
    });
    let paging = ExportJobView {
        output: opened_output,
        key_columns: Seq::empty(),
        stage: ExportStage::AwaitPage,
        offset: 0,
        ..job
    };
    assert(open_tables(job).0 == paging);
    lemma_pages_are_written(paging, content.columns, content.rows);
    let data = pages_text(
        job.kind,
        table,
        content.columns,
        Seq::empty(),
        content.rows,
        job.data_mode,
        job.max_insert_size,
    );
    assert(opened_output + data + "\n"@ =~= job.output + table_text(job, content));
}

/// A table that is described is written by serving its description and
/// then, where data is exported, its pages.
proof fn lemma_table_with_description(job: ExportJobView, content: TableContent)
    requires
        job.position < job.tables.len(),
        content.name == job.tables[job.position as int],
        wants_description(job),
    ensures
        open_tables(job).0.position == job.position,
        open_tables(job).0.stage == ExportStage::AwaitCreate,
        serve_table(open_tables(job).0, content) == open_tables(after_table(job, content)),
{
    let table = job.tables[job.position as int];
    let opened_output = job.output + table_banner(table) + (if job.include_drop {
        drop_text(job.kind, table)
    } else {
        Seq::empty()
    });
    let awaiting = ExportJobView {
        output: opened_output,
        key_columns: Seq::empty(),
        stage: ExportStage::AwaitCreate,
        ..job
    };
    assert(open_tables(job).0 == awaiting);
    let block: Seq<char> = if job.include_create {
        content.create_block
    } else {
        Seq::empty()
    };
    if wants_data(job.data_mode) {
        let paging = ExportJobView {
            output: opened_output + block,
            key_columns: content.key_columns,
            stage: ExportStage::AwaitPage,
            offset: 0,
            ..awaiting
        };
        assert(table_described(awaiting, content.create_block, content.key_columns).0 == paging);
        lemma_pages_are_written(paging, content.columns, content.rows);
        let data = pages_text(
            job.kind,
            table,
            content.columns,
            content.key_columns,
            content.rows,
            job.data_mode,
            job.max_insert_size,
        );
        assert(opened_output + block + data + "\n"@ =~= job.output + table_text(job, content));
    } else {
        assert(opened_output + block =~= job.output + table_text(job, content));
        let moved = ExportJobView {
            output: opened_output + block,
            key_columns: content.key_columns,
            position: job.position + 1,
            ..awaiting
        };
        assert(moved == after_table(job, content));
    }
}

/// Serving the requests of an export from what the database holds writes
/// the dump of the tables that were still to be written, after what was
/// written before. The dump depends on the options and on the content of
/// the tables alone.
pub proof fn lemma_export_writes_the_dump(job: ExportJobView, tables: Seq<TableContent>)
    requires
        job.position <= job.tables.len(),
        table_names(tables) == job.tables,
    ensures
        serve(open_tables(job).0, tables) == job.output + dump_text(
            job,
            tables.skip(job.position as int),
        ),
    decreases job.tables.len() - job.position,
{
    let rest = tables.skip(job.position as int);
    assert(tables.len() == job.tables.len());
    if job.position >= job.tables.len() {
        assert(job.output + dump_text(job, rest) =~= job.output);
    } else {
        let content = tables[job.position as int];
        assert(content.name == job.tables[job.position as int]);
        assert(rest.first() == content);
        assert(rest.drop_first() =~= tables.skip(job.position as int + 1));
        let moved = after_table(job, content);
        lemma_open_tables_moves_on(moved);
        lemma_export_writes_the_dump(moved, tables);
        lemma_dump_ignores_progress(moved, job, rest.drop_first());
        assert(moved.output + dump_text(job, rest.drop_first()) =~= job.output + dump_text(
            job,
            rest,
        ));
        if wants_description(job) {
            lemma_table_with_description(job, content);
        } else if wants_data(job.data_mode) {
            lemma_table_with_data(job, content);
        } else {
            lemma_table_without_requests(job, content);
        }
    }
}

/// An export that is served from what the database holds writes the dump
/// of its tables and nothing else: of the selected tables where some are
/// selected, else of the tables that the engine lists.
pub proof fn lemma_export_is_the_dump(
    kind: EngineKind,
    include_drop: bool,
    include_create: bool,
    data_mode: Seq<char>,
    selected_tables: Seq<Seq<char>>,
    max_insert_size: nat,
    tables: Seq<TableContent>,
)
    requires
        selected_tables.len() > 0 ==> table_names(tables) == selected_tables,
    ensures
        ({
            let begun = export_begun(
                kind,
                include_drop,
                include_create,
                data_mode,
                selected_tables,
                max_insert_size,
            ).0;
            let started = if selected_tables.len() == 0 {
                tables_received(begun, table_names(tables)).0
            } else {
                begun
            };
            serve(started, tables) == dump_text(begun, tables)
        }),
{
    let blank = ExportJobView {
        kind,
        include_drop,
        include_create,
        data_mode,
        max_insert_size,
        tables: table_names(tables),
        position: 0,
        stage: ExportStage::AwaitTables,
        offset: 0,
        key_columns: Seq::empty(),
        output: Seq::empty(),
    };
    lemma_export_writes_the_dump(blank, tables);
    assert(tables.skip(0) =~= tables);
    assert(blank.output + dump_text(blank, tables) =~= dump_text(blank, tables));
    let begun = export_begun(
        kind,
        include_drop,
        include_create,
        data_mode,
        selected_tables,
        max_insert_size,
    ).0;
    lemma_open_tables_moves_on(blank);
    lemma_dump_ignores_progress(begun, blank, tables);
}

/// The dump depends on the options of a job, and on nothing else of it: two
/// jobs of the same options write the same dump for the same tables.
pub proof fn lemma_dump_ignores_progress(
    a: ExportJobView,
    b: ExportJobView,
    tables: Seq<TableContent>,
)
    requires
        a.kind == b.kind,
        a.include_drop == b.include_drop,
        a.include_create == b.include_create,
        a.data_mode == b.data_mode,
        a.max_insert_size == b.max_insert_size,
    ensures
        dump_text(a, tables) == dump_text(b, tables),
    decreases tables.len(),
{
    if tables.len() > 0 {
        lemma_dump_ignores_progress(a, b, tables.drop_first());
    }
}

} // verus!
