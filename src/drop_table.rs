use crate::output::Output;
use vstd::prelude::*;
use vstd::string::*;

verus! {

/// A parsed `DROP TABLE` statement.
#[derive(Debug, Clone, PartialEq, Eq)]
pub struct DropTable {
    pub catalog_name: String,
    pub schema_name: String,
    pub table_name: String,
}

/// The fully qualified table that a data node is asked to drop.
#[derive(Debug, Clone, PartialEq, Eq)]
pub struct DropTableRequest {
    pub catalog_name: String,
    pub schema_name: String,
    pub table_name: String,
}

/// The catalog-facing form of a drop: the table to remove from the catalog.
#[derive(Debug, Clone, PartialEq, Eq)]
pub struct DeregisterTableRequest {
    pub catalog: String,
    pub schema: String,
    pub table_name: String,
}

/// The execution context handed to the table engine.
#[derive(Debug, Clone, Copy, PartialEq, Eq)]
pub struct EngineContext {}

/// An error reported by the catalog or by the table engine.
#[derive(Debug, Clone, PartialEq, Eq)]
pub struct BoxedError {
    pub status_code: u32,
    pub msg: String,
}

/// The collaborator whose step of a drop failed, with its error.
#[derive(Debug, Clone, PartialEq, Eq)]
pub enum DropTableSource {
    Catalog(BoxedError),
    Engine(BoxedError),
}

/// A failed drop, annotated with the fully qualified table name.
#[derive(Debug, Clone, PartialEq, Eq)]
pub struct DropTableError {
    pub table_name: String,
    pub source: DropTableSource,
}

/// The name `catalog.schema.table` of a table.
pub open spec fn full_table_name(catalog: Seq<char>, schema: Seq<char>, table: Seq<char>) -> Seq<
    char,
> {
    catalog + seq!['.'] + schema + seq!['.'] + table
}

/// Writes the fully qualified name of a table.
pub fn table_full_name(catalog: &str, schema: &str, table: &str) -> (r: String)
    ensures
        r@ == full_table_name(catalog@, schema@, table@),
{
    proof {
        reveal_strlit(".");
    }
    let name = String::from_str(catalog).concat(".").concat(schema).concat(".").concat(table);
    assert(name@ =~= full_table_name(catalog@, schema@, table@));
    name
}

/// Where a drop-table procedure stands.
#[derive(Debug, Clone, PartialEq, Eq)]
pub enum DropTableProcedure {
    /// The catalog has been asked to deregister the table.
    Deregistering { req: DropTableRequest, table_full_name: String },
    /// The table engine has been asked to drop the table.
    DroppingTable { table_full_name: String },
    /// The outcome has been reported.
    Finished,
}

/// What the procedure asks its driver to do next.
#[derive(Debug, PartialEq, Eq)]
pub enum DropTableAction {
    /// Remove the table from the catalog.
    DeregisterTable(DeregisterTableRequest),
    /// Release the table's physical data in the table engine.
    DropTable(EngineContext, DropTableRequest),
    /// Report the outcome of the drop.
    Finish(Result<Output, DropTableError>),
}

/// What the driver reports back to the procedure.
#[derive(Debug, PartialEq, Eq)]
pub enum DropTableEvent {
    /// The catalog answered the deregistration.
    Deregistered(Result<(), BoxedError>),
    /// The table engine answered the drop.
    TableDropped(Result<(), BoxedError>),
}

impl DropTableProcedure {
    /// Whether the procedure is waiting for this kind of event.
    pub open spec fn awaits(self, event: DropTableEvent) -> bool {
        match (self, event) {
            (DropTableProcedure::Deregistering { .. }, DropTableEvent::Deregistered(_)) => true,
            (DropTableProcedure::DroppingTable { .. }, DropTableEvent::TableDropped(_)) => true,
            _ => false,
        }
    }

    /// The next state and action once `event` arrives: a failure of either
    /// collaborator ends the procedure with that error, annotated with the
    /// table name; the engine is asked only after the catalog succeeded.
    pub open spec fn step(self, event: DropTableEvent) -> (DropTableProcedure, DropTableAction)
        recommends
            self.awaits(event),
    {
        match (self, event) {
            (
                DropTableProcedure::Deregistering { req, table_full_name },
                DropTableEvent::Deregistered(outcome),
            ) => match outcome {
                Ok(()) => (
                    DropTableProcedure::DroppingTable { table_full_name },
                    DropTableAction::DropTable(EngineContext {  }, req),
                ),
                Err(e) => (
                    DropTableProcedure::Finished,
                    DropTableAction::Finish(
                        Err(
                            DropTableError {
                                table_name: table_full_name,
                                source: DropTableSource::Catalog(e),
                            },
                        ),
                    ),
                ),
            },
            (
                DropTableProcedure::DroppingTable { table_full_name },
                DropTableEvent::TableDropped(outcome),
            ) => match outcome {
                Ok(()) => (
                    DropTableProcedure::Finished,
                    DropTableAction::Finish(Ok(Output::AffectedRows(1))),
                ),
                Err(e) => (
                    DropTableProcedure::Finished,
                    DropTableAction::Finish(
                        Err(
                            DropTableError {
                                table_name: table_full_name,
                                source: DropTableSource::Engine(e),
                            },
                        ),
                    ),
                ),
            },
            _ => arbitrary(),
        }
    }

    /// Moves the procedure on by one event.
    pub fn handle(self, event: DropTableEvent) -> (r: (DropTableProcedure, DropTableAction))
        requires
            self.awaits(event),
        ensures
            r == self.step(event),
    {
        match (self, event) {
            (
                DropTableProcedure::Deregistering { req, table_full_name },
                DropTableEvent::Deregistered(outcome),
            ) => match outcome {
                Ok(()) => (
                    DropTableProcedure::DroppingTable { table_full_name },
                    DropTableAction::DropTable(EngineContext {  }, req),
                ),
                Err(e) => (
                    DropTableProcedure::Finished,
                    DropTableAction::Finish(
                        Err(
                            DropTableError {
                                table_name: table_full_name,
                                source: DropTableSource::Catalog(e),
                            },
                        ),
                    ),
                ),
            },
            (
                DropTableProcedure::DroppingTable { table_full_name },
                DropTableEvent::TableDropped(outcome),
            ) => match outcome {
                Ok(()) => (
                    DropTableProcedure::Finished,
                    DropTableAction::Finish(Ok(Output::AffectedRows(1))),
                ),
                Err(e) => (
                    DropTableProcedure::Finished,
                    DropTableAction::Finish(
                        Err(
                            DropTableError {
                                table_name: table_full_name,
                                source: DropTableSource::Engine(e),
                            },
                        ),
                    ),
                ),
            },
            _ => unreached(),
        }
    }
}

/// The actions that a procedure issues while the events arrive in turn; it
/// stops at the first event that it does not wait for.
pub open spec fn actions(p: DropTableProcedure, events: Seq<DropTableEvent>) -> Seq<
    DropTableAction,
>
    decreases events.len(),
{
    if events.len() == 0 || !p.awaits(events[0]) {
        seq![]
    } else {
        let (q, a) = p.step(events[0]);
        seq![a] + actions(q, events.drop_first())
    }
}

/// How many of the actions ask the table engine to drop a table.
pub open spec fn engine_calls(acts: Seq<DropTableAction>) -> nat
    decreases acts.len(),
{
    if acts.len() == 0 {
        0
    } else {
        (if acts[0] is DropTable {
            1nat
        } else {
            0nat
        }) + engine_calls(acts.drop_first())
    }
}

/// How many of the actions ask the catalog for a change.
pub open spec fn catalog_calls(acts: Seq<DropTableAction>) -> nat
    decreases acts.len(),
{
    if acts.len() == 0 {
        0
    } else {
        (if acts[0] is DeregisterTable {
            1nat
        } else {
            0nat
        }) + catalog_calls(acts.drop_first())
    }
}

/// A finished procedure issues no further action, whatever arrives.
pub proof fn lemma_finished_is_silent(events: Seq<DropTableEvent>)
    ensures
        actions(DropTableProcedure::Finished, events) == Seq::<DropTableAction>::empty(),
{
}

/// When the catalog fails to deregister the table, the table engine is
/// never asked to drop it: the procedure reports the catalog's error,
/// annotated with the table name, and issues nothing more.
pub proof fn lemma_failed_deregistration_skips_engine(
    p: DropTableProcedure,
    e: BoxedError,
    events: Seq<DropTableEvent>,
)
    requires
        p is Deregistering,
        events.len() > 0,
        events[0] == DropTableEvent::Deregistered(Err(e)),
    ensures
        actions(p, events) == seq![
            DropTableAction::Finish(
                Err(
                    DropTableError {
                        table_name: p->Deregistering_table_full_name,
                        source: DropTableSource::Catalog(e),
                    },
                ),
            ),
        ],
        engine_calls(actions(p, events)) == 0,
{
    lemma_finished_is_silent(events.drop_first());
    let acts = actions(p, events);
    assert(acts.drop_first() =~= Seq::<DropTableAction>::empty());
    reveal_with_fuel(engine_calls, 2);
}

/// When the catalog deregisters the table and the table engine then fails,
/// the procedure reports the engine's error, annotated with the table name,
/// and asks nothing more of the catalog: the table stays deregistered.
pub proof fn lemma_failed_engine_drop_keeps_deregistration(
    p: DropTableProcedure,
    e: BoxedError,
    events: Seq<DropTableEvent>,
)
    requires
        p is Deregistering,
        events.len() >= 2,
        events[0] == DropTableEvent::Deregistered(Ok(())),
        events[1] == DropTableEvent::TableDropped(Err(e)),
    ensures
        actions(p, events) == seq![
            DropTableAction::DropTable(EngineContext {  }, p->req),
            DropTableAction::Finish(
                Err(
                    DropTableError {
                        table_name: p->Deregistering_table_full_name,
                        source: DropTableSource::Engine(e),
                    },
                ),
            ),
        ],
        catalog_calls(actions(p, events)) == 0,
{
    let rest = events.drop_first();
    assert(rest[0] == events[1]);
    lemma_finished_is_silent(rest.drop_first());
    let q = p.step(events[0]).0;
    let acts = actions(p, events);
    assert(actions(q, rest) =~= seq![p.step(events[0]).0.step(rest[0]).1]);
    assert(acts =~= seq![p.step(events[0]).1, q.step(rest[0]).1]);
    assert(acts.drop_first().drop_first() =~= Seq::<DropTableAction>::empty());
    reveal_with_fuel(catalog_calls, 3);
}

/// When both collaborators succeed, the procedure asks the engine once and
/// reports exactly one affected row.
pub proof fn lemma_successful_drop_reports_one_row(
    p: DropTableProcedure,
    events: Seq<DropTableEvent>,
)
    requires
        p is Deregistering,
        events.len() >= 2,
        events[0] == DropTableEvent::Deregistered(Ok(())),
        events[1] == DropTableEvent::TableDropped(Ok(())),
    ensures
        actions(p, events) == seq![
            DropTableAction::DropTable(EngineContext {  }, p->req),
            DropTableAction::Finish(Ok(Output::AffectedRows(1))),
        ],
        engine_calls(actions(p, events)) == 1,
{
    let rest = events.drop_first();
    assert(rest[0] == events[1]);
    lemma_finished_is_silent(rest.drop_first());
    let q = p.step(events[0]).0;
    let acts = actions(p, events);
    assert(actions(q, rest) =~= seq![q.step(rest[0]).1]);
    assert(acts =~= seq![p.step(events[0]).1, q.step(rest[0]).1]);
    assert(acts.drop_first().drop_first() =~= Seq::<DropTableAction>::empty());
    reveal_with_fuel(engine_calls, 3);
}

/// Runs the data node's SQL statements against its catalog and table engine.
#[derive(Debug, Clone, Copy, PartialEq, Eq)]
pub struct SqlHandler {}

impl SqlHandler {
    pub fn new() -> (r: SqlHandler) {
        SqlHandler {  }
    }

    /// Starts dropping the table of `req`: the procedure first asks the
    /// catalog to deregister the table, and waits for its answer.
    pub fn drop_table(&self, req: DropTableRequest) -> (r: (DropTableProcedure, DropTableAction))
        ensures
            r.0 matches DropTableProcedure::Deregistering { req: kept, table_full_name }
                && kept == req && table_full_name@ == full_table_name(
                req.catalog_name@,
                req.schema_name@,
                req.table_name@,
            ),
            r.1 == DropTableAction::DeregisterTable(
                DeregisterTableRequest {
                    catalog: req.catalog_name,
                    schema: req.schema_name,
                    table_name: req.table_name,
                },
            ),
    {
        let deregister_table_req = DeregisterTableRequest {
            catalog: req.catalog_name.clone(),
            schema: req.schema_name.clone(),
            table_name: req.table_name.clone(),
        };
        let table_full_name = table_full_name(
            req.catalog_name.as_str(),
            req.schema_name.as_str(),
            req.table_name.as_str(),
        );
        (
            DropTableProcedure::Deregistering { req, table_full_name },
            DropTableAction::DeregisterTable(deregister_table_req),
        )
    }

    /// The drop request of a parsed `DROP TABLE` statement.
    pub fn drop_table_to_request(&self, drop_table: DropTable) -> (r: DropTableRequest)
        ensures
            r == (DropTableRequest {
                catalog_name: drop_table.catalog_name,
                schema_name: drop_table.schema_name,
                table_name: drop_table.table_name,
            }),
    {
        DropTableRequest {
            catalog_name: drop_table.catalog_name,
            schema_name: drop_table.schema_name,
            table_name: drop_table.table_name,
        }
    }
}

} // verus!
