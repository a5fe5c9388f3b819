use vstd::prelude::*;

verus! {

/// The protocol version that a client writes into every expression it sends.
pub const PROTOCOL_VERSION: u32 = 1;

/// The status code that marks a successful remote operation.
pub const STATUS_SUCCESS: u32 = 0;

/// Whether a remote status code denotes success.
pub open spec fn is_success_code(code: u32) -> bool {
    code == STATUS_SUCCESS
}

/// Tests a remote status code for success.
pub fn is_success(code: u32) -> (r: bool)
    ensures
        r == is_success_code(code),
{
    code == STATUS_SUCCESS
}

/// The envelope header of an administrative expression.
#[derive(Debug, Clone, Copy, PartialEq, Eq)]
pub struct ExprHeader {
    pub version: u32,
}

/// A column of a table schema.
#[derive(Debug, Clone, PartialEq, Eq)]
pub struct ColumnDef {
    pub name: String,
    pub datatype: i32,
    pub is_nullable: bool,
}

/// Creates a table.
#[derive(Debug, Clone, PartialEq, Eq)]
pub struct CreateExpr {
    pub catalog_name: Option<String>,
    pub schema_name: Option<String>,
    pub table_name: String,
    pub column_defs: Vec<ColumnDef>,
    pub time_index: String,
    pub primary_keys: Vec<String>,
    pub create_if_not_exists: bool,
}

/// The schema change of an alter-table expression.
#[derive(Debug, Clone, PartialEq, Eq)]
pub enum AlterKind {
    AddColumns(Vec<ColumnDef>),
    DropColumns(Vec<String>),
}

/// Alters a table.
#[derive(Debug, Clone, PartialEq, Eq)]
pub struct AlterExpr {
    pub catalog_name: Option<String>,
    pub schema_name: Option<String>,
    pub table_name: String,
    pub kind: Option<AlterKind>,
}

/// Drops a table.
#[derive(Debug, Clone, PartialEq, Eq)]
pub struct DropTableExpr {
    pub catalog_name: String,
    pub schema_name: String,
    pub table_name: String,
}

/// Creates a database.
#[derive(Debug, Clone, PartialEq, Eq)]
pub struct CreateDatabaseExpr {
    pub database_name: String,
}

/// The operation that an administrative expression carries.
#[derive(Debug, Clone, PartialEq, Eq)]
pub enum Expr {
    Create(CreateExpr),
    Alter(AlterExpr),
    DropTable(DropTableExpr),
    CreateDatabase(CreateDatabaseExpr),
}

/// One administrative expression in its wire envelope.
#[derive(Debug, Clone, PartialEq, Eq)]
pub struct AdminExpr {
    pub header: Option<ExprHeader>,
    pub expr: Option<Expr>,
}

/// A named batch of administrative expressions, sent as one request.
#[derive(Debug, Clone, PartialEq, Eq)]
pub struct AdminRequest {
    pub name: String,
    pub exprs: Vec<AdminExpr>,
}

/// The status header of one administrative result.
#[derive(Debug, Clone, PartialEq, Eq)]
pub struct ResultHeader {
    pub version: u32,
    pub code: u32,
    pub err_msg: String,
}

/// The outcome of a mutating operation.
#[derive(Debug, Clone, Copy, PartialEq, Eq)]
pub struct MutateResult {
    pub success: u32,
    pub failure: u32,
}

/// The operation-specific outcome of one administrative result.
#[derive(Debug, Clone, Copy, PartialEq, Eq)]
pub enum AdminResultKind {
    Mutate(MutateResult),
}

/// The outcome of one administrative expression.
#[derive(Debug, Clone, PartialEq, Eq)]
pub struct AdminResult {
    pub header: Option<ResultHeader>,
    pub result: Option<AdminResultKind>,
}

/// The results of a batch, one per expression, in the order of the request.
#[derive(Debug, Clone, PartialEq, Eq)]
pub struct AdminResponse {
    pub results: Vec<AdminResult>,
}

/// Wraps a DDL operation in an envelope of the given protocol version.
pub fn build_admin_expr(version: u32, expr: Expr) -> (r: AdminExpr)
    ensures
        r == (AdminExpr { header: Some(ExprHeader { version }), expr: Some(expr) }),
{
    AdminExpr { header: Some(ExprHeader { version }), expr: Some(expr) }
}

} // verus!
