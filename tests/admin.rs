use ddl_admin::admin::{admin_result_to_output, Admin};
use ddl_admin::api::{
    build_admin_expr, is_success, AdminExpr, AdminResponse, AdminResult, AdminResultKind,
    AlterExpr, AlterKind, ColumnDef, CreateDatabaseExpr, CreateExpr, DropTableExpr, Expr,
    ExprHeader, MutateResult, ResultHeader, PROTOCOL_VERSION,
};
use ddl_admin::error::Error;
use ddl_admin::output::Output;

fn header(code: u32, msg: &str) -> Option<ResultHeader> {
    Some(ResultHeader { version: PROTOCOL_VERSION, code, err_msg: msg.to_string() })
}

fn mutate(success: u32, failure: u32) -> Option<AdminResultKind> {
    Some(AdminResultKind::Mutate(MutateResult { success, failure }))
}

fn ok_result(success: u32) -> AdminResult {
    AdminResult { header: header(0, ""), result: mutate(success, 0) }
}

fn create_expr() -> CreateExpr {
    CreateExpr {
        catalog_name: None,
        schema_name: None,
        table_name: "demo".to_string(),
        column_defs: vec![ColumnDef {
            name: "ts".to_string(),
            datatype: 15,
            is_nullable: false,
        }],
        time_index: "ts".to_string(),
        primary_keys: vec![],
        create_if_not_exists: true,
    }
}

fn drop_expr() -> DropTableExpr {
    DropTableExpr {
        catalog_name: "greptime".to_string(),
        schema_name: "public".to_string(),
        table_name: "demo".to_string(),
    }
}

#[test]
fn decode_success_counts_rows() {
    let r = admin_result_to_output(AdminResult { header: header(0, ""), result: mutate(5, 0) });
    assert_eq!(r, Ok(Output::AffectedRows(5)));
}

#[test]
fn decode_failure_count_is_an_error() {
    for success in [0u32, 3, 5, u32::MAX] {
        let r = admin_result_to_output(AdminResult {
            header: header(0, ""),
            result: mutate(success, 2),
        });
        assert_eq!(r, Err(Error::MutateFailure { failure: 2 }));
    }
}

#[test]
fn decode_failure_status_is_reported_verbatim() {
    let r = admin_result_to_output(AdminResult {
        header: header(1003, "table not found"),
        result: mutate(5, 0),
    });
    assert_eq!(
        r,
        Err(Error::OperationFailed { code: 1003, msg: "table not found".to_string() })
    );
    let r = admin_result_to_output(AdminResult { header: header(4000, "bad"), result: None });
    assert_eq!(r, Err(Error::OperationFailed { code: 4000, msg: "bad".to_string() }));
}

#[test]
fn decode_missing_payload() {
    let r = admin_result_to_output(AdminResult { header: header(0, ""), result: None });
    assert_eq!(
        r,
        Err(Error::MissingResult { name: "result".to_string(), expected: 1, actual: 0 })
    );
}

#[test]
fn decode_missing_header() {
    let r = admin_result_to_output(AdminResult { header: None, result: mutate(5, 0) });
    assert_eq!(r, Err(Error::MissingHeader));
    let r = admin_result_to_output(AdminResult { header: None, result: None });
    assert_eq!(r, Err(Error::MissingHeader));
}

#[test]
fn decode_large_success_count() {
    let r = admin_result_to_output(ok_result(u32::MAX));
    assert_eq!(r, Ok(Output::AffectedRows(u32::MAX as usize)));
}

#[test]
fn success_code_is_zero() {
    assert!(is_success(0));
    assert!(!is_success(1000));
}

#[test]
fn envelope_carries_version() {
    let e = build_admin_expr(7, Expr::DropTable(drop_expr()));
    assert_eq!(e.header, Some(ExprHeader { version: 7 }));
    assert_eq!(e.expr, Some(Expr::DropTable(drop_expr())));
}

#[test]
fn batch_count_mismatch_fails() {
    let admin = Admin::new("admin".to_string(), PROTOCOL_VERSION);
    let exprs: Vec<AdminExpr> = vec![
        build_admin_expr(PROTOCOL_VERSION, Expr::Create(create_expr())),
        build_admin_expr(PROTOCOL_VERSION, Expr::DropTable(drop_expr())),
    ];
    let call = admin.do_requests(exprs.clone());
    assert_eq!(call.request().name, "admin");
    assert_eq!(call.request().exprs, exprs);
    let r = call.finish(AdminResponse { results: vec![ok_result(1)] });
    assert_eq!(r, Err(Error::CountMismatch { expected: 2, actual: 1 }));

    let call = admin.do_requests(exprs.clone());
    let r = call.finish(AdminResponse { results: vec![ok_result(1), ok_result(2), ok_result(3)] });
    assert_eq!(r, Err(Error::CountMismatch { expected: 2, actual: 3 }));
}

#[test]
fn batch_keeps_results_in_order() {
    let admin = Admin::new("admin".to_string(), PROTOCOL_VERSION);
    let exprs = vec![
        build_admin_expr(PROTOCOL_VERSION, Expr::Create(create_expr())),
        build_admin_expr(PROTOCOL_VERSION, Expr::DropTable(drop_expr())),
    ];
    let call = admin.do_requests(exprs);
    let r = call.finish(AdminResponse { results: vec![ok_result(1), ok_result(2)] });
    assert_eq!(r, Ok(vec![ok_result(1), ok_result(2)]));
}

#[test]
fn single_call_yields_its_result() {
    let admin = Admin::new("admin".to_string(), PROTOCOL_VERSION);
    let call = admin.create(create_expr());
    let expected = AdminResult { header: header(0, ""), result: mutate(3, 0) };
    let r = call.finish(AdminResponse { results: vec![expected.clone()] });
    assert_eq!(r, Ok(expected));
    assert_eq!(admin_result_to_output(r.unwrap()), Ok(Output::AffectedRows(3)));
}

#[test]
fn single_call_rejects_empty_response() {
    let admin = Admin::new("admin".to_string(), PROTOCOL_VERSION);
    let call = admin.drop_table(drop_expr());
    let r = call.finish(AdminResponse { results: vec![] });
    assert_eq!(r, Err(Error::CountMismatch { expected: 1, actual: 0 }));
    let call = admin.create_database(CreateDatabaseExpr { database_name: "db".to_string() });
    let r = call.finish(AdminResponse { results: vec![ok_result(1), ok_result(1)] });
    assert_eq!(r, Err(Error::CountMismatch { expected: 1, actual: 2 }));
}

#[test]
fn single_calls_wrap_their_payloads() {
    let admin = Admin::new("ddl".to_string(), 3);
    let alter = AlterExpr {
        catalog_name: None,
        schema_name: Some("public".to_string()),
        table_name: "demo".to_string(),
        kind: Some(AlterKind::DropColumns(vec!["cpu".to_string()])),
    };
    let db = CreateDatabaseExpr { database_name: "db".to_string() };
    let header = Some(ExprHeader { version: 3 });

    let call = admin.create(create_expr());
    assert_eq!(call.request().name, "ddl");
    assert_eq!(
        call.request().exprs,
        vec![AdminExpr { header, expr: Some(Expr::Create(create_expr())) }]
    );
    let call = admin.alter(alter.clone());
    assert_eq!(call.request().exprs, vec![AdminExpr { header, expr: Some(Expr::Alter(alter)) }]);
    let call = admin.drop_table(drop_expr());
    assert_eq!(
        call.request().exprs,
        vec![AdminExpr { header, expr: Some(Expr::DropTable(drop_expr())) }]
    );
    let call = admin.create_database(db.clone());
    assert_eq!(
        call.request().exprs,
        vec![AdminExpr { header, expr: Some(Expr::CreateDatabase(db)) }]
    );
    let call = admin.do_request(build_admin_expr(3, Expr::DropTable(drop_expr())));
    assert_eq!(call.request().exprs.len(), 1);
}
