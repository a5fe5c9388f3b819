use crate::api::{
    build_admin_expr, is_success, is_success_code, AdminExpr, AdminRequest, AdminResponse,
    AdminResult, AdminResultKind, AlterExpr, CreateDatabaseExpr, CreateExpr, DropTableExpr, Expr,
    ExprHeader,
};
use crate::error::Error;
use crate::output::Output;
use vstd::prelude::*;
use vstd::string::*;

verus! {

/// A client of a remote node's administrative service. It names the
/// administrative session and stamps its protocol version on every
/// expression; the transport that carries its requests lives with the caller.
#[derive(Debug, Clone, PartialEq, Eq)]
pub struct Admin {
    name: String,
    protocol_version: u32,
}

/// The outcome of a batch whose request held `expected` expressions: the
/// results, when there is exactly one per expression.
pub open spec fn batch_outcome(expected: nat, resp: AdminResponse) -> Result<
    Vec<AdminResult>,
    Error,
> {
    if resp.results@.len() == expected {
        Ok(resp.results)
    } else {
        Err(
            Error::CountMismatch {
                expected: expected as usize,
                actual: resp.results@.len() as usize,
            },
        )
    }
}

/// The outcome of a single-expression call: its one result.
pub open spec fn single_outcome(resp: AdminResponse) -> Result<AdminResult, Error> {
    if resp.results@.len() == 1 {
        Ok(resp.results@[0])
    } else {
        Err(Error::CountMismatch { expected: 1, actual: resp.results@.len() as usize })
    }
}

/// Whether `r` is what decoding `admin_result` gives: a missing header, a
/// failure status, a missing payload and a non-zero failure count are each an
/// error, checked in that order; otherwise the success count of rows.
pub open spec fn decodes_to(admin_result: AdminResult, r: Result<Output, Error>) -> bool {
    match admin_result.header {
        None => r == Err::<Output, Error>(Error::MissingHeader),
        Some(header) => if !is_success_code(header.code) {
            r == Err::<Output, Error>(Error::OperationFailed { code: header.code, msg: header.err_msg })
        } else {
            match admin_result.result {
                None => r matches Err(Error::MissingResult { name, expected, actual })
                    && name@ == "result"@ && expected == 1 && actual == 0,
                Some(AdminResultKind::Mutate(mutate)) => if mutate.failure != 0 {
                    r == Err::<Output, Error>(Error::MutateFailure { failure: mutate.failure })
                } else {
                    r == Ok::<Output, Error>(Output::AffectedRows(mutate.success as usize))
                },
            }
        },
    }
}

/// A batch that has been built and waits for its response.
#[derive(Debug, Clone, PartialEq, Eq)]
pub struct BatchCall {
    request: AdminRequest,
    expected: usize,
}

impl BatchCall {
    /// The request to send.
    pub closed spec fn spec_request(&self) -> AdminRequest {
        self.request
    }

    /// How many results the response must hold.
    pub closed spec fn expected_count(&self) -> nat {
        self.expected as nat
    }

    /// The request to send.
    pub fn request(&self) -> (r: &AdminRequest)
        ensures
            *r == self.spec_request(),
    {
        &self.request
    }

    /// Checks the response against the request: one result per expression,
    /// in order, or a count mismatch.
    pub fn finish(self, resp: AdminResponse) -> (r: Result<Vec<AdminResult>, Error>)
        ensures
            r == batch_outcome(self.expected_count(), resp),
    {
        let results = resp.results;
        if results.len() == self.expected {
            Ok(results)
        } else {
            Err(Error::CountMismatch { expected: self.expected, actual: results.len() })
        }
    }
}

/// A single-expression batch that waits for its response.
#[derive(Debug, PartialEq, Eq)]
pub struct SingleCall {
    batch: BatchCall,
}

impl SingleCall {
    /// A single call's batch holds exactly one expression.
    #[verifier::type_invariant]
    spec fn inv(&self) -> bool {
        self.batch.expected == 1
    }

    /// The request to send.
    pub closed spec fn spec_request(&self) -> AdminRequest {
        self.batch.request
    }

    /// The request to send.
    pub fn request(&self) -> (r: &AdminRequest)
        ensures
            *r == self.spec_request(),
    {
        &self.batch.request
    }

    /// Checks the response and takes out its one result.
    pub fn finish(self, resp: AdminResponse) -> (r: Result<AdminResult, Error>)
        ensures
            r == single_outcome(resp),
    {
        proof {
            use_type_invariant(&self);
        }
        match self.batch.finish(resp) {
            Ok(results) => {
                let mut results = results;
                // one result per expression, and the batch holds one
                Ok(results.remove(0))
            },
            Err(e) => Err(e),
        }
    }
}

/// The envelope that a client of `version` puts around `expr`.
pub open spec fn enveloped(version: u32, expr: Expr) -> AdminExpr {
    AdminExpr { header: Some(ExprHeader { version }), expr: Some(expr) }
}

impl Admin {
    /// The administrative session name.
    pub closed spec fn spec_name(&self) -> Seq<char> {
        self.name@
    }

    /// The protocol version stamped on each expression.
    pub closed spec fn spec_version(&self) -> u32 {
        self.protocol_version
    }

    pub fn new(name: String, protocol_version: u32) -> (r: Admin)
        ensures
            r.spec_name() == name@,
            r.spec_version() == protocol_version,
    {
        Admin { name, protocol_version }
    }

    /// Builds the request for a batch of expressions; the call then expects
    /// one result per expression.
    pub fn do_requests(&self, exprs: Vec<AdminExpr>) -> (r: BatchCall)
        ensures
            r.spec_request().name@ == self.spec_name(),
            r.spec_request().exprs == exprs,
            r.expected_count() == exprs@.len(),
    {
        let expected = exprs.len();
        BatchCall { request: AdminRequest { name: self.name.clone(), exprs }, expected }
    }

    /// Builds the request for one expression.
    pub fn do_request(&self, expr: AdminExpr) -> (r: SingleCall)
        ensures
            r.spec_request().name@ == self.spec_name(),
            r.spec_request().exprs@ == seq![expr],
    {
        let batch = self.do_requests(vec![expr]);
        assert(batch.spec_request().exprs@ =~= seq![expr]);
        SingleCall { batch }
    }

    /// Builds the request that creates a table.
    pub fn create(&self, expr: CreateExpr) -> (r: SingleCall)
        ensures
            r.spec_request().name@ == self.spec_name(),
            r.spec_request().exprs@ == seq![enveloped(self.spec_version(), Expr::Create(expr))],
    {
        self.do_request(build_admin_expr(self.protocol_version, Expr::Create(expr)))
    }

    /// Builds the request that alters a table.
    pub fn alter(&self, expr: AlterExpr) -> (r: SingleCall)
        ensures
            r.spec_request().name@ == self.spec_name(),
            r.spec_request().exprs@ == seq![enveloped(self.spec_version(), Expr::Alter(expr))],
    {
        self.do_request(build_admin_expr(self.protocol_version, Expr::Alter(expr)))
    }

    /// Builds the request that drops a table.
    pub fn drop_table(&self, expr: DropTableExpr) -> (r: SingleCall)
        ensures
            r.spec_request().name@ == self.spec_name(),
            r.spec_request().exprs@ == seq![
                enveloped(self.spec_version(), Expr::DropTable(expr)),
            ],
    {
        self.do_request(build_admin_expr(self.protocol_version, Expr::DropTable(expr)))
    }

    /// Builds the request that creates a database.
    pub fn create_database(&self, expr: CreateDatabaseExpr) -> (r: SingleCall)
        ensures
            r.spec_request().name@ == self.spec_name(),
            r.spec_request().exprs@ == seq![
                enveloped(self.spec_version(), Expr::CreateDatabase(expr)),
            ],
    {
        self.do_request(build_admin_expr(self.protocol_version, Expr::CreateDatabase(expr)))
    }
}

/// Decodes one administrative result into the rows it affected, or the error
/// that it reports or that its shape shows.
pub fn admin_result_to_output(admin_result: AdminResult) -> (r: Result<Output, Error>)
    ensures
        decodes_to(admin_result, r),
{
    let header = match admin_result.header {
        Some(header) => header,
        None => return Err(Error::MissingHeader),
    };
    if !is_success(header.code) {
        return Err(Error::OperationFailed { code: header.code, msg: header.err_msg });
    }
    let result = match admin_result.result {
        Some(result) => result,
        None => {
            return Err(
                Error::MissingResult { name: String::from_str("result"), expected: 1, actual: 0 },
            );
        },
    };
    match result {
        AdminResultKind::Mutate(mutate) => {
            if mutate.failure != 0 {
                return Err(Error::MutateFailure { failure: mutate.failure });
            }
            Ok(Output::AffectedRows(mutate.success as usize))
        },
    }
}

/// A batch of one or more expressions whose response holds another number of
/// results fails with a count mismatch that carries both counts.
pub proof fn lemma_count_mismatch_fails(exprs: Seq<AdminExpr>, resp: AdminResponse)
    requires
        exprs.len() > 0,
        resp.results@.len() != exprs.len(),
    ensures
        batch_outcome(exprs.len(), resp) == Err::<Vec<AdminResult>, Error>(
            Error::CountMismatch {
                expected: exprs.len() as usize,
                actual: resp.results@.len() as usize,
            },
        ),
{
}

/// For a single-expression call whose response holds one result, the call
/// yields that result, and what it decodes to is what that result decodes to.
pub proof fn lemma_single_call_decodes_its_result(resp: AdminResponse, r: Result<Output, Error>)
    requires
        resp.results@.len() == 1,
    ensures
        single_outcome(resp) == Ok::<AdminResult, Error>(resp.results@[0]),
        decodes_to(single_outcome(resp)->Ok_0, r) == decodes_to(resp.results@[0], r),
{
}

/// A non-zero failure count is an error even under a success status, whatever
/// the success count.
pub proof fn lemma_mutate_failure_wins(admin_result: AdminResult, r: Result<Output, Error>)
    requires
        admin_result.header matches Some(header) && is_success_code(header.code),
        admin_result.result matches Some(AdminResultKind::Mutate(mutate)) && mutate.failure != 0,
    ensures
        decodes_to(admin_result, r) <==> r == Err::<Output, Error>(
            Error::MutateFailure { failure: admin_result.result->Some_0->Mutate_0.failure },
        ),
{
}

/// A failure status is reported with its code and message verbatim, whether
/// or not a payload is present.
pub proof fn lemma_failure_status_wins(admin_result: AdminResult, r: Result<Output, Error>)
    requires
        admin_result.header matches Some(header) && !is_success_code(header.code),
    ensures
        decodes_to(admin_result, r) <==> r == Err::<Output, Error>(
            Error::OperationFailed {
                code: admin_result.header->Some_0.code,
                msg: admin_result.header->Some_0.err_msg,
            },
        ),
{
}

/// A successful result without a payload fails with a missing result named
/// `result`, one expected and none present.
pub proof fn lemma_missing_payload_fails(admin_result: AdminResult, r: Result<Output, Error>)
    requires
        admin_result.header matches Some(header) && is_success_code(header.code),
        admin_result.result is None,
    ensures
        decodes_to(admin_result, r) <==> (r matches Err(Error::MissingResult { name, expected, actual })
            && name@ == "result"@ && expected == 1 && actual == 0),
{
}

} // verus!
