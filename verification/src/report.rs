use vstd::prelude::*;
use crate::error::{clone_or_empty, text_or_empty, Error, ErrorView};
use crate::response::CaptchaResponse;
use crate::solution::{Solution, Status};
use crate::form::{pairs_view, push_field};
use crate::solver::{content_string, content_text};
use crate::task_id::{decimal_text, format_task_id};

verus! {

/// One message to the report endpoint: which task, and what is said of it.
#[derive(Debug, Clone, PartialEq, Eq)]
pub struct ReportRequest {
    pub task_id: u64,
    pub action: String,
}

/// The word under which the report endpoint knows a verdict.
pub open spec fn report_action(status: Status) -> Seq<char> {
    match status {
        Status::Correct => "reportgood"@,
        Status::Incorrect => "reportbad"@,
    }
}

/// Makes the report about a delivered solution. The solution is only read:
/// the report names its task and carries the verdict, nothing else.
pub fn report_request<S>(solution: &Solution<S>, status: Status) -> (r: ReportRequest)
    ensures
        r.task_id == solution.task_id,
        r.action@ == report_action(status),
{
    let action = match status {
        Status::Correct => "reportgood".to_owned(),
        Status::Incorrect => "reportbad".to_owned(),
    };
    ReportRequest { task_id: solution.task_id, action }
}

/// The fields of a report: the key, the verdict, the task identifier in
/// decimal, and the flag that asks for a JSON reply.
pub open spec fn report_request_fields(api_key: Seq<char>, request: ReportRequest) -> Seq<
    (Seq<char>, Seq<char>),
> {
    seq![
        ("key"@, api_key),
        ("action"@, request.action@),
        ("id"@, decimal_text(request.task_id as nat)),
        ("json"@, "1"@),
    ]
}

/// Lists the fields of a report.
pub fn report_fields(api_key: String, request: &ReportRequest) -> (r: Vec<(String, String)>)
    ensures
        pairs_view(r@) == report_request_fields(api_key@, *request),
{
    let mut fields: Vec<(String, String)> = Vec::new();
    proof {
        assert(pairs_view(fields@) =~= Seq::<(Seq<char>, Seq<char>)>::empty());
    }
    push_field(&mut fields, "key", api_key);
    push_field(&mut fields, "action", request.action.clone());
    push_field(&mut fields, "id", format_task_id(request.task_id));
    push_field(&mut fields, "json", "1".to_owned());
    proof {
        assert(pairs_view(fields@) =~= report_request_fields(api_key@, *request));
    }
    fields
}

/// Reads the reply to a report: accepted where the status is 1, else the
/// report's own error with the code and text of the reply.
pub fn read_report_reply(reply: &CaptchaResponse) -> (r: Result<(), Error>)
    ensures
        match r {
            Ok(_) => reply.status == 1,
            Err(e) => reply.status != 1 && e@ == (ErrorView::ReportRejected {
                code: content_text(reply.request),
                message: text_or_empty(reply.error_text),
            }),
        },
{
    if reply.status == 1 {
        Ok(())
    } else {
        Err(
            Error::ReportRejected {
                code: content_string(&reply.request),
                message: clone_or_empty(&reply.error_text),
            },
        )
    }
}

} // verus!
