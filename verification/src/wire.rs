//! The JSON wire encodings: job statuses, server-to-client events and error
//! bodies, specified byte for byte.
//!
//! Each payload has a spec function giving its exact bytes and an executable
//! encoder proved to produce them. Responses are compared as byte sequences,
//! so "the same response" below always means bit-identical output.
use crate::codec::{json_string, push_dec_i32, push_json_string, push_str_bytes};
use crate::task::{DownloadZipFileStatus, ExitedStatus, FailOperation, ProcessStatus, Status};
use vstd::prelude::*;
use vstd::string::StringSliceAdditionalSpecFns;
use vstd::utf8::encode_utf8;

verus! {

/// The wire name of a fail site.
pub open spec fn spec_fail_operation_json(op: FailOperation) -> Seq<u8> {
    match op {
        FailOperation::OnSpawn => "\"OnSpawn\"".spec_bytes(),
        FailOperation::AfterTimeoutOnKill => "\"AfterTimeoutOnKill\"".spec_bytes(),
        FailOperation::AfterTimeoutOnWait => "\"AfterTimeoutOnWait\"".spec_bytes(),
        FailOperation::AfterCancelOnKill => "\"AfterCancelOnKill\"".spec_bytes(),
        FailOperation::AfterCancelOnWait => "\"AfterCancelOnWait\"".spec_bytes(),
        FailOperation::OnWait => "\"OnWait\"".spec_bytes(),
    }
}

/// How an exit classification appears inside an `Exited` payload: a bare tag
/// for success, and a tag with the optional exit code for failure.
pub open spec fn spec_exited_status_json(e: ExitedStatus) -> Seq<u8> {
    match e {
        ExitedStatus::Success => "{\"exit_status\":\"Success\"}".spec_bytes(),
        ExitedStatus::Failure { code: Some(c) } => "{\"exit_status\":\"Failure\",\"content\":{\"code\":".spec_bytes()
            + crate::codec::dec_digits_i32(c as int) + "}}".spec_bytes(),
        ExitedStatus::Failure { code: None } => "{\"exit_status\":\"Failure\",\"content\":{\"code\":null}}".spec_bytes(),
    }
}

/// A process status on the wire: a `status` tag, plus a `content` object for
/// the variants that carry data.
pub open spec fn spec_process_status_json(s: ProcessStatus) -> Seq<u8> {
    match s {
        ProcessStatus::Created => "{\"status\":\"Created\"}".spec_bytes(),
        ProcessStatus::Running => "{\"status\":\"Running\"}".spec_bytes(),
        ProcessStatus::Canceled => "{\"status\":\"Canceled\"}".spec_bytes(),
        ProcessStatus::Timeout => "{\"status\":\"Timeout\"}".spec_bytes(),
        ProcessStatus::Failed { operation } => "{\"status\":\"Failed\",\"content\":{\"operation\":".spec_bytes()
            + spec_fail_operation_json(operation) + "}}".spec_bytes(),
        ProcessStatus::Exited { exit_status } => "{\"status\":\"Exited\",\"content\":".spec_bytes()
            + spec_exited_status_json(exit_status) + "}".spec_bytes(),
    }
}

/// A download status on the wire: a `status` tag, plus the failure reason for
/// `Failed`.
pub open spec fn spec_download_status_json(s: DownloadZipFileStatus) -> Seq<u8> {
    match s {
        DownloadZipFileStatus::Created => "{\"status\":\"Created\"}".spec_bytes(),
        DownloadZipFileStatus::Running => "{\"status\":\"Running\"}".spec_bytes(),
        DownloadZipFileStatus::Canceled => "{\"status\":\"Canceled\"}".spec_bytes(),
        DownloadZipFileStatus::Exited => "{\"status\":\"Exited\"}".spec_bytes(),
        DownloadZipFileStatus::Timeout => "{\"status\":\"Timeout\"}".spec_bytes(),
        DownloadZipFileStatus::Failed { reason } => "{\"status\":\"Failed\",\"content\":{\"reason\":".spec_bytes()
            + json_string(encode_utf8(reason@)) + "}}".spec_bytes(),
    }
}

/// A status of either kind on the wire: a `type` tag naming the kind and a
/// `content` object holding the kind's own payload.
pub open spec fn spec_status_json(s: Status) -> Seq<u8> {
    match s {
        Status::Process(p) => "{\"type\":\"Process\",\"content\":".spec_bytes()
            + spec_process_status_json(p) + "}".spec_bytes(),
        Status::Download(d) => "{\"type\":\"Download\",\"content\":".spec_bytes()
            + spec_download_status_json(d) + "}".spec_bytes(),
    }
}

/// Append the wire form of a fail site.
fn push_fail_operation_json(out: &mut Vec<u8>, op: &FailOperation)
    ensures
        final(out)@ == old(out)@ + spec_fail_operation_json(*op),
{
    match op {
        FailOperation::OnSpawn => push_str_bytes(out, "\"OnSpawn\""),
        FailOperation::AfterTimeoutOnKill => push_str_bytes(out, "\"AfterTimeoutOnKill\""),
        FailOperation::AfterTimeoutOnWait => push_str_bytes(out, "\"AfterTimeoutOnWait\""),
        FailOperation::AfterCancelOnKill => push_str_bytes(out, "\"AfterCancelOnKill\""),
        FailOperation::AfterCancelOnWait => push_str_bytes(out, "\"AfterCancelOnWait\""),
        FailOperation::OnWait => push_str_bytes(out, "\"OnWait\""),
    }
}

/// Append the wire form of an exit classification.
fn push_exited_status_json(out: &mut Vec<u8>, e: &ExitedStatus)
    ensures
        final(out)@ == old(out)@ + spec_exited_status_json(*e),
{
    match e {
        ExitedStatus::Success => push_str_bytes(out, "{\"exit_status\":\"Success\"}"),
        ExitedStatus::Failure { code: Some(c) } => {
            push_str_bytes(out, "{\"exit_status\":\"Failure\",\"content\":{\"code\":");
            push_dec_i32(out, *c);
            push_str_bytes(out, "}}");
            proof {
                assert(out@ =~= old(out)@ + spec_exited_status_json(*e));
            }
        },
        ExitedStatus::Failure { code: None } => {
            push_str_bytes(out, "{\"exit_status\":\"Failure\",\"content\":{\"code\":null}}");
        },
    }
}

/// Append the wire form of a process status.
fn push_process_status_json(out: &mut Vec<u8>, s: &ProcessStatus)
    ensures
        final(out)@ == old(out)@ + spec_process_status_json(*s),
{
    match s {
        ProcessStatus::Created => push_str_bytes(out, "{\"status\":\"Created\"}"),
        ProcessStatus::Running => push_str_bytes(out, "{\"status\":\"Running\"}"),
        ProcessStatus::Canceled => push_str_bytes(out, "{\"status\":\"Canceled\"}"),
        ProcessStatus::Timeout => push_str_bytes(out, "{\"status\":\"Timeout\"}"),
        ProcessStatus::Failed { operation } => {
            push_str_bytes(out, "{\"status\":\"Failed\",\"content\":{\"operation\":");
            push_fail_operation_json(out, operation);
            push_str_bytes(out, "}}");
            proof {
                assert(out@ =~= old(out)@ + spec_process_status_json(*s));
            }
        },
        ProcessStatus::Exited { exit_status } => {
            push_str_bytes(out, "{\"status\":\"Exited\",\"content\":");
            push_exited_status_json(out, exit_status);
            push_str_bytes(out, "}");
            proof {
                assert(out@ =~= old(out)@ + spec_process_status_json(*s));
            }
        },
    }
}

/// Append the wire form of a download status.
fn push_download_status_json(out: &mut Vec<u8>, s: &DownloadZipFileStatus)
    ensures
        final(out)@ == old(out)@ + spec_download_status_json(*s),
{
    match s {
        DownloadZipFileStatus::Created => push_str_bytes(out, "{\"status\":\"Created\"}"),
        DownloadZipFileStatus::Running => push_str_bytes(out, "{\"status\":\"Running\"}"),
        DownloadZipFileStatus::Canceled => push_str_bytes(out, "{\"status\":\"Canceled\"}"),
        DownloadZipFileStatus::Exited => push_str_bytes(out, "{\"status\":\"Exited\"}"),
        DownloadZipFileStatus::Timeout => push_str_bytes(out, "{\"status\":\"Timeout\"}"),
        DownloadZipFileStatus::Failed { reason } => {
            push_str_bytes(out, "{\"status\":\"Failed\",\"content\":{\"reason\":");
            push_json_string(out, reason.as_str());
            push_str_bytes(out, "}}");
            proof {
                assert(out@ =~= old(out)@ + spec_download_status_json(*s));
            }
        },
    }
}

/// The wire form of a job status, exactly as `spec_status_json` gives it.
pub fn status_json(s: &Status) -> (r: Vec<u8>)
    ensures
        r@ == spec_status_json(*s),
{
    let mut out: Vec<u8> = Vec::new();
    match s {
        Status::Process(p) => {
            push_str_bytes(&mut out, "{\"type\":\"Process\",\"content\":");
            push_process_status_json(&mut out, p);
            push_str_bytes(&mut out, "}");
        },
        Status::Download(d) => {
            push_str_bytes(&mut out, "{\"type\":\"Download\",\"content\":");
            push_download_status_json(&mut out, d);
            push_str_bytes(&mut out, "}");
        },
    }
    proof {
        assert(out@ =~= spec_status_json(*s));
    }
    out
}

/// An error body: `{"type":"<kind>","msg":"<short description>"}`. Both
/// strings are fixed ASCII names chosen by the caller, so no escaping is
/// involved.
pub open spec fn spec_error_body(kind: Seq<u8>, msg: Seq<u8>) -> Seq<u8> {
    "{\"type\":".spec_bytes() + json_string(kind) + ",\"msg\":".spec_bytes() + json_string(msg)
        + "}".spec_bytes()
}

/// Build an error body from a kind tag and a short message.
pub fn error_body(kind: &str, msg: &str) -> (r: Vec<u8>)
    ensures
        r@ == spec_error_body(kind.spec_bytes(), msg.spec_bytes()),
{
    let mut out: Vec<u8> = Vec::new();
    push_str_bytes(&mut out, "{\"type\":");
    push_json_string(&mut out, kind);
    push_str_bytes(&mut out, ",\"msg\":");
    push_json_string(&mut out, msg);
    push_str_bytes(&mut out, "}");
    proof {
        assert(out@ =~= spec_error_body(kind.spec_bytes(), msg.spec_bytes()));
    }
    out
}

} // verus!
