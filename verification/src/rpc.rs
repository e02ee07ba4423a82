//! The statuses with which a service answers a request that failed.

use vstd::prelude::*;
use vstd::string::StringExecFns;

verus! {

/// Why a request failed, in gRPC's terms.
#[derive(Clone, Copy, Debug, PartialEq, Eq, Structural)]
pub enum RpcStatusCode {
    InvalidArgument,
    PermissionDenied,
    OutOfRange,
    Internal,
}

/// The status of a request that failed.
#[derive(Clone, Debug, PartialEq, Eq)]
pub struct RpcStatus {
    pub code: RpcStatusCode,
    pub details: Option<String>,
}

/// The details of a failure: where it happened, a colon, and the error.
pub open spec fn error_details(context: Seq<char>, err: Seq<char>) -> Seq<char> {
    context + ": "@ + err
}

/// Whether a status has a given code and the details of a given failure.
pub open spec fn reports(status: RpcStatus, code: RpcStatusCode, context: Seq<char>, err: Seq<char>)
    -> bool {
    &&& status.code == code
    &&& status.details is Some
    &&& status.details.unwrap()@ == error_details(context, err)
}

/// The status for an error, given in its debug form, that happened in
/// `context`.
pub fn report_err_with_code(context: &str, err: &str, code: RpcStatusCode) -> (status: RpcStatus)
    ensures
        reports(status, code, context@, err@),
{
    let err_str: String = String::from_str(context).concat(": ").concat(err);
    RpcStatus { code, details: Some(err_str) }
}

/// The status for an error of the enclave: the caller sent what the enclave
/// cannot take.
pub fn rpc_enclave_err(err: &str) -> (status: RpcStatus)
    ensures
        reports(status, RpcStatusCode::InvalidArgument, "Enclave Error"@, err@),
{
    report_err_with_code("Enclave Error", err, RpcStatusCode::InvalidArgument)
}

/// The status for an error of the database.
pub fn rpc_database_err(err: &str) -> (status: RpcStatus)
    ensures
        reports(status, RpcStatusCode::Internal, "Database Error"@, err@),
{
    report_err_with_code("Database Error", err, RpcStatusCode::Internal)
}

/// The status for an error that is the service's own fault.
pub fn rpc_internal_error(context: &str, err: &str) -> (status: RpcStatus)
    ensures
        reports(status, RpcStatusCode::Internal, context@, err@),
{
    report_err_with_code(context, err, RpcStatusCode::Internal)
}

/// The status for an argument that the service cannot take.
pub fn rpc_invalid_arg_error(context: &str, err: &str) -> (status: RpcStatus)
    ensures
        reports(status, RpcStatusCode::InvalidArgument, context@, err@),
{
    report_err_with_code(context, err, RpcStatusCode::InvalidArgument)
}

/// The status for a caller who may not do what they asked for.
pub fn rpc_permissions_error(context: &str, err: &str) -> (status: RpcStatus)
    ensures
        reports(status, RpcStatusCode::PermissionDenied, context@, err@),
{
    report_err_with_code(context, err, RpcStatusCode::PermissionDenied)
}

/// The status for a value beyond the range that the service holds.
pub fn rpc_out_of_range_error(context: &str, err: &str) -> (status: RpcStatus)
    ensures
        reports(status, RpcStatusCode::OutOfRange, context@, err@),
{
    report_err_with_code(context, err, RpcStatusCode::OutOfRange)
}

/// The status for a value that could not be serialized.
pub fn ser_to_rpc_err(error: &str) -> (status: RpcStatus)
    ensures
        reports(status, RpcStatusCode::Internal, "Serialization"@, error@),
{
    rpc_internal_error("Serialization", error)
}

/// The status for bytes that could not be deserialized.
pub fn deser_to_rpc_err(error: &str) -> (status: RpcStatus)
    ensures
        reports(status, RpcStatusCode::Internal, "Deserialization"@, error@),
{
    rpc_internal_error("Deserialization", error)
}

/// The status for a message that could not be encoded.
pub fn encode_to_rpc_err(error: &str) -> (status: RpcStatus)
    ensures
        reports(status, RpcStatusCode::Internal, "Encode"@, error@),
{
    rpc_internal_error("Encode", error)
}

/// The status for a message that could not be decoded.
pub fn decode_to_rpc_err(error: &str) -> (status: RpcStatus)
    ensures
        reports(status, RpcStatusCode::Internal, "Decode"@, error@),
{
    rpc_internal_error("Decode", error)
}

} // verus!
