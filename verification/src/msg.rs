//! The call and response shapes of the contract boundary.

use vstd::prelude::*;

verus! {

/// The initialization call carries no parameters.
#[derive(Debug)]
pub struct InitMsg {}

/// The mutating calls: exactly one case per call.
#[derive(Debug)]
pub enum HandleMsg {
    SetInputA { input: u32, message: Vec<u8>, signature: Vec<u8>, pub_key: Vec<u8> },
    SetInputB { input: u32, message: Vec<u8>, signature: Vec<u8>, pub_key: Vec<u8> },
    Compare {},
}

/// The read-only calls.
#[derive(Debug)]
pub enum QueryMsg {
    InputA {},
    InputB {},
}

/// What a query of slot A reports.
#[derive(Debug)]
pub struct InputAResponse {
    pub input_a: u32,
    /// The submitter's address in display form.
    pub address_a: String,
}

/// What a query of slot B reports.
#[derive(Debug)]
pub struct InputBResponse {
    pub input_b: u32,
    /// The submitter's address in display form.
    pub address_b: String,
}

/// The answer of the query dispatcher: one case per query call.
#[derive(Debug)]
pub enum QueryAnswer {
    InputA(InputAResponse),
    InputB(InputBResponse),
}

/// One human-readable observability attribute.
#[derive(Debug)]
pub struct LogAttribute {
    pub key: String,
    pub value: String,
}

/// The result of a successful initialization: no host messages, no log
/// attributes.
#[derive(Debug)]
pub struct InitResponse {
    /// Host messages requested by the call; this contract never emits any.
    pub messages: Vec<String>,
    pub log: Vec<LogAttribute>,
}

/// The result of a successful mutating call.
#[derive(Debug)]
pub struct HandleResponse {
    /// Host messages requested by the call; this contract never emits any.
    pub messages: Vec<String>,
    pub log: Vec<LogAttribute>,
    pub data: Option<Vec<u8>>,
}

/// A successful mutating call with nothing to report.
pub open spec fn empty_handle_response(resp: HandleResponse) -> bool {
    &&& resp.messages@.len() == 0
    &&& resp.log@.len() == 0
    &&& resp.data is None
}

} // verus!
