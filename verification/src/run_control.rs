//! Versioned owner-mediated processing-node run control.
//!
//! A controller asks a processing node to run or stop through `SPA_PARAM_Props`;
//! the owner answers with a completion status. Both travel as a `Props`
//! object whose parameter property holds a struct of key/value fields.

use vstd::prelude::*;
use vstd::utf8::encode_utf8;

use crate::pod::Value;
use crate::pod_wire::{
    encode_props, field_int, field_long, field_string, fields_have_prefixed_key, fields_view,
    has_prefixed_key, lemma_encode_utf8_append,
    lemma_fields_fit, lemma_props_fields_round_trip, lemma_scalar_props_object,
    props_fields, props_fields_object, props_object, spec_field_int, spec_field_long,
    spec_field_string, spec_props_fields, values_view, field_body, field_encodable,
    fields_body_len, fields_struct_body, key_with_prefix, scalar_field, PodField, PodFieldView,
    PropsError, MAX_BODY,
};
use crate::text::{bytes_start_with, str_eq};

verus! {

/// Version of the request/status wire contract implemented by this module.
pub const VERSION: i32 = 1;

/// Node property advertising support for owner-mediated run control.
pub const ENABLED_PROPERTY: &'static str = "pipewireao.run-control";

/// Prefix of every run-control field key.
pub const KEY_PREFIX: &'static str = "pipewireao.run-control.";

pub const VERSION_KEY: &'static str = "pipewireao.run-control.version";

pub const REQUEST_TOKEN_KEY: &'static str = "pipewireao.run-control.request-token";

pub const REQUESTED_STATE_KEY: &'static str = "pipewireao.run-control.requested-state";

pub const COMPLETED_TOKEN_KEY: &'static str = "pipewireao.run-control.completed-token";

pub const RESULT_KEY: &'static str = "pipewireao.run-control.result";

pub const ACTUAL_STATE_KEY: &'static str = "pipewireao.run-control.actual-state";

/// Stable processing state carried by the Version 1 contract.
#[derive(Clone, Copy, Debug, PartialEq, Eq, Structural)]
pub enum RunState {
    Unknown,
    Stopped,
    Running,
}

/// The name of `state` on the wire.
pub open spec fn spec_wire_name(state: RunState) -> Seq<char> {
    match state {
        RunState::Unknown => "unknown"@,
        RunState::Stopped => "stopped"@,
        RunState::Running => "running"@,
    }
}

/// One controller request decoded from `SPA_PARAM_Props`.
#[derive(Clone, Copy, Debug, PartialEq, Eq, Structural)]
pub struct RunControlRequest {
    pub token: i64,
    pub requested_state: RunState,
}

/// One owner completion decoded from `SPA_PARAM_Props`.
#[derive(Clone, Copy, Debug, PartialEq, Eq, Structural)]
pub struct RunControlStatus {
    pub completed_token: i64,
    pub result: i32,
    pub actual_state: RunState,
}

/// A structural or semantic run-control POD error.
#[derive(Clone, Debug, PartialEq, Eq)]
pub enum RunControlError {
    NotRunControl,
    InvalidObject,
    InvalidFields,
    InvalidToken(i64),
    InvalidState(String),
    UnsupportedVersion(i32),
    Serialization(String),
}

/// The model of a [`RunControlError`], with its strings as characters.
pub enum RunControlErrorView {
    NotRunControl,
    InvalidObject,
    InvalidFields,
    InvalidToken(i64),
    InvalidState(Seq<char>),
    UnsupportedVersion(i32),
    Serialization(Seq<char>),
}

impl View for RunControlError {
    type V = RunControlErrorView;

    open spec fn view(&self) -> RunControlErrorView {
        match self {
            RunControlError::NotRunControl => RunControlErrorView::NotRunControl,
            RunControlError::InvalidObject => RunControlErrorView::InvalidObject,
            RunControlError::InvalidFields => RunControlErrorView::InvalidFields,
            RunControlError::InvalidToken(token) => RunControlErrorView::InvalidToken(*token),
            RunControlError::InvalidState(state) => RunControlErrorView::InvalidState(state@),
            RunControlError::UnsupportedVersion(version) => RunControlErrorView::UnsupportedVersion(
                *version,
            ),
            RunControlError::Serialization(message) => RunControlErrorView::Serialization(
                message@,
            ),
        }
    }
}

/// The state named `name`, or the error for an unknown name.
pub open spec fn spec_parse_state(name: Seq<char>) -> Result<RunState, RunControlErrorView> {
    if name == "unknown"@ {
        Ok(RunState::Unknown)
    } else if name == "stopped"@ {
        Ok(RunState::Stopped)
    } else if name == "running"@ {
        Ok(RunState::Running)
    } else {
        Err(RunControlErrorView::InvalidState(name))
    }
}

impl RunState {
    /// The name of this state on the wire.
    pub fn wire_name(self) -> (r: &'static str)
        ensures
            r@ == spec_wire_name(self),
    {
        match self {
            RunState::Unknown => "unknown",
            RunState::Stopped => "stopped",
            RunState::Running => "running",
        }
    }

    /// The state named `value`.
    pub fn parse(value: &str) -> (r: Result<RunState, RunControlError>)
        ensures
            match r {
                Ok(state) => spec_parse_state(value@) == Ok::<_, RunControlErrorView>(state),
                Err(e) => spec_parse_state(value@) == Err::<RunState, _>(e@),
            },
    {
        if str_eq(value, "unknown") {
            Ok(RunState::Unknown)
        } else if str_eq(value, "stopped") {
            Ok(RunState::Stopped)
        } else if str_eq(value, "running") {
            Ok(RunState::Running)
        } else {
            Err(RunControlError::InvalidState(value.to_owned()))
        }
    }
}

/// Each state reads back from its wire name.
pub proof fn lemma_state_name_round_trip(state: RunState)
    ensures
        spec_parse_state(spec_wire_name(state)) == Ok::<_, RunControlErrorView>(state),
{
    reveal_strlit("unknown");
    reveal_strlit("stopped");
    reveal_strlit("running");
    assert("unknown"@[0] == 'u');
    assert("stopped"@[0] == 's');
    assert("running"@[0] == 'r');
}

/// The fields of a request for `state` with `token`.
pub open spec fn request_fields(token: i64, state: RunState) -> Seq<PodFieldView> {
    seq![
        PodFieldView::String(VERSION_KEY@),
        PodFieldView::Int(VERSION),
        PodFieldView::String(REQUEST_TOKEN_KEY@),
        PodFieldView::Long(token),
        PodFieldView::String(REQUESTED_STATE_KEY@),
        PodFieldView::String(spec_wire_name(state)),
    ]
}

/// The fields of a completion status.
pub open spec fn status_fields(completed_token: i64, result: i32, state: RunState) -> Seq<
    PodFieldView,
> {
    seq![
        PodFieldView::String(VERSION_KEY@),
        PodFieldView::Int(VERSION),
        PodFieldView::String(COMPLETED_TOKEN_KEY@),
        PodFieldView::Long(completed_token),
        PodFieldView::String(RESULT_KEY@),
        PodFieldView::Int(result),
        PodFieldView::String(ACTUAL_STATE_KEY@),
        PodFieldView::String(spec_wire_name(state)),
    ]
}

/// The run-control fields that `bytes` carry, or the error that decoding
/// them gives.
pub open spec fn spec_fields(bytes: Seq<u8>) -> Result<Seq<PodFieldView>, RunControlErrorView> {
    match spec_props_fields(bytes) {
        Err(PropsError::InvalidObject) => Err(RunControlErrorView::InvalidObject),
        Err(PropsError::InvalidFields) => Err(RunControlErrorView::InvalidFields),
        Ok(fields) => if has_prefixed_key(fields, encode_utf8(KEY_PREFIX@)) {
            Ok(fields)
        } else {
            Err(RunControlErrorView::NotRunControl)
        },
    }
}

/// `Ok(())` for the supported version, else the error naming `version`.
pub open spec fn spec_validate_version(version: i32) -> Result<(), RunControlErrorView> {
    if version == VERSION {
        Ok(())
    } else {
        Err(RunControlErrorView::UnsupportedVersion(version))
    }
}

/// The request that `bytes` carry, or why they carry none.
pub open spec fn spec_parse_request(bytes: Seq<u8>) -> Result<
    RunControlRequest,
    RunControlErrorView,
> {
    match spec_fields(bytes) {
        Err(e) => Err(e),
        Ok(fields) => if fields.len() != 6 {
            Err(RunControlErrorView::InvalidFields)
        } else {
            match spec_field_int(fields, 0, VERSION_KEY@) {
                None => Err(RunControlErrorView::InvalidFields),
                Some(version) => if version != VERSION {
                    Err(RunControlErrorView::UnsupportedVersion(version))
                } else {
                    match spec_field_long(fields, 2, REQUEST_TOKEN_KEY@) {
                        None => Err(RunControlErrorView::InvalidFields),
                        Some(token) => if token <= 0 {
                            Err(RunControlErrorView::InvalidToken(token))
                        } else {
                            match spec_field_string(fields, 4, REQUESTED_STATE_KEY@) {
                                None => Err(RunControlErrorView::InvalidFields),
                                Some(name) => match spec_parse_state(name) {
                                    Err(e) => Err(e),
                                    Ok(state) => if state == RunState::Unknown {
                                        Err(RunControlErrorView::InvalidState("unknown"@))
                                    } else {
                                        Ok(RunControlRequest { token, requested_state: state })
                                    },
                                },
                            }
                        },
                    }
                },
            }
        },
    }
}

/// The completion status that `bytes` carry, or why they carry none.
pub open spec fn spec_parse_status(bytes: Seq<u8>) -> Result<
    RunControlStatus,
    RunControlErrorView,
> {
    match spec_fields(bytes) {
        Err(e) => Err(e),
        Ok(fields) => if fields.len() != 8 {
            Err(RunControlErrorView::InvalidFields)
        } else {
            match spec_field_int(fields, 0, VERSION_KEY@) {
                None => Err(RunControlErrorView::InvalidFields),
                Some(version) => if version != VERSION {
                    Err(RunControlErrorView::UnsupportedVersion(version))
                } else {
                    match spec_field_long(fields, 2, COMPLETED_TOKEN_KEY@) {
                        None => Err(RunControlErrorView::InvalidFields),
                        Some(completed_token) => if completed_token < 0 {
                            Err(RunControlErrorView::InvalidToken(completed_token))
                        } else {
                            match spec_field_int(fields, 4, RESULT_KEY@) {
                                None => Err(RunControlErrorView::InvalidFields),
                                Some(result) => match spec_field_string(
                                    fields,
                                    6,
                                    ACTUAL_STATE_KEY@,
                                ) {
                                    None => Err(RunControlErrorView::InvalidFields),
                                    Some(name) => match spec_parse_state(name) {
                                        Err(e) => Err(e),
                                        Ok(actual_state) => Ok(
                                            RunControlStatus {
                                                completed_token,
                                                result,
                                                actual_state,
                                            },
                                        ),
                                    },
                                },
                            }
                        },
                    }
                },
            }
        },
    }
}

/// The keys hold no NUL character, are short, and begin with the key
/// prefix; so do the state names.
proof fn lemma_keys()
    ensures
        !VERSION_KEY@.contains('\0') && VERSION_KEY@.len() <= 64,
        !REQUEST_TOKEN_KEY@.contains('\0') && REQUEST_TOKEN_KEY@.len() <= 64,
        !REQUESTED_STATE_KEY@.contains('\0') && REQUESTED_STATE_KEY@.len() <= 64,
        !COMPLETED_TOKEN_KEY@.contains('\0') && COMPLETED_TOKEN_KEY@.len() <= 64,
        !RESULT_KEY@.contains('\0') && RESULT_KEY@.len() <= 64,
        !ACTUAL_STATE_KEY@.contains('\0') && ACTUAL_STATE_KEY@.len() <= 64,
        !"unknown"@.contains('\0') && "unknown"@.len() <= 8,
        !"stopped"@.contains('\0') && "stopped"@.len() <= 8,
        !"running"@.contains('\0') && "running"@.len() <= 8,
        bytes_start_with(encode_utf8(VERSION_KEY@), encode_utf8(KEY_PREFIX@)),
{
    reveal_strlit("pipewireao.run-control.");
    reveal_strlit("pipewireao.run-control.version");
    reveal_strlit("pipewireao.run-control.request-token");
    reveal_strlit("pipewireao.run-control.requested-state");
    reveal_strlit("pipewireao.run-control.completed-token");
    reveal_strlit("pipewireao.run-control.result");
    reveal_strlit("pipewireao.run-control.actual-state");
    reveal_strlit("unknown");
    reveal_strlit("stopped");
    reveal_strlit("running");
    reveal_strlit("version");
    assert(!VERSION_KEY@.contains('\0'));
    assert(!REQUEST_TOKEN_KEY@.contains('\0'));
    assert(!REQUESTED_STATE_KEY@.contains('\0'));
    assert(!COMPLETED_TOKEN_KEY@.contains('\0'));
    assert(!RESULT_KEY@.contains('\0'));
    assert(!ACTUAL_STATE_KEY@.contains('\0'));
    assert(!"unknown"@.contains('\0'));
    assert(!"stopped"@.contains('\0'));
    assert(!"running"@.contains('\0'));
    assert(VERSION_KEY@ =~= KEY_PREFIX@ + "version"@);
    lemma_encode_utf8_append(KEY_PREFIX@, "version"@);
    assert(encode_utf8(VERSION_KEY@).subrange(0, encode_utf8(KEY_PREFIX@).len() as int)
        =~= encode_utf8(KEY_PREFIX@));
}

/// A request for a running or stopped state with a positive token reads
/// back as that request.
pub proof fn lemma_request_round_trip(token: i64, state: RunState)
    requires
        token > 0,
        state != RunState::Unknown,
    ensures
        props_fields_object(request_fields(token, state)).len() <= MAX_BODY + 8,
        spec_parse_request(props_fields_object(request_fields(token, state))) == Ok::<
            _,
            RunControlErrorView,
        >(RunControlRequest { token, requested_state: state }),
{
    let fields = request_fields(token, state);
    lemma_keys();
    assert forall|i: int| 0 <= i < fields.len() implies (#[trigger] fields[i] matches PodFieldView::String(
        text,
    ) ==> text.len() <= 64) && field_encodable(fields[i]) by {
        assert(spec_wire_name(state).len() <= 8);
        if i == 0 {
        } else if i == 1 {
        } else if i == 2 {
        } else if i == 3 {
        } else if i == 4 {
        } else if i == 5 {
        } else if i == 6 {
        } else {
        }
    }
    lemma_fields_fit(fields);
    lemma_props_fields_round_trip(fields);
    assert(key_with_prefix(fields[0], encode_utf8(KEY_PREFIX@)));
    lemma_state_name_round_trip(state);
}

/// A completion status with a token of zero or more reads back as that
/// status.
pub proof fn lemma_status_round_trip(completed_token: i64, result: i32, state: RunState)
    requires
        completed_token >= 0,
    ensures
        props_fields_object(status_fields(completed_token, result, state)).len() <= MAX_BODY + 8,
        spec_parse_status(props_fields_object(status_fields(completed_token, result, state)))
            == Ok::<_, RunControlErrorView>(
            RunControlStatus { completed_token, result, actual_state: state },
        ),
{
    let fields = status_fields(completed_token, result, state);
    lemma_keys();
    assert forall|i: int| 0 <= i < fields.len() implies (#[trigger] fields[i] matches PodFieldView::String(
        text,
    ) ==> text.len() <= 64) && field_encodable(fields[i]) by {
        assert(spec_wire_name(state).len() <= 8);
        if i == 0 {
        } else if i == 1 {
        } else if i == 2 {
        } else if i == 3 {
        } else if i == 4 {
        } else if i == 5 {
        } else if i == 6 {
        } else {
        }
    }
    lemma_fields_fit(fields);
    lemma_props_fields_round_trip(fields);
    assert(key_with_prefix(fields[0], encode_utf8(KEY_PREFIX@)));
    lemma_state_name_round_trip(state);
}

/// Checks the contract version.
pub fn validate_version(version: i32) -> (r: Result<(), RunControlError>)
    ensures
        match r {
            Ok(()) => spec_validate_version(version) == Ok::<_, RunControlErrorView>(()),
            Err(e) => spec_validate_version(version) == Err::<(), _>(e@),
        },
{
    if version == VERSION {
        Ok(())
    } else {
        Err(RunControlError::UnsupportedVersion(version))
    }
}

/// Encodes `fields` as the struct of a `Props` object.
pub fn encode(fields: Vec<Value>) -> (r: Result<Vec<u8>, RunControlError>)
    ensures
        match r {
            Ok(bytes) => bytes@ == props_object(fields@),
            Err(e) => e@ is Serialization && props_object(fields@).len() > MAX_BODY + 8,
        },
{
    match encode_props(fields) {
        Some(bytes) => Ok(bytes),
        None => Err(RunControlError::Serialization("POD body exceeds the u32 size range".to_owned())),
    }
}

/// Encodes a Version 1 running or stopped request.
///
/// The request reads back with [`parse_request`] as the same token and state.
pub fn build_request(token: i64, state: RunState) -> (r: Result<Vec<u8>, RunControlError>)
    ensures
        token <= 0 ==> (r matches Err(e) && e@ == RunControlErrorView::InvalidToken(token)),
        token > 0 && state == RunState::Unknown ==> (r matches Err(e) && e@
            == RunControlErrorView::InvalidState("unknown"@)),
        token > 0 && state != RunState::Unknown ==> (r matches Ok(bytes) && bytes@
            == props_fields_object(request_fields(token, state))),
        r matches Ok(bytes) ==> spec_parse_request(bytes@) == Ok::<_, RunControlErrorView>(
            RunControlRequest { token, requested_state: state },
        ),
{
    if token <= 0 {
        return Err(RunControlError::InvalidToken(token));
    }
    if state == RunState::Unknown {
        return Err(RunControlError::InvalidState(state.wire_name().to_owned()));
    }
    let fields = vec![
        Value::String(VERSION_KEY.to_owned()),
        Value::Int(VERSION),
        Value::String(REQUEST_TOKEN_KEY.to_owned()),
        Value::Long(token),
        Value::String(REQUESTED_STATE_KEY.to_owned()),
        Value::String(state.wire_name().to_owned()),
    ];
    proof {
        assert forall|i: int| 0 <= i < fields@.len() implies scalar_field(#[trigger] fields@[i]) by {}
        lemma_scalar_props_object(fields@);
        assert(values_view(fields@) =~= request_fields(token, state));
        lemma_request_round_trip(token, state);
    }
    encode(fields)
}

/// The run-control fields of the `Props` object at the front of `pod`.
fn fields(pod: &[u8]) -> (r: Result<Vec<PodField>, RunControlError>)
    ensures
        match r {
            Ok(fields) => spec_fields(pod@) == Ok::<_, RunControlErrorView>(fields_view(fields@)),
            Err(e) => spec_fields(pod@) == Err::<Seq<PodFieldView>, _>(e@),
        },
{
    let fields = match props_fields(pod) {
        Ok(fields) => fields,
        Err(PropsError::InvalidObject) => return Err(RunControlError::InvalidObject),
        Err(PropsError::InvalidFields) => return Err(RunControlError::InvalidFields),
    };
    if !fields_have_prefixed_key(fields.as_slice(), KEY_PREFIX) {
        return Err(RunControlError::NotRunControl);
    }
    Ok(fields)
}

/// The `Int` value of the key/value pair at `index`.
fn pair_int(fields: &[PodField], index: usize, expected_key: &str) -> (r: Result<
    i32,
    RunControlError,
>)
    ensures
        match r {
            Ok(value) => spec_field_int(fields_view(fields@), index as int, expected_key@) == Some(
                value,
            ),
            Err(e) => spec_field_int(fields_view(fields@), index as int, expected_key@) is None
                && e@ == RunControlErrorView::InvalidFields,
        },
{
    match field_int(fields, index, expected_key) {
        Some(value) => Ok(value),
        None => Err(RunControlError::InvalidFields),
    }
}

/// The `Long` value of the key/value pair at `index`.
fn pair_long(fields: &[PodField], index: usize, expected_key: &str) -> (r: Result<
    i64,
    RunControlError,
>)
    ensures
        match r {
            Ok(value) => spec_field_long(fields_view(fields@), index as int, expected_key@) == Some(
                value,
            ),
            Err(e) => spec_field_long(fields_view(fields@), index as int, expected_key@) is None
                && e@ == RunControlErrorView::InvalidFields,
        },
{
    match field_long(fields, index, expected_key) {
        Some(value) => Ok(value),
        None => Err(RunControlError::InvalidFields),
    }
}

/// The `String` value of the key/value pair at `index`.
fn pair_string<'a>(fields: &'a [PodField], index: usize, expected_key: &str) -> (r: Result<
    &'a str,
    RunControlError,
>)
    ensures
        match r {
            Ok(value) => spec_field_string(fields_view(fields@), index as int, expected_key@)
                == Some(value@),
            Err(e) => spec_field_string(fields_view(fields@), index as int, expected_key@) is None
                && e@ == RunControlErrorView::InvalidFields,
        },
{
    match field_string(fields, index, expected_key) {
        Some(value) => Ok(value),
        None => Err(RunControlError::InvalidFields),
    }
}

/// Decodes and strictly validates a Version 1 request.
pub fn parse_request(pod: &[u8]) -> (r: Result<RunControlRequest, RunControlError>)
    ensures
        match r {
            Ok(request) => spec_parse_request(pod@) == Ok::<_, RunControlErrorView>(request),
            Err(e) => spec_parse_request(pod@) == Err::<RunControlRequest, _>(e@),
        },
{
    let fields = fields(pod)?;
    if fields.len() != 6 {
        return Err(RunControlError::InvalidFields);
    }
    let version = pair_int(fields.as_slice(), 0, VERSION_KEY)?;
    validate_version(version)?;
    let token = pair_long(fields.as_slice(), 2, REQUEST_TOKEN_KEY)?;
    if token <= 0 {
        return Err(RunControlError::InvalidToken(token));
    }
    let name = pair_string(fields.as_slice(), 4, REQUESTED_STATE_KEY)?;
    let requested_state = RunState::parse(name)?;
    if requested_state == RunState::Unknown {
        return Err(RunControlError::InvalidState("unknown".to_owned()));
    }
    Ok(RunControlRequest { token, requested_state })
}

/// Decodes and strictly validates a Version 1 completion status.
pub fn parse_status(pod: &[u8]) -> (r: Result<RunControlStatus, RunControlError>)
    ensures
        match r {
            Ok(status) => spec_parse_status(pod@) == Ok::<_, RunControlErrorView>(status),
            Err(e) => spec_parse_status(pod@) == Err::<RunControlStatus, _>(e@),
        },
{
    let fields = fields(pod)?;
    if fields.len() != 8 {
        return Err(RunControlError::InvalidFields);
    }
    let version = pair_int(fields.as_slice(), 0, VERSION_KEY)?;
    validate_version(version)?;
    let completed_token = pair_long(fields.as_slice(), 2, COMPLETED_TOKEN_KEY)?;
    if completed_token < 0 {
        return Err(RunControlError::InvalidToken(completed_token));
    }
    let result = pair_int(fields.as_slice(), 4, RESULT_KEY)?;
    let name = pair_string(fields.as_slice(), 6, ACTUAL_STATE_KEY)?;
    let actual_state = RunState::parse(name)?;
    Ok(RunControlStatus { completed_token, result, actual_state })
}

} // verus!
