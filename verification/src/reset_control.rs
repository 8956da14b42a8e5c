//! Versioned owner-mediated processing-state reset control.
//!
//! A controller asks a processing node to reset its processing state through
//! `SPA_PARAM_Props`; the owner answers with a completion status. Both
//! travel as a `Props` object whose parameter property holds a struct of
//! key/value fields.

use vstd::prelude::*;
use vstd::utf8::encode_utf8;

use crate::pod::Value;
use crate::pod_wire::{
    encode_props, field_int, field_long, fields_have_prefixed_key, fields_view, has_prefixed_key,
    key_with_prefix, lemma_encode_utf8_append, lemma_fields_fit, lemma_props_fields_round_trip,
    lemma_scalar_props_object, props_fields, props_fields_object, props_object, scalar_field,
    spec_field_int, spec_field_long, spec_props_fields, values_view, field_encodable, PodField,
    PodFieldView, PropsError, MAX_BODY,
};
use crate::text::bytes_start_with;

verus! {

/// Version of the request/status wire contract implemented by this module.
pub const VERSION: i32 = 1;

/// Node property advertising support for owner-mediated reset.
pub const ENABLED_PROPERTY: &'static str = "pipewireao.reset-control";

/// Prefix of every reset-control field key.
pub const KEY_PREFIX: &'static str = "pipewireao.reset-control.";

pub const VERSION_KEY: &'static str = "pipewireao.reset-control.version";

pub const REQUEST_TOKEN_KEY: &'static str = "pipewireao.reset-control.request-token";

pub const COMPLETED_TOKEN_KEY: &'static str = "pipewireao.reset-control.completed-token";

pub const RESULT_KEY: &'static str = "pipewireao.reset-control.result";

/// One controller request decoded from `SPA_PARAM_Props`.
#[derive(Clone, Copy, Debug, PartialEq, Eq, Structural)]
pub struct ResetControlRequest {
    pub token: i64,
}

/// One owner completion decoded from `SPA_PARAM_Props`.
#[derive(Clone, Copy, Debug, PartialEq, Eq, Structural)]
pub struct ResetControlStatus {
    pub completed_token: i64,
    pub result: i32,
}

/// A structural or semantic reset-control POD error.
#[derive(Clone, Debug, PartialEq, Eq)]
pub enum ResetControlError {
    NotResetControl,
    InvalidObject,
    InvalidFields,
    InvalidToken(i64),
    UnsupportedVersion(i32),
    Serialization(String),
}

/// The model of a [`ResetControlError`], with its message as characters.
pub enum ResetControlErrorView {
    NotResetControl,
    InvalidObject,
    InvalidFields,
    InvalidToken(i64),
    UnsupportedVersion(i32),
    Serialization(Seq<char>),
}

impl View for ResetControlError {
    type V = ResetControlErrorView;

    open spec fn view(&self) -> ResetControlErrorView {
        match self {
            ResetControlError::NotResetControl => ResetControlErrorView::NotResetControl,
            ResetControlError::InvalidObject => ResetControlErrorView::InvalidObject,
            ResetControlError::InvalidFields => ResetControlErrorView::InvalidFields,
            ResetControlError::InvalidToken(token) => ResetControlErrorView::InvalidToken(*token),
            ResetControlError::UnsupportedVersion(version) => ResetControlErrorView::UnsupportedVersion(
                *version,
            ),
            ResetControlError::Serialization(message) => ResetControlErrorView::Serialization(
                message@,
            ),
        }
    }
}

/// The fields of a reset request with `token`.
pub open spec fn request_fields(token: i64) -> Seq<PodFieldView> {
    seq![
        PodFieldView::String(VERSION_KEY@),
        PodFieldView::Int(VERSION),
        PodFieldView::String(REQUEST_TOKEN_KEY@),
        PodFieldView::Long(token),
    ]
}

/// The fields of a reset completion status.
pub open spec fn status_fields(completed_token: i64, result: i32) -> Seq<PodFieldView> {
    seq![
        PodFieldView::String(VERSION_KEY@),
        PodFieldView::Int(VERSION),
        PodFieldView::String(COMPLETED_TOKEN_KEY@),
        PodFieldView::Long(completed_token),
        PodFieldView::String(RESULT_KEY@),
        PodFieldView::Int(result),
    ]
}

/// The reset-control fields that `bytes` carry, or the error that decoding
/// them gives.
pub open spec fn spec_fields(bytes: Seq<u8>) -> Result<Seq<PodFieldView>, ResetControlErrorView> {
    match spec_props_fields(bytes) {
        Err(PropsError::InvalidObject) => Err(ResetControlErrorView::InvalidObject),
        Err(PropsError::InvalidFields) => Err(ResetControlErrorView::InvalidFields),
        Ok(fields) => if has_prefixed_key(fields, encode_utf8(KEY_PREFIX@)) {
            Ok(fields)
        } else {
            Err(ResetControlErrorView::NotResetControl)
        },
    }
}

/// `Ok(())` for the supported version, else the error naming `version`.
pub open spec fn spec_validate_version(version: i32) -> Result<(), ResetControlErrorView> {
    if version == VERSION {
        Ok(())
    } else {
        Err(ResetControlErrorView::UnsupportedVersion(version))
    }
}

/// The reset request that `bytes` carry, or why they carry none.
pub open spec fn spec_parse_request(bytes: Seq<u8>) -> Result<
    ResetControlRequest,
    ResetControlErrorView,
> {
    match spec_fields(bytes) {
        Err(e) => Err(e),
        Ok(fields) => if fields.len() != 4 {
            Err(ResetControlErrorView::InvalidFields)
        } else {
            match spec_field_int(fields, 0, VERSION_KEY@) {
                None => Err(ResetControlErrorView::InvalidFields),
                Some(version) => if version != VERSION {
                    Err(ResetControlErrorView::UnsupportedVersion(version))
                } else {
                    match spec_field_long(fields, 2, REQUEST_TOKEN_KEY@) {
                        None => Err(ResetControlErrorView::InvalidFields),
                        Some(token) => if token <= 0 {
                            Err(ResetControlErrorView::InvalidToken(token))
                        } else {
                            Ok(ResetControlRequest { token })
                        },
                    }
                },
            }
        },
    }
}

/// The reset completion that `bytes` carry, or why they carry none.
pub open spec fn spec_parse_status(bytes: Seq<u8>) -> Result<
    ResetControlStatus,
    ResetControlErrorView,
> {
    match spec_fields(bytes) {
        Err(e) => Err(e),
        Ok(fields) => if fields.len() != 6 {
            Err(ResetControlErrorView::InvalidFields)
        } else {
            match spec_field_int(fields, 0, VERSION_KEY@) {
                None => Err(ResetControlErrorView::InvalidFields),
                Some(version) => if version != VERSION {
                    Err(ResetControlErrorView::UnsupportedVersion(version))
                } else {
                    match spec_field_long(fields, 2, COMPLETED_TOKEN_KEY@) {
                        None => Err(ResetControlErrorView::InvalidFields),
                        Some(completed_token) => if completed_token < 0 {
                            Err(ResetControlErrorView::InvalidToken(completed_token))
                        } else {
                            match spec_field_int(fields, 4, RESULT_KEY@) {
                                None => Err(ResetControlErrorView::InvalidFields),
                                Some(result) => Ok(ResetControlStatus { completed_token, result }),
                            }
                        },
                    }
                },
            }
        },
    }
}

/// The keys hold no NUL character, are short, and begin with the key
/// prefix.
proof fn lemma_keys()
    ensures
        !VERSION_KEY@.contains('\0') && VERSION_KEY@.len() <= 64,
        !REQUEST_TOKEN_KEY@.contains('\0') && REQUEST_TOKEN_KEY@.len() <= 64,
        !COMPLETED_TOKEN_KEY@.contains('\0') && COMPLETED_TOKEN_KEY@.len() <= 64,
        !RESULT_KEY@.contains('\0') && RESULT_KEY@.len() <= 64,
        bytes_start_with(encode_utf8(VERSION_KEY@), encode_utf8(KEY_PREFIX@)),
{
    reveal_strlit("pipewireao.reset-control.");
    reveal_strlit("pipewireao.reset-control.version");
    reveal_strlit("pipewireao.reset-control.request-token");
    reveal_strlit("pipewireao.reset-control.completed-token");
    reveal_strlit("pipewireao.reset-control.result");
    reveal_strlit("version");
    assert(!VERSION_KEY@.contains('\0'));
    assert(!REQUEST_TOKEN_KEY@.contains('\0'));
    assert(!COMPLETED_TOKEN_KEY@.contains('\0'));
    assert(!RESULT_KEY@.contains('\0'));
    assert(VERSION_KEY@ =~= KEY_PREFIX@ + "version"@);
    lemma_encode_utf8_append(KEY_PREFIX@, "version"@);
    assert(encode_utf8(VERSION_KEY@).subrange(0, encode_utf8(KEY_PREFIX@).len() as int)
        =~= encode_utf8(KEY_PREFIX@));
}

/// A reset request with a positive token reads back as that request.
pub proof fn lemma_request_round_trip(token: i64)
    requires
        token > 0,
    ensures
        props_fields_object(request_fields(token)).len() <= MAX_BODY + 8,
        spec_parse_request(props_fields_object(request_fields(token))) == Ok::<
            _,
            ResetControlErrorView,
        >(ResetControlRequest { token }),
{
    let fields = request_fields(token);
    lemma_keys();
    assert forall|i: int| 0 <= i < fields.len() implies (#[trigger] fields[i] matches PodFieldView::String(
        text,
    ) ==> text.len() <= 64) && field_encodable(fields[i]) by {
        if i == 0 {
        } else if i == 1 {
        } else if i == 2 {
        } else {
        }
    }
    lemma_fields_fit(fields);
    lemma_props_fields_round_trip(fields);
    assert(key_with_prefix(fields[0], encode_utf8(KEY_PREFIX@)));
}

/// A reset completion with a token of zero or more reads back as that
/// completion.
pub proof fn lemma_status_round_trip(completed_token: i64, result: i32)
    requires
        completed_token >= 0,
    ensures
        props_fields_object(status_fields(completed_token, result)).len() <= MAX_BODY + 8,
        spec_parse_status(props_fields_object(status_fields(completed_token, result))) == Ok::<
            _,
            ResetControlErrorView,
        >(ResetControlStatus { completed_token, result }),
{
    let fields = status_fields(completed_token, result);
    lemma_keys();
    assert forall|i: int| 0 <= i < fields.len() implies (#[trigger] fields[i] matches PodFieldView::String(
        text,
    ) ==> text.len() <= 64) && field_encodable(fields[i]) by {
        if i == 0 {
        } else if i == 1 {
        } else if i == 2 {
        } else if i == 3 {
        } else if i == 4 {
        } else {
        }
    }
    lemma_fields_fit(fields);
    lemma_props_fields_round_trip(fields);
    assert(key_with_prefix(fields[0], encode_utf8(KEY_PREFIX@)));
}

/// Checks the contract version.
pub fn validate_version(version: i32) -> (r: Result<(), ResetControlError>)
    ensures
        match r {
            Ok(()) => spec_validate_version(version) == Ok::<_, ResetControlErrorView>(()),
            Err(e) => spec_validate_version(version) == Err::<(), _>(e@),
        },
{
    if version == VERSION {
        Ok(())
    } else {
        Err(ResetControlError::UnsupportedVersion(version))
    }
}

/// Encodes `fields` as the struct of a `Props` object.
pub fn encode(fields: Vec<Value>) -> (r: Result<Vec<u8>, ResetControlError>)
    ensures
        match r {
            Ok(bytes) => bytes@ == props_object(fields@),
            Err(e) => e@ is Serialization && props_object(fields@).len() > MAX_BODY + 8,
        },
{
    match encode_props(fields) {
        Some(bytes) => Ok(bytes),
        None => Err(
            ResetControlError::Serialization("POD body exceeds the u32 size range".to_owned()),
        ),
    }
}

/// Encodes a Version 1 reset request.
///
/// The request reads back with [`parse_request`] as the same token.
pub fn build_request(token: i64) -> (r: Result<Vec<u8>, ResetControlError>)
    ensures
        token <= 0 ==> (r matches Err(e) && e@ == ResetControlErrorView::InvalidToken(token)),
        token > 0 ==> (r matches Ok(bytes) && bytes@ == props_fields_object(request_fields(token))),
        r matches Ok(bytes) ==> spec_parse_request(bytes@) == Ok::<_, ResetControlErrorView>(
            ResetControlRequest { token },
        ),
{
    if token <= 0 {
        return Err(ResetControlError::InvalidToken(token));
    }
    let fields = vec![
        Value::String(VERSION_KEY.to_owned()),
        Value::Int(VERSION),
        Value::String(REQUEST_TOKEN_KEY.to_owned()),
        Value::Long(token),
    ];
    proof {
        assert forall|i: int| 0 <= i < fields@.len() implies scalar_field(#[trigger] fields@[i]) by {}
        lemma_scalar_props_object(fields@);
        assert(values_view(fields@) =~= request_fields(token));
        lemma_request_round_trip(token);
    }
    encode(fields)
}

/// The reset-control fields of the `Props` object at the front of `pod`.
fn fields(pod: &[u8]) -> (r: Result<Vec<PodField>, ResetControlError>)
    ensures
        match r {
            Ok(fields) => spec_fields(pod@) == Ok::<_, ResetControlErrorView>(fields_view(fields@)),
            Err(e) => spec_fields(pod@) == Err::<Seq<PodFieldView>, _>(e@),
        },
{
    let fields = match props_fields(pod) {
        Ok(fields) => fields,
        Err(PropsError::InvalidObject) => return Err(ResetControlError::InvalidObject),
        Err(PropsError::InvalidFields) => return Err(ResetControlError::InvalidFields),
    };
    if !fields_have_prefixed_key(fields.as_slice(), KEY_PREFIX) {
        return Err(ResetControlError::NotResetControl);
    }
    Ok(fields)
}

/// The `Int` value of the key/value pair at `index`.
fn pair_int(fields: &[PodField], index: usize, expected_key: &str) -> (r: Result<
    i32,
    ResetControlError,
>)
    ensures
        match r {
            Ok(value) => spec_field_int(fields_view(fields@), index as int, expected_key@) == Some(
                value,
            ),
            Err(e) => spec_field_int(fields_view(fields@), index as int, expected_key@) is None
                && e@ == ResetControlErrorView::InvalidFields,
        },
{
    match field_int(fields, index, expected_key) {
        Some(value) => Ok(value),
        None => Err(ResetControlError::InvalidFields),
    }
}

/// The `Long` value of the key/value pair at `index`.
fn pair_long(fields: &[PodField], index: usize, expected_key: &str) -> (r: Result<
    i64,
    ResetControlError,
>)
    ensures
        match r {
            Ok(value) => spec_field_long(fields_view(fields@), index as int, expected_key@) == Some(
                value,
            ),
            Err(e) => spec_field_long(fields_view(fields@), index as int, expected_key@) is None
                && e@ == ResetControlErrorView::InvalidFields,
        },
{
    match field_long(fields, index, expected_key) {
        Some(value) => Ok(value),
        None => Err(ResetControlError::InvalidFields),
    }
}

/// Decodes and strictly validates a Version 1 reset request.
pub fn parse_request(pod: &[u8]) -> (r: Result<ResetControlRequest, ResetControlError>)
    ensures
        match r {
            Ok(request) => spec_parse_request(pod@) == Ok::<_, ResetControlErrorView>(request),
            Err(e) => spec_parse_request(pod@) == Err::<ResetControlRequest, _>(e@),
        },
{
    let fields = fields(pod)?;
    if fields.len() != 4 {
        return Err(ResetControlError::InvalidFields);
    }
    validate_version(pair_int(fields.as_slice(), 0, VERSION_KEY)?)?;
    let token = pair_long(fields.as_slice(), 2, REQUEST_TOKEN_KEY)?;
    if token <= 0 {
        return Err(ResetControlError::InvalidToken(token));
    }
    Ok(ResetControlRequest { token })
}

/// Decodes and strictly validates a Version 1 reset completion.
pub fn parse_status(pod: &[u8]) -> (r: Result<ResetControlStatus, ResetControlError>)
    ensures
        match r {
            Ok(status) => spec_parse_status(pod@) == Ok::<_, ResetControlErrorView>(status),
            Err(e) => spec_parse_status(pod@) == Err::<ResetControlStatus, _>(e@),
        },
{
    let fields = fields(pod)?;
    if fields.len() != 6 {
        return Err(ResetControlError::InvalidFields);
    }
    validate_version(pair_int(fields.as_slice(), 0, VERSION_KEY)?)?;
    let completed_token = pair_long(fields.as_slice(), 2, COMPLETED_TOKEN_KEY)?;
    if completed_token < 0 {
        return Err(ResetControlError::InvalidToken(completed_token));
    }
    let result = pair_int(fields.as_slice(), 4, RESULT_KEY)?;
    Ok(ResetControlStatus { completed_token, result })
}

} // verus!
