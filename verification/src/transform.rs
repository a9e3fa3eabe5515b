//! The transform step: the inner document names a user by identifier at
//! `user_reg.createdby`; the reply carries the user's name in that place.

use crate::json::{member, put, Json, JsonView};
use vstd::prelude::*;

verus! {

/// Why an inner document cannot be transformed.
#[derive(Debug, Clone, Copy, PartialEq, Eq, Structural)]
pub enum TransformError {
    /// `user_reg` or `createdby` is absent.
    PathMissing,
    /// `createdby` is there but is no string.
    TypeMismatch,
}

/// Name of the outer segment of the path.
pub open spec fn user_reg_name() -> Seq<char> {
    "user_reg"@
}

/// Name of the inner segment of the path.
pub open spec fn created_by_name() -> Seq<char> {
    "createdby"@
}

/// The user identifier at `user_reg.createdby`.
pub open spec fn created_by_spec(inner: JsonView) -> Result<Seq<char>, TransformError> {
    match inner.member(user_reg_name()) {
        None => Err(TransformError::PathMissing),
        Some(user_reg) => match user_reg.member(created_by_name()) {
            None => Err(TransformError::PathMissing),
            Some(JsonView::Text(user_id)) => Ok(user_id),
            Some(_) => Err(TransformError::TypeMismatch),
        },
    }
}

/// The inner document with `user_reg.createdby` overwritten by `name`.
pub open spec fn transform_spec(inner: JsonView, name: Seq<char>) -> Result<
    JsonView,
    TransformError,
> {
    match created_by_spec(inner) {
        Err(error) => Err(error),
        Ok(_) => {
            let members = inner->Object_0;
            let user_reg = members[user_reg_name()]->Object_0;
            Ok(
                JsonView::Object(
                    members.insert(
                        user_reg_name(),
                        JsonView::Object(user_reg.insert(created_by_name(), JsonView::Text(name))),
                    ),
                ),
            )
        },
    }
}

/// A successful transform keeps every member of the document and every member
/// of `user_reg` as it was, except `user_reg.createdby`, which holds the
/// resolved name afterwards.
pub proof fn lemma_transform_preserves(inner: JsonView, name: Seq<char>)
    requires
        transform_spec(inner, name) is Ok,
    ensures
        ({
            let reply = transform_spec(inner, name)->Ok_0;
            let user_reg = inner.member(user_reg_name())->Some_0;
            let user_reg_after = reply.member(user_reg_name())->Some_0;
            &&& inner is Object && reply is Object
            &&& reply->Object_0.dom() == inner->Object_0.dom()
            &&& forall|other: Seq<char>|
                other != user_reg_name() ==> reply.member(other) == inner.member(other)
            &&& user_reg is Object && user_reg_after is Object
            &&& user_reg_after->Object_0.dom() == user_reg->Object_0.dom()
            &&& forall|other: Seq<char>|
                other != created_by_name() ==> user_reg_after.member(other) == user_reg.member(
                    other,
                )
            &&& user_reg_after.member(created_by_name()) == Some(JsonView::Text(name))
        }),
{
    let reply = transform_spec(inner, name)->Ok_0;
    let user_reg = inner.member(user_reg_name())->Some_0;
    let user_reg_after = reply.member(user_reg_name())->Some_0;
    assert(reply->Object_0.dom() =~= inner->Object_0.dom());
    assert(user_reg_after->Object_0.dom() =~= user_reg->Object_0.dom());
}

/// After a successful transform the path holds the resolved name, and the
/// transform fails exactly where the path cannot be read.
pub proof fn lemma_transform_reads_back(inner: JsonView, name: Seq<char>)
    ensures
        transform_spec(inner, name) is Ok <==> created_by_spec(inner) is Ok,
        transform_spec(inner, name) matches Ok(reply) ==> created_by_spec(reply) == Ok::<
            Seq<char>,
            TransformError,
        >(name),
        transform_spec(inner, name) matches Err(error) ==> created_by_spec(inner) == Err::<
            Seq<char>,
            TransformError,
        >(error),
{
}

/// Reads the user identifier at `user_reg.createdby`.
pub fn created_by(inner: &Json) -> (user_id: Result<String, TransformError>)
    ensures
        match user_id {
            Ok(id) => created_by_spec(inner@) == Ok::<Seq<char>, TransformError>(id@),
            Err(error) => created_by_spec(inner@) == Err::<Seq<char>, TransformError>(error),
        },
{
    match inner.get("user_reg") {
        None => Err(TransformError::PathMissing),
        Some(user_reg) => match user_reg.get("createdby") {
            None => Err(TransformError::PathMissing),
            Some(Json::Text(user_id)) => Ok(user_id),
            Some(_) => Err(TransformError::TypeMismatch),
        },
    }
}

/// Overwrites `user_reg.createdby` with the resolved name; every other member
/// stays as it was.
pub fn transform(inner: Json, resolved_name: String) -> (reply: Result<Json, TransformError>)
    ensures
        match reply {
            Ok(json) => transform_spec(inner@, resolved_name@) == Ok::<JsonView, TransformError>(
                json@,
            ),
            Err(error) => transform_spec(inner@, resolved_name@) == Err::<
                JsonView,
                TransformError,
            >(error),
        },
{
    let mut document = match inner {
        Json::Object(document) => document,
        _ => { return Err(TransformError::PathMissing); },
    };
    let mut user_reg = match member(&document, "user_reg") {
        Some(Json::Object(user_reg)) => user_reg,
        _ => { return Err(TransformError::PathMissing); },
    };
    match member(&user_reg, "createdby") {
        None => { return Err(TransformError::PathMissing); },
        Some(Json::Text(_)) => {},
        Some(_) => { return Err(TransformError::TypeMismatch); },
    }
    put(&mut user_reg, "createdby".to_owned(), &Json::Text(resolved_name));
    put(&mut document, "user_reg".to_owned(), &Json::Object(user_reg));
    Ok(Json::Object(document))
}

} // verus!
