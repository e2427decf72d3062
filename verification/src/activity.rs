//! Activities, as JSON text.
//!
//! The vocabulary and its encoding come from the crate `activitystreams`, the
//! syntax of addresses from the crate `url`. What they compute is named here;
//! each name stands for the result of one computation, as a function of the
//! texts that go in. The text of an activity has its properties sorted by name.

use activitystreams::activity::{Create, Delete, Undo, Update};
use activitystreams::base::{AnyBase, BaseExt};
use activitystreams::object::ObjectExt;
use url::Url;
use vstd::prelude::*;

verus! {

/// The error of `url::Url::parse`.
#[verifier::external_type_specification]
#[verifier::external_body]
pub struct ExParseError(url::ParseError);

/// What `url::Url::parse` makes of a text: the address, written out, or an error
/// where the text is no absolute address.
pub uninterp spec fn parsed_url(text: Seq<char>) -> Result<Seq<char>, url::ParseError>;

/// Calls `url::Url::parse`. The result is a function of the text alone, which
/// [`parsed_url`] names; the address is handed back as `Url` writes it, the error
/// as it is.
#[verifier::external_body]
pub(crate) fn parse_url(text: &str) -> (res: Result<String, url::ParseError>)
    ensures
        match res {
            Ok(address) => parsed_url(text@) == Ok::<Seq<char>, url::ParseError>(address@),
            Err(e) => parsed_url(text@) == Err::<Seq<char>, url::ParseError>(e),
        },
{
    Url::parse(text).map(String::from)
}

/// What `activitystreams` makes of the JSON text of an object, when it is to
/// stand inside of an activity: its text as an `AnyBase`, or nothing where the
/// text is no such object.
pub uninterp spec fn object_json(object: Seq<char>) -> Option<Seq<char>>;

/// Reads a text as an `activitystreams::base::AnyBase`, the form that every
/// object takes inside of an activity, and writes it out. The result is a
/// function of the text alone, which [`object_json`] names.
#[verifier::external_body]
pub(crate) fn read_object(object: &str) -> (res: Option<String>)
    ensures
        match res {
            Some(text) => object_json(object@) == Some(text@),
            None => object_json(object@) is None,
        },
{
    let object: AnyBase = serde_json::from_str(object).ok()?;
    Some(serde_json::to_value(&object).ok()?.to_string())
}

/// The text of a `Create` by `actor` of an `object`, under the address `id`, to
/// the address `to`.
pub uninterp spec fn create_json(
    actor: Seq<char>,
    object: Seq<char>,
    id: Seq<char>,
    to: Seq<char>,
) -> Option<Seq<char>>;

/// Calls `activitystreams::activity::Create::new` with the actor and the object
/// and sets context, id and recipient of the activity. The text of the activity
/// is a function of the four texts, which [`create_json`] names. There is one
/// exactly where [`read_object`] can read the object and [`parse_url`] both
/// addresses.
#[verifier::external_body]
pub(crate) fn create_activity(actor: &str, object: &str, id: &str, to: &str) -> (res: Option<
    String,
>)
    ensures
        match res {
            Some(text) => create_json(actor@, object@, id@, to@) == Some(text@),
            None => create_json(actor@, object@, id@, to@) is None,
        },
        res is Some <==> {
            &&& object_json(object@) is Some
            &&& parsed_url(id@) is Ok
            &&& parsed_url(to@) is Ok
        },
{
    let object: AnyBase = serde_json::from_str(object).ok()?;
    let (id, to) = (Url::parse(id).ok()?, Url::parse(to).ok()?);
    let mut create = Create::new(actor.to_owned(), object);
    create.set_context(activitystreams::context()).set_id(id).set_to(to);
    Some(serde_json::to_value(&create).ok()?.to_string())
}

/// The text of an `Update` by `actor` of an `object`, under the address `id`, to
/// the address `to`.
pub uninterp spec fn update_json(
    actor: Seq<char>,
    object: Seq<char>,
    id: Seq<char>,
    to: Seq<char>,
) -> Option<Seq<char>>;

/// Calls `activitystreams::activity::Update::new` with the actor and the object
/// and sets context, id and recipient of the activity. The text of the activity
/// is a function of the four texts, which [`update_json`] names. There is one
/// exactly where [`read_object`] can read the object and [`parse_url`] both
/// addresses.
#[verifier::external_body]
pub(crate) fn update_activity(actor: &str, object: &str, id: &str, to: &str) -> (res: Option<
    String,
>)
    ensures
        match res {
            Some(text) => update_json(actor@, object@, id@, to@) == Some(text@),
            None => update_json(actor@, object@, id@, to@) is None,
        },
        res is Some <==> {
            &&& object_json(object@) is Some
            &&& parsed_url(id@) is Ok
            &&& parsed_url(to@) is Ok
        },
{
    let object: AnyBase = serde_json::from_str(object).ok()?;
    let (id, to) = (Url::parse(id).ok()?, Url::parse(to).ok()?);
    let mut update = Update::new(actor.to_owned(), object);
    update.set_context(activitystreams::context()).set_id(id).set_to(to);
    Some(serde_json::to_value(&update).ok()?.to_string())
}

/// The text of a `Delete` by `actor` of what is at the address `object`, under
/// the address `id`, to the address `to`.
pub uninterp spec fn delete_json(
    actor: Seq<char>,
    object: Seq<char>,
    id: Seq<char>,
    to: Seq<char>,
) -> Option<Seq<char>>;

/// Calls `activitystreams::activity::Delete::new` with the actor and the address
/// of the object and sets context, id and recipient of the activity. The text of
/// the activity is a function of the four texts, which [`delete_json`] names.
/// There is one exactly where [`parse_url`] can read the three addresses, and
/// [`read_object`] can read it: an activity that was written out can stand inside
/// of another one.
#[verifier::external_body]
pub(crate) fn delete_activity(actor: &str, object: &str, id: &str, to: &str) -> (res: Option<
    String,
>)
    ensures
        match res {
            Some(text) => delete_json(actor@, object@, id@, to@) == Some(text@),
            None => delete_json(actor@, object@, id@, to@) is None,
        },
        res matches Some(text) ==> object_json(text@) is Some,
        res is Some <==> {
            &&& parsed_url(object@) is Ok
            &&& parsed_url(id@) is Ok
            &&& parsed_url(to@) is Ok
        },
{
    let object = Url::parse(object).ok()?;
    let (id, to) = (Url::parse(id).ok()?, Url::parse(to).ok()?);
    let mut delete = Delete::new(actor.to_owned(), object);
    delete.set_context(activitystreams::context()).set_id(id).set_to(to);
    Some(serde_json::to_value(&delete).ok()?.to_string())
}

/// The text of an `Undo` by `actor` of an `object`, under the address `id`, to
/// the address `to`.
pub uninterp spec fn undo_json(
    actor: Seq<char>,
    object: Seq<char>,
    id: Seq<char>,
    to: Seq<char>,
) -> Option<Seq<char>>;

/// Calls `activitystreams::activity::Undo::new` with the actor and the object
/// and sets context, id and recipient of the activity. The text of the activity
/// is a function of the four texts, which [`undo_json`] names. There is one
/// exactly where [`read_object`] can read the object and [`parse_url`] both
/// addresses.
#[verifier::external_body]
pub(crate) fn undo_activity(actor: &str, object: &str, id: &str, to: &str) -> (res: Option<String>)
    ensures
        match res {
            Some(text) => undo_json(actor@, object@, id@, to@) == Some(text@),
            None => undo_json(actor@, object@, id@, to@) is None,
        },
        res is Some <==> {
            &&& object_json(object@) is Some
            &&& parsed_url(id@) is Ok
            &&& parsed_url(to@) is Ok
        },
{
    let object: AnyBase = serde_json::from_str(object).ok()?;
    let (id, to) = (Url::parse(id).ok()?, Url::parse(to).ok()?);
    let mut undo = Undo::new(actor.to_owned(), object);
    undo.set_context(activitystreams::context()).set_id(id).set_to(to);
    Some(serde_json::to_value(&undo).ok()?.to_string())
}

} // verus!
