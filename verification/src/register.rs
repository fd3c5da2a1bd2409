//! Registration orchestration: decode one form part, route it by its field
//! name into the builder, collect "Invalid field" errors for unrecognized
//! names, and run the terminal validation step.
//!
//! The transport loop (reading multipart parts, calling the storage
//! collaborators that turn an email address or an image into an opaque
//! identifier) lives outside; the decisions it takes are all here.

use vstd::prelude::*;

use crate::erro::add_error;
use crate::erro::add_error_spec;
use crate::erro::merge_errors;
use crate::erro::merge_spec;
use crate::erro::lemma_merge_identity;
use crate::erro::str_eq;
use crate::erro::ErrorMap;
use crate::users::built_user;
use crate::users::build_ok;
use crate::users::empty_builder;
use crate::users::required_errors;
use crate::users::BuilderView;
use crate::users::InsertableUser;
use crate::users::InsertableUserBuilder;
use crate::users::ResourceId;

verus! {

/// What `String::from_utf8` yields on a byte sequence: the decoded text
/// when the bytes are valid UTF-8, nothing otherwise.
pub uninterp spec fn utf8_decode(bytes: Seq<u8>) -> Option<Seq<char>>;

/// Relies on String::from_utf8: returns the decoded text exactly when the
/// bytes are valid UTF-8, and the result depends on the bytes alone.
#[verifier::external_body]
fn string_from_utf8(bytes: Vec<u8>) -> (r: Option<String>)
    ensures
        match r {
            Some(s) => utf8_decode(bytes@) == Some(s@),
            None => utf8_decode(bytes@) is None,
        },
{
    String::from_utf8(bytes).ok()
}

/// A structural parse failure: the named form part could not be decoded.
/// Fatal to the whole request — never accumulated with validation errors.
#[derive(Debug)]
pub struct MalformedPart {
    pub field: String,
    pub cause: String,
}

/// Decode the textual content of the form part named `field`.
pub fn parse_text_part(field: &str, bytes: Vec<u8>) -> (r: Result<String, MalformedPart>)
    ensures
        r matches Ok(s) ==> utf8_decode(bytes@) == Some(s@),
        r matches Err(e) ==> utf8_decode(bytes@) is None && e.field@ == field@ && e.cause@
            == "invalid utf-8 text"@,
{
    match string_from_utf8(bytes) {
        Some(s) => Ok(s),
        None => Err(
            MalformedPart { field: field.to_owned(), cause: "invalid utf-8 text".to_owned() },
        ),
    }
}

/// Extract the declared content type and the raw payload of the image part
/// named `field`; both are required for downstream storage.
pub fn parse_image_part(field: &str, content_type: Option<String>, bytes: Vec<u8>) -> (r: Result<
    (String, Vec<u8>),
    MalformedPart,
>)
    ensures
        content_type matches Some(ct) ==> r matches Ok(p) && p.0@ == ct@ && p.1@ == bytes@,
        content_type is None ==> (r matches Err(e) && e.field@ == field@ && e.cause@
            == "missing image content type"@),
{
    match content_type {
        Some(ct) => Ok((ct, bytes)),
        None => Err(
            MalformedPart {
                field: field.to_owned(),
                cause: "missing image content type".to_owned(),
            },
        ),
    }
}

/// The recognized form field names, and Unknown for everything else.
#[derive(Clone, Copy, PartialEq, Eq, Structural, Debug)]
pub enum FieldKind {
    Username,
    Password,
    FullName,
    Email,
    ProfilePic,
    Unknown,
}

/// Which field a part's declared name routes to.
pub open spec fn classify_spec(name: Seq<char>) -> FieldKind {
    if name == "username"@ {
        FieldKind::Username
    } else if name == "password"@ {
        FieldKind::Password
    } else if name == "full_name"@ {
        FieldKind::FullName
    } else if name == "email"@ {
        FieldKind::Email
    } else if name == "profile_pic"@ {
        FieldKind::ProfilePic
    } else {
        FieldKind::Unknown
    }
}

/// Route a part's declared field name.
pub fn classify_field(name: &str) -> (k: FieldKind)
    ensures
        k == classify_spec(name@),
{
    if str_eq(name, "username") {
        FieldKind::Username
    } else if str_eq(name, "password") {
        FieldKind::Password
    } else if str_eq(name, "full_name") {
        FieldKind::FullName
    } else if str_eq(name, "email") {
        FieldKind::Email
    } else if str_eq(name, "profile_pic") {
        FieldKind::ProfilePic
    } else {
        FieldKind::Unknown
    }
}

/// The routed content of one form part: decoded text for the textual
/// fields, or the opaque identifier a storage collaborator returned for a
/// sub-resource (email record, image record).
pub enum PartValue {
    Text(String),
    Reference(ResourceId),
}

/// The value shape that a part's field name calls for.
pub open spec fn part_ok(name: Seq<char>, value: PartValue) -> bool {
    match classify_spec(name) {
        FieldKind::Username => value is Text,
        FieldKind::Password => value is Text,
        FieldKind::FullName => value is Text,
        FieldKind::Email => value is Reference,
        FieldKind::ProfilePic => value is Reference,
        FieldKind::Unknown => true,
    }
}

/// How one part changes the builder state and the routing errors.
pub open spec fn apply_part_spec(
    b: BuilderView,
    e: Map<Seq<char>, Seq<Seq<char>>>,
    name: Seq<char>,
    value: PartValue,
) -> (BuilderView, Map<Seq<char>, Seq<Seq<char>>>) {
    match (classify_spec(name), value) {
        (FieldKind::Username, PartValue::Text(t)) => (BuilderView { username: t@, ..b }, e),
        (FieldKind::Password, PartValue::Text(t)) => (BuilderView { passwd_hash: t@, ..b }, e),
        (FieldKind::FullName, PartValue::Text(t)) => (
            BuilderView { full_name: Some(t@), ..b },
            e,
        ),
        (FieldKind::Email, PartValue::Reference(id)) => (
            BuilderView { email_id: Some(id), ..b },
            e,
        ),
        (FieldKind::ProfilePic, PartValue::Reference(id)) => (
            BuilderView { profile_pic_id: Some(id), ..b },
            e,
        ),
        (FieldKind::Unknown, _) => (b, add_error_spec(e, name, "Invalid field"@)),
        _ => (b, e),
    }
}

/// One in-flight registration request: the builder so far and the routing
/// errors recorded for unrecognized field names. Request-local; built fresh
/// for every request.
pub struct Registration {
    builder: InsertableUserBuilder,
    errors: ErrorMap,
}

impl Registration {
    /// The builder state accumulated so far.
    pub closed spec fn builder_view(self) -> BuilderView {
        self.builder@
    }

    /// The routing errors recorded so far.
    pub closed spec fn errors_view(self) -> Map<Seq<char>, Seq<Seq<char>>> {
        self.errors@
    }

    /// Internal invariant of the error accumulator.
    pub closed spec fn wf(self) -> bool {
        self.errors.wf()
    }

    /// A fresh request: empty builder, no routing errors.
    pub fn new() -> (r: Self)
        ensures
            r.wf(),
            r.builder_view() == empty_builder(),
            r.errors_view() == Map::<Seq<char>, Seq<Seq<char>>>::empty(),
    {
        Registration { builder: InsertableUserBuilder::new(), errors: ErrorMap::new() }
    }

    /// Route one form part by its declared field name: recognized names set
    /// the matching builder field; an unrecognized name records "Invalid
    /// field" under that name and is otherwise ignored.
    pub fn apply_part(self, name: &str, value: PartValue) -> (r: Self)
        requires
            self.wf(),
            part_ok(name@, value),
        ensures
            r.wf(),
            (r.builder_view(), r.errors_view()) == apply_part_spec(
                self.builder_view(),
                self.errors_view(),
                name@,
                value,
            ),
    {
        let Registration { builder, errors } = self;
        let kind = classify_field(name);
        match (kind, value) {
            (FieldKind::Username, PartValue::Text(t)) => Registration {
                builder: builder.with_username(t),
                errors,
            },
            (FieldKind::Password, PartValue::Text(t)) => Registration {
                builder: builder.with_password(t),
                errors,
            },
            (FieldKind::FullName, PartValue::Text(t)) => Registration {
                builder: builder.with_full_name(t),
                errors,
            },
            (FieldKind::Email, PartValue::Reference(id)) => Registration {
                builder: builder.with_email_id(id),
                errors,
            },
            (FieldKind::ProfilePic, PartValue::Reference(id)) => Registration {
                builder: builder.with_profile_pic_id(id),
                errors,
            },
            (FieldKind::Unknown, _) => Registration {
                builder,
                errors: add_error(errors, name.to_owned(), "Invalid field".to_owned()),
            },
            _ => {
                proof {
                    assert(false);
                }
                Registration { builder, errors }
            },
        }
    }

    /// Terminal step of a request: merge the routing errors with the
    /// builder's validation outcome. The request succeeds only when both
    /// are clean — an unknown field name fails an otherwise valid
    /// submission.
    pub fn finish(self) -> (r: Result<InsertableUser, ErrorMap>)
        requires
            self.wf(),
        ensures
            r is Ok <==> (self.errors_view() == Map::<Seq<char>, Seq<Seq<char>>>::empty()
                && build_ok(self.builder_view())),
            r matches Ok(u) ==> u@ == built_user(self.builder_view()),
            r matches Err(e) ==> e.wf() && e@ == merge_spec(
                self.errors_view(),
                required_errors(self.builder_view()),
            ),
    {
        let Registration { builder, errors } = self;
        let routing_clean = errors.is_empty();
        match builder.build() {
            Ok(user) => {
                if routing_clean {
                    Ok(user)
                } else {
                    proof {
                        lemma_merge_identity(self.errors_view());
                    }
                    Err(errors)
                }
            },
            Err(build_errors) => Err(merge_errors(errors, build_errors)),
        }
    }
}

/// Every part's value has the shape its field name calls for.
pub open spec fn parts_ok(parts: Seq<(String, PartValue)>) -> bool {
    forall|i: int| 0 <= i < parts.len() ==> part_ok(parts[i].0@, parts[i].1)
}

/// The builder state and routing errors after processing the parts in
/// arrival order.
pub open spec fn route_all(
    b: BuilderView,
    e: Map<Seq<char>, Seq<Seq<char>>>,
    parts: Seq<(String, PartValue)>,
) -> (BuilderView, Map<Seq<char>, Seq<Seq<char>>>)
    decreases parts.len(),
{
    if parts.len() == 0 {
        (b, e)
    } else {
        let next = apply_part_spec(b, e, parts[0].0@, parts[0].1);
        route_all(next.0, next.1, parts.drop_first())
    }
}

/// Process a whole submission whose parts are already decoded and resolved:
/// route every part in arrival order, then run the terminal validation.
pub fn register_parts(parts: Vec<(String, PartValue)>) -> (r: Result<InsertableUser, ErrorMap>)
    requires
        parts_ok(parts@),
    ensures
        ({
            let routed = route_all(
                empty_builder(),
                Map::<Seq<char>, Seq<Seq<char>>>::empty(),
                parts@,
            );
            &&& r is Ok <==> (routed.1 == Map::<Seq<char>, Seq<Seq<char>>>::empty() && build_ok(
                routed.0,
            ))
            &&& (r matches Ok(u) ==> u@ == built_user(routed.0))
            &&& (r matches Err(e) ==> e.wf() && e@ == merge_spec(
                routed.1,
                required_errors(routed.0),
            ))
        }),
{
    let ghost all_parts = parts@;
    let mut reg = Registration::new();
    let mut rest = parts;
    while rest.len() > 0
        invariant
            reg.wf(),
            parts_ok(rest@),
            route_all(reg.builder_view(), reg.errors_view(), rest@) == route_all(
                empty_builder(),
                Map::<Seq<char>, Seq<Seq<char>>>::empty(),
                all_parts,
            ),
        decreases rest@.len(),
    {
        let ghost rpre = rest@;
        let part = rest.remove(0);
        proof {
            assert(rest@ =~= rpre.drop_first());
            assert(part == rpre[0]);
            assert(forall|i: int| 0 <= i < rest@.len() ==> rest@[i] == rpre[i + 1]);
        }
        reg = reg.apply_part(part.0.as_str(), part.1);
    }
    proof {
        assert(rest@.len() == 0);
    }
    reg.finish()
}

} // verus!

