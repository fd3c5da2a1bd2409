//! The entity builder: accumulates parsed registration fields and, in one
//! terminal validation step, either yields the immutable insertable user or
//! the full set of missing-field errors.

use vstd::prelude::*;

use crate::erro::add_error;
use crate::erro::add_error_spec;
use crate::erro::ErrorMap;

verus! {

/// Opaque reference to a sub-resource record (an email row, an image row),
/// handed out by a storage collaborator and never interpreted here.
#[derive(Clone, Copy, PartialEq, Eq, Structural, Debug)]
pub struct ResourceId {
    pub value: u128,
}

/// Mathematical value of a builder: what has been set so far.
pub ghost struct BuilderView {
    pub username: Seq<char>,
    pub full_name: Option<Seq<char>>,
    pub profile_pic_id: Option<ResourceId>,
    pub email_id: Option<ResourceId>,
    pub passwd_hash: Seq<char>,
}

/// Mathematical value of a validated user: every required field present.
pub ghost struct UserView {
    pub username: Seq<char>,
    pub full_name: Option<Seq<char>>,
    pub profile_pic_id: Option<ResourceId>,
    pub email_id: ResourceId,
    pub passwd_hash: Seq<char>,
}

/// The state of a freshly created builder: texts empty, options unset.
pub open spec fn empty_builder() -> BuilderView {
    BuilderView {
        username: Seq::empty(),
        full_name: None,
        profile_pic_id: None,
        email_id: None,
        passwd_hash: Seq::empty(),
    }
}

/// All required fields are present: validation succeeds.
pub open spec fn build_ok(b: BuilderView) -> bool {
    b.username.len() > 0 && b.passwd_hash.len() > 0 && b.email_id is Some
}

/// The user that a successful terminal step yields.
pub open spec fn built_user(b: BuilderView) -> UserView {
    UserView {
        username: b.username,
        full_name: b.full_name,
        profile_pic_id: b.profile_pic_id,
        email_id: b.email_id->0,
        passwd_hash: b.passwd_hash,
    }
}

/// The accumulator that a failing terminal step yields: one "Missing field"
/// entry per violated constraint, under its fixed field name.
pub open spec fn required_errors(b: BuilderView) -> Map<Seq<char>, Seq<Seq<char>>> {
    let m0 = Map::<Seq<char>, Seq<Seq<char>>>::empty();
    let m1 = if b.username.len() == 0 {
        add_error_spec(m0, "username"@, "Missing field"@)
    } else {
        m0
    };
    let m2 = if b.passwd_hash.len() == 0 {
        add_error_spec(m1, "password"@, "Missing field"@)
    } else {
        m1
    };
    if b.email_id is None {
        add_error_spec(m2, "email"@, "Missing field"@)
    } else {
        m2
    }
}

/// Represents a user to be inserted in the database. Immutable: an instance
/// exists only if every required field was present when it was built.
#[derive(Debug)]
pub struct InsertableUser {
    username: String,
    full_name: Option<String>,
    profile_pic_id: Option<ResourceId>,
    email_id: ResourceId,
    passwd_hash: String,
}

impl View for InsertableUser {
    type V = UserView;

    closed spec fn view(&self) -> UserView {
        UserView {
            username: self.username@,
            full_name: match self.full_name {
                Some(n) => Some(n@),
                None => None,
            },
            profile_pic_id: self.profile_pic_id,
            email_id: self.email_id,
            passwd_hash: self.passwd_hash@,
        }
    }
}

impl InsertableUser {
    #[must_use]
    pub fn username(&self) -> (r: String)
        ensures
            r@ == self@.username,
    {
        self.username.clone()
    }

    #[must_use]
    pub fn full_name(&self) -> (r: Option<String>)
        ensures
            match r {
                Some(n) => self@.full_name matches Some(v) && v == n@,
                None => self@.full_name is None,
            },
    {
        match &self.full_name {
            Some(n) => Some(n.clone()),
            None => None,
        }
    }

    #[must_use]
    pub fn profile_pic_id(&self) -> (r: Option<ResourceId>)
        ensures
            r == self@.profile_pic_id,
    {
        self.profile_pic_id
    }

    #[must_use]
    pub fn email_id(&self) -> (r: ResourceId)
        ensures
            r == self@.email_id,
    {
        self.email_id
    }

    #[must_use]
    pub fn passwd_hash(&self) -> (r: String)
        ensures
            r@ == self@.passwd_hash,
    {
        self.passwd_hash.clone()
    }
}

/// Build a new `InsertableUser`, recording fields one at a time and
/// validating them all at once at the end.
pub struct InsertableUserBuilder {
    username: String,
    full_name: Option<String>,
    profile_pic_id: Option<ResourceId>,
    email_id: Option<ResourceId>,
    passwd_hash: String,
}

impl View for InsertableUserBuilder {
    type V = BuilderView;

    closed spec fn view(&self) -> BuilderView {
        BuilderView {
            username: self.username@,
            full_name: match self.full_name {
                Some(n) => Some(n@),
                None => None,
            },
            profile_pic_id: self.profile_pic_id,
            email_id: self.email_id,
            passwd_hash: self.passwd_hash@,
        }
    }
}

impl InsertableUserBuilder {
    #[must_use]
    pub fn new() -> (r: Self)
        ensures
            r@ == empty_builder(),
    {
        InsertableUserBuilder {
            username: String::new(),
            full_name: None,
            profile_pic_id: None,
            email_id: None,
            passwd_hash: String::new(),
        }
    }

    #[must_use]
    pub fn with_username(self, username: String) -> (r: Self)
        ensures
            r@ == (BuilderView { username: username@, ..self@ }),
    {
        InsertableUserBuilder { username, ..self }
    }

    #[must_use]
    pub fn with_full_name(self, full_name: String) -> (r: Self)
        ensures
            r@ == (BuilderView { full_name: Some(full_name@), ..self@ }),
    {
        InsertableUserBuilder { full_name: Some(full_name), ..self }
    }

    #[must_use]
    pub fn with_password(self, passwd: String) -> (r: Self)
        ensures
            r@ == (BuilderView { passwd_hash: passwd@, ..self@ }),
    {
        InsertableUserBuilder { passwd_hash: passwd, ..self }
    }

    #[must_use]
    pub fn with_email_id(self, email_id: ResourceId) -> (r: Self)
        ensures
            r@ == (BuilderView { email_id: Some(email_id), ..self@ }),
    {
        InsertableUserBuilder { email_id: Some(email_id), ..self }
    }

    #[must_use]
    pub fn with_profile_pic_id(self, profile_pic_id: ResourceId) -> (r: Self)
        ensures
            r@ == (BuilderView { profile_pic_id: Some(profile_pic_id), ..self@ }),
    {
        InsertableUserBuilder { profile_pic_id: Some(profile_pic_id), ..self }
    }

    /// Terminal validation step: checks the three required fields all at
    /// once (never short-circuiting) and either yields the immutable
    /// `InsertableUser` or the accumulator with every violated constraint.
    pub fn build(self) -> (r: Result<InsertableUser, ErrorMap>)
        ensures
            r is Ok <==> build_ok(self@),
            r matches Ok(u) ==> u@ == built_user(self@),
            r matches Err(e) ==> e.wf() && e@ == required_errors(self@),
    {
        let username_missing = self.username.as_str().is_empty();
        let password_missing = self.passwd_hash.as_str().is_empty();
        let email_missing = self.email_id.is_none();

        if !username_missing && !password_missing && !email_missing {
            Ok(
                InsertableUser {
                    username: self.username,
                    full_name: self.full_name,
                    profile_pic_id: self.profile_pic_id,
                    email_id: self.email_id.unwrap(),
                    passwd_hash: self.passwd_hash,
                },
            )
        } else {
            let mut errors = ErrorMap::new();
            if username_missing {
                errors = add_error(errors, "username".to_owned(), "Missing field".to_owned());
            }
            if password_missing {
                errors = add_error(errors, "password".to_owned(), "Missing field".to_owned());
            }
            if email_missing {
                errors = add_error(errors, "email".to_owned(), "Missing field".to_owned());
            }
            Err(errors)
        }
    }
}

impl Default for InsertableUserBuilder {
    fn default() -> (r: Self)
        ensures
            r@ == empty_builder(),
    {
        Self::new()
    }
}

/// The names of the required fields a builder is still missing.
pub open spec fn missing_fields(b: BuilderView) -> Set<Seq<char>> {
    let s0 = Set::<Seq<char>>::empty();
    let s1 = if b.username.len() == 0 {
        s0.insert("username"@)
    } else {
        s0
    };
    let s2 = if b.passwd_hash.len() == 0 {
        s1.insert("password"@)
    } else {
        s1
    };
    if b.email_id is None {
        s2.insert("email"@)
    } else {
        s2
    }
}

/// The three fixed field names are pairwise distinct.
proof fn lemma_field_names_distinct()
    ensures
        "username"@ != "password"@,
        "username"@ != "email"@,
        "password"@ != "email"@,
{
    reveal_strlit("username");
    reveal_strlit("password");
    reveal_strlit("email");
    assert("username"@[0] == 'u');
    assert("password"@[0] == 'p');
    assert("username"@.len() == 8);
    assert("email"@.len() == 5);
    assert("password"@.len() == 8);
}

/// Law: however the setters were called, a failing terminal step reports
/// exactly the missing required fields, each under its fixed name and each
/// with the single message "Missing field"; it fails exactly when some
/// required field is missing.
pub proof fn lemma_build_missing(b: BuilderView)
    ensures
        build_ok(b) <==> missing_fields(b) == Set::<Seq<char>>::empty(),
        required_errors(b).dom() == missing_fields(b),
        forall|k: Seq<char>| #[trigger]
            required_errors(b).contains_key(k) ==> required_errors(b)[k] == seq![
                "Missing field"@,
            ],
{
    lemma_field_names_distinct();
    if build_ok(b) {
        assert(missing_fields(b) =~= Set::<Seq<char>>::empty());
    } else {
        assert(missing_fields(b) != Set::<Seq<char>>::empty()) by {
            if b.username.len() == 0 {
                assert(missing_fields(b).contains("username"@));
            } else if b.passwd_hash.len() == 0 {
                assert(missing_fields(b).contains("password"@));
            } else {
                assert(missing_fields(b).contains("email"@));
            }
        }
    }
    assert(required_errors(b).dom() =~= missing_fields(b));
}

/// Law: the fully-empty builder fails validation with exactly the three
/// errors for username, password and email.
pub proof fn lemma_build_empty()
    ensures
        !build_ok(empty_builder()),
        required_errors(empty_builder()).dom() == set!["username"@, "password"@, "email"@],
        required_errors(empty_builder()).dom().len() == 3,
        forall|k: Seq<char>| #[trigger]
            required_errors(empty_builder()).contains_key(k) ==> required_errors(
                empty_builder(),
            )[k] == seq!["Missing field"@],
{
    lemma_field_names_distinct();
    lemma_build_missing(empty_builder());
    assert(required_errors(empty_builder()).dom() =~= set![
        "username"@,
        "password"@,
        "email"@,
    ]);
    assert(set!["username"@, "password"@, "email"@].len() == 3) by {
        broadcast use vstd::set::axiom_set_insert_len;

        assert(set!["username"@, "password"@, "email"@] == Set::<Seq<char>>::empty().insert(
            "username"@,
        ).insert("password"@).insert("email"@));
    }
}

/// Law: with username, password and email set — full name and picture set
/// or not — the terminal step succeeds and the entity's fields are exactly
/// what was set.
pub proof fn lemma_build_success(b: BuilderView)
    requires
        b.username.len() > 0,
        b.passwd_hash.len() > 0,
        b.email_id is Some,
    ensures
        build_ok(b),
        built_user(b).username == b.username,
        built_user(b).full_name == b.full_name,
        built_user(b).profile_pic_id == b.profile_pic_id,
        Some(built_user(b).email_id) == b.email_id,
        built_user(b).passwd_hash == b.passwd_hash,
{
}

} // verus!
