//! The store and its operations.
//!
//! `DB` holds the account and post collections in memory together with
//! the token signing key, under the store invariant: account identifiers
//! are unique and below the allocation counter, and emails are unique —
//! the in-memory form of the store's unique index on email.  Every
//! operation is specified against a functional model of the store, and
//! each method's contract says that it computes exactly what the model
//! does.
use vstd::prelude::*;
use vstd::pervasive::VecAdditionalExecFns;
use crate::error::{ErrView, MyError};
use crate::hashing::{digest_of, hash_string};
use crate::hexid::{id_hex, id_hex_string, lemma_id_hex_injective, lemma_id_hex_is_subject};
use crate::model::{copy_comments, copy_strings, PostModel, PostView, UserModel, UserView};
use crate::response::{
    PostData, PostDataView, SinglePostResponse, SinglePostResponseGet, SinglePostResponseGetView,
    SinglePostResponseView, SingleUserResponse, SingleUserResponseDel, SingleUserResponseDelView,
    SingleUserResponseGet, SingleUserResponseGetView, SingleUserResponseView, UserData,
    UserDataView, UserResponse, UserResponseDel, UserResponseDelView, UserResponseView,
};
use crate::schema::{CreatePostSchema, CreateUserSchema, LoginSchema};
use crate::strutil::{str_eq, strip_bearer, strip_prefix_rec};
use crate::subject::{
    encode_subject, lemma_subject_roundtrip, parse_subject, spec_parse_subject, subject_json,
};
use crate::token::{
    decode_token, sig_ok, sign_token, signed_token, token_claims, token_live_at, verify_signature,
    LEEWAY_SECS, TOKEN_LIFETIME_SECS,
};

verus! {

pub struct DB {
    pub key: Vec<u8>,
    pub users: Vec<UserModel>,
    pub posts: Vec<PostModel>,
    pub next_id: u64,
}

pub ghost struct DBView {
    pub key: Seq<u8>,
    pub users: Seq<UserView>,
    pub posts: Seq<PostView>,
    pub next_id: u64,
}

impl View for DB {
    type V = DBView;

    open spec fn view(&self) -> DBView {
        DBView {
            key: self.key@,
            users: Seq::new(self.users@.len(), |i: int| self.users@[i]@),
            posts: Seq::new(self.posts@.len(), |i: int| self.posts@[i]@),
            next_id: self.next_id,
        }
    }
}

impl DBView {
    /// The store invariant: identifiers unique and below the allocation
    /// counter, emails unique.
    pub open spec fn wf(self) -> bool {
        &&& forall|i: int| 0 <= i < self.users.len() ==> (#[trigger] self.users[i]).id < self.next_id
        &&& forall|i: int, j: int|
            0 <= i < self.users.len() && 0 <= j < self.users.len() && i != j ==> (
            #[trigger] self.users[i]).id != (#[trigger] self.users[j]).id
        &&& forall|i: int, j: int|
            0 <= i < self.users.len() && 0 <= j < self.users.len() && i != j ==> (
            #[trigger] self.users[i]).email != (#[trigger] self.users[j]).email
    }
}

/// Some account carries this email.
pub open spec fn has_email(users: Seq<UserView>, email: Seq<char>) -> bool {
    exists|i: int| 0 <= i < users.len() && (#[trigger] users[i]).email == email
}

/// The index of the account with this email (meaningful under `has_email`
/// and the invariant, which makes it unique).
pub open spec fn email_idx(users: Seq<UserView>, email: Seq<char>) -> int {
    choose|i: int| 0 <= i < users.len() && (#[trigger] users[i]).email == email
}

/// Some account's identifier has this wire form.
pub open spec fn has_subject(users: Seq<UserView>, sub: Seq<char>) -> bool {
    exists|i: int| 0 <= i < users.len() && id_hex((#[trigger] users[i]).id) == sub
}

/// The index of the account whose identifier has this wire form.
pub open spec fn subject_idx(users: Seq<UserView>, sub: Seq<char>) -> int {
    choose|i: int| 0 <= i < users.len() && id_hex((#[trigger] users[i]).id) == sub
}

/// Under identifier uniqueness, at most one account matches a subject.
pub proof fn lemma_subject_unique(users: Seq<UserView>, sub: Seq<char>, i: int, j: int)
    requires
        forall|p: int, q: int|
            0 <= p < users.len() && 0 <= q < users.len() && p != q ==> (#[trigger] users[p]).id != (
            #[trigger] users[q]).id,
        0 <= i < users.len(),
        0 <= j < users.len(),
        id_hex(users[i].id) == sub,
        id_hex(users[j].id) == sub,
    ensures
        i == j,
{
    if i != j {
        lemma_id_hex_injective(users[i].id, users[j].id);
    }
}

/// The view of an optional header value.
pub open spec fn opt_str_view(a: Option<&str>) -> Option<Seq<char>> {
    match a {
        Option::None => Option::None,
        Option::Some(s) => Option::Some(s@),
    }
}

/// The result of a `Result` of viewable values, viewed.
pub open spec fn res_view<T: View, E: View>(r: Result<T, E>) -> Result<T::V, E::V> {
    match r {
        Result::Ok(t) => Result::Ok(t.view()),
        Result::Err(e) => Result::Err(e.view()),
    }
}

/// The token issued to an account at time `now`.
pub open spec fn issued_token(key: Seq<u8>, id: u64, now: u64) -> Seq<char> {
    signed_token(key, subject_json(id_hex(id)), now, (now + TOKEN_LIFETIME_SECS) as u64)
}

/// What token verification resolves a bare token to at time `now`:
/// the subject of a well-signed, unexpired token with a parsable subject
/// claim, and nothing else.
pub open spec fn spec_id_from_jwt(key: Seq<u8>, jwt: Seq<char>, now: u64) -> Option<Seq<char>> {
    match token_claims(key, jwt) {
        Option::None => Option::None,
        Option::Some((name, iat, exp)) => if token_live_at(exp, now) {
            spec_parse_subject(name)
        } else {
            Option::None
        },
    }
}

/// What an optional authorization header resolves to: absent headers
/// resolve to nothing; otherwise every leading `"Bearer "` is stripped
/// and the rest is verified as a token.
pub open spec fn spec_resolve(key: Seq<u8>, header: Option<Seq<char>>, now: u64) -> Option<
    Seq<char>,
> {
    match header {
        Option::None => Option::None,
        Option::Some(h) => spec_id_from_jwt(key, strip_prefix_rec(h, "Bearer "@), now),
    }
}

/// The registration transition: all four fields must be non-empty, the
/// email must be fresh; then the account is appended with the hashed
/// password and both timestamps set to `now`, and a token is issued for
/// the new identifier.
pub open spec fn spec_register(
    s: DBView,
    email: Seq<char>,
    password: Seq<char>,
    first_name: Seq<char>,
    last_name: Seq<char>,
    now: u64,
) -> (DBView, Result<SingleUserResponseView, ErrView>) {
    if email.len() == 0 || first_name.len() == 0 || last_name.len() == 0 || password.len() == 0 {
        (s, Result::Err(ErrView::InvalidIdentifiants))
    } else if has_email(s.users, email) {
        (s, Result::Err(ErrView::MongoDuplicateError))
    } else {
        let u = UserView {
            id: s.next_id,
            email: email,
            firstName: first_name,
            lastName: last_name,
            password: digest_of(password),
            createdAt: now,
            lastUpVote: now,
        };
        let s2 = DBView {
            users: s.users.push(u),
            next_id: (s.next_id + 1) as u64,
            ..s
        };
        let resp = SingleUserResponseView {
            ok: true,
            data: UserDataView {
                token: issued_token(s.key, s.next_id, now),
                user: UserResponseView { email: email, firstName: first_name, lastName: last_name },
            },
        };
        (s2, Result::Ok(resp))
    }
}

/// The login outcome: empty field, unknown email and password-digest
/// mismatch all collapse into the same failure; a match issues a fresh
/// token for the account and returns its view.
pub open spec fn spec_login(s: DBView, email: Seq<char>, password: Seq<char>, now: u64) -> Result<
    SingleUserResponseView,
    ErrView,
> {
    if email.len() == 0 || password.len() == 0 {
        Result::Err(ErrView::InvalidIdentifiants)
    } else if !has_email(s.users, email) {
        Result::Err(ErrView::InvalidIdentifiants)
    } else {
        let u = s.users[email_idx(s.users, email)];
        if digest_of(password) != u.password {
            Result::Err(ErrView::InvalidIdentifiants)
        } else {
            Result::Ok(
                SingleUserResponseView {
                    ok: true,
                    data: UserDataView {
                        token: issued_token(s.key, u.id, now),
                        user: UserResponseView {
                            email: u.email,
                            firstName: u.firstName,
                            lastName: u.lastName,
                        },
                    },
                },
            )
        }
    }
}

/// How many `'.'` separators a token holds.
pub open spec fn count_dots(s: Seq<char>) -> nat
    decreases s.len(),
{
    if s.len() == 0 {
        0
    } else {
        count_dots(s.drop_last()) + if s.last() == '.' {
            1nat
        } else {
            0nat
        }
    }
}

/// The position of the last `'.'` (meaningful when one exists).
pub open spec fn last_dot_idx(s: Seq<char>) -> int {
    choose|d: int|
        0 <= d < s.len() && s[d] == '.' && (forall|j: int| d < j < s.len() ==> s[j] != '.')
}

/// Structural token validity paired with the signature check: exactly
/// three dot-separated segments, and the third a valid signature of the
/// first two under the key.
pub open spec fn spec_verify_token(key: Seq<u8>, jwt: Seq<char>) -> bool {
    if count_dots(jwt) == 2 {
        let d = last_dot_idx(jwt);
        sig_ok(key, jwt.take(d), jwt.skip(d + 1))
    } else {
        false
    }
}

/// The externally visible projection of a stored post.
pub open spec fn post_data_of(p: PostView) -> PostDataView {
    PostDataView {
        createdAt: p.createdAt,
        userId: p.userId,
        firstName: p.firstName,
        title: p.title,
        content: p.content,
        comments: p.comments,
        upVotes: p.upVotes,
    }
}

/// Every stored post, projected, in store order.
pub open spec fn posts_data(posts: Seq<PostView>) -> Seq<PostDataView> {
    Seq::new(posts.len(), |i: int| post_data_of(posts[i]))
}

/// The posts owned by a subject, in store order.
pub open spec fn owned_posts(posts: Seq<PostView>, sub: Seq<char>) -> Seq<PostView> {
    posts.filter(|p: PostView| p.userId == sub)
}

/// How the ownership filter grows when a post is appended.
pub proof fn lemma_owned_posts_push(s: Seq<PostView>, p: PostView, sub: Seq<char>)
    ensures
        owned_posts(s.push(p), sub) == if p.userId == sub {
            owned_posts(s, sub).push(p)
        } else {
            owned_posts(s, sub)
        },
{
    reveal(Seq::filter);
    assert(s.push(p).drop_last() =~= s);
    assert(s.push(p).last() == p);
}

/// The authenticated self-view: the resolved subject's account, or the
/// collapsed token failure, or a missing record.
pub open spec fn spec_connected(s: DBView, header: Option<Seq<char>>, now: u64) -> Result<
    SingleUserResponseGetView,
    ErrView,
> {
    match spec_resolve(s.key, header, now) {
        Option::None => Result::Err(ErrView::JwtNotFoundError(Seq::empty())),
        Option::Some(sub) => if has_subject(s.users, sub) {
            let u = s.users[subject_idx(s.users, sub)];
            Result::Ok(
                SingleUserResponseGetView {
                    ok: true,
                    data: UserResponseView {
                        email: u.email,
                        firstName: u.firstName,
                        lastName: u.lastName,
                    },
                },
            )
        } else {
            Result::Err(ErrView::NotFoundError(sub))
        },
    }
}

/// Listing every post asks only that the caller be authenticated; no
/// filtering, no pagination, store order.
pub open spec fn spec_get_post(s: DBView, header: Option<Seq<char>>, now: u64) -> Result<
    SinglePostResponseGetView,
    ErrView,
> {
    match spec_resolve(s.key, header, now) {
        Option::None => Result::Err(ErrView::JwtNotFoundError(Seq::empty())),
        Option::Some(sub) => Result::Ok(
            SinglePostResponseGetView { ok: true, data: posts_data(s.posts) },
        ),
    }
}

/// Listing the caller's posts: ownership-scoped by the resolved subject.
pub open spec fn spec_get_user_post(s: DBView, header: Option<Seq<char>>, now: u64) -> Result<
    SinglePostResponseGetView,
    ErrView,
> {
    match spec_resolve(s.key, header, now) {
        Option::None => Result::Err(ErrView::JwtNotFoundError(Seq::empty())),
        Option::Some(sub) => Result::Ok(
            SinglePostResponseGetView { ok: true, data: posts_data(owned_posts(s.posts, sub)) },
        ),
    }
}

/// The by-identifier route: it rejects the placeholder `"undefined"`,
/// then ignores the path parameter and answers with the caller's own
/// posts, exactly as the listing above.
pub open spec fn spec_get_id_post(
    s: DBView,
    header: Option<Seq<char>>,
    id: Seq<char>,
    now: u64,
) -> Result<SinglePostResponseGetView, ErrView> {
    if id == "undefined"@ {
        Result::Err(ErrView::InvalidIdentifiants)
    } else {
        spec_get_user_post(s, header, now)
    }
}

/// Creating a post: the caller must resolve to an existing account; the
/// post is stamped with the subject in string form, the author's current
/// first name, empty comments and upvotes, and the creation time.
pub open spec fn spec_create_post(
    s: DBView,
    header: Option<Seq<char>>,
    title: Seq<char>,
    content: Seq<char>,
    now: u64,
) -> (DBView, Result<SinglePostResponseView, ErrView>) {
    match spec_resolve(s.key, header, now) {
        Option::None => (s, Result::Err(ErrView::JwtNotFoundError(Seq::empty()))),
        Option::Some(sub) => if has_subject(s.users, sub) {
            let u = s.users[subject_idx(s.users, sub)];
            let p = PostView {
                userId: sub,
                title: title,
                content: content,
                firstName: u.firstName,
                comments: Seq::empty(),
                upVotes: Seq::empty(),
                createdAt: now,
            };
            let s2 = DBView { posts: s.posts.push(p), ..s };
            (s2, Result::Ok(SinglePostResponseView { ok: true, data: post_data_of(p) }))
        } else {
            (s, Result::Err(ErrView::NotFoundError(sub)))
        },
    }
}

/// Removal: the resolved subject's record is read first (its fields come
/// back with the confirmation), then exactly that record is deleted.
pub open spec fn spec_remove(s: DBView, header: Option<Seq<char>>, now: u64) -> (
    DBView,
    Result<SingleUserResponseDelView, ErrView>,
) {
    match spec_resolve(s.key, header, now) {
        Option::None => (s, Result::Err(ErrView::JwtNotFoundError(Seq::empty()))),
        Option::Some(sub) => if has_subject(s.users, sub) {
            let i = subject_idx(s.users, sub);
            let u = s.users[i];
            let s2 = DBView { users: s.users.remove(i), ..s };
            (
                s2,
                Result::Ok(
                    SingleUserResponseDelView {
                        ok: true,
                        data: UserResponseDelView {
                            email: u.email,
                            firstName: u.firstName,
                            lastName: u.lastName,
                            removed: true,
                        },
                    },
                ),
            )
        } else {
            (s, Result::Err(ErrView::NotFoundError(sub)))
        },
    }
}

/// Editing: the full mutable field set — email, re-hashed password and
/// both names — is replaced in one step; timestamps and the identifier
/// stay.  Handing the record another account's email would violate the
/// store's unique index, the store-level failure.
pub open spec fn spec_edit(
    s: DBView,
    header: Option<Seq<char>>,
    email: Seq<char>,
    password: Seq<char>,
    first_name: Seq<char>,
    last_name: Seq<char>,
    now: u64,
) -> (DBView, Result<SingleUserResponseGetView, ErrView>) {
    match spec_resolve(s.key, header, now) {
        Option::None => (s, Result::Err(ErrView::JwtNotFoundError(Seq::empty()))),
        Option::Some(sub) => if has_subject(s.users, sub) {
            let i = subject_idx(s.users, sub);
            if exists|j: int|
                0 <= j < s.users.len() && j != i && (#[trigger] s.users[j]).email == email {
                (s, Result::Err(ErrView::MongoQueryError))
            } else {
                let u = s.users[i];
                let u2 = UserView {
                    id: u.id,
                    email: email,
                    firstName: first_name,
                    lastName: last_name,
                    password: digest_of(password),
                    createdAt: u.createdAt,
                    lastUpVote: u.lastUpVote,
                };
                let s2 = DBView { users: s.users.update(i, u2), ..s };
                (
                    s2,
                    Result::Ok(
                        SingleUserResponseGetView {
                            ok: true,
                            data: UserResponseView {
                                email: email,
                                firstName: first_name,
                                lastName: last_name,
                            },
                        },
                    ),
                )
            }
        } else {
            (s, Result::Err(ErrView::NotFoundError(sub)))
        },
    }
}

impl DB {
    /// An empty store around a signing key.
    pub fn new(key: Vec<u8>) -> (r: DB)
        ensures
            r@.key == key@,
            r@.users.len() == 0,
            r@.posts.len() == 0,
            r@.next_id == 0,
            r@.wf(),
    {
        DB { key, users: Vec::new(), posts: Vec::new(), next_id: 0 }
    }

    /// First account carrying this email, if any.
    fn find_by_email(&self, email: &String) -> (r: Option<usize>)
        ensures
            (r is Some) == has_email(self@.users, email@),
            r matches Some(i) ==> 0 <= i < self@.users.len() && self@.users[i as int].email
                == email@,
    {
        let n = self.users.len();
        let mut i: usize = 0;
        while i < n
            invariant
                0 <= i <= n,
                n == self@.users.len(),
                self@.users.len() == self.users@.len(),
                forall|j: int| 0 <= j < i ==> (#[trigger] self@.users[j]).email != email@,
            decreases n - i,
        {
            if self.users[i].email == *email {
                assert(self@.users[i as int].email == email@);
                return Some(i);
            }
            i += 1;
        }
        None
    }

    /// First account whose identifier has this wire form, if any.
    fn find_by_subject(&self, sub: &String) -> (r: Option<usize>)
        ensures
            (r is Some) == has_subject(self@.users, sub@),
            r matches Some(i) ==> 0 <= i < self@.users.len() && id_hex(
                self@.users[i as int].id,
            ) == sub@,
    {
        let n = self.users.len();
        let mut i: usize = 0;
        while i < n
            invariant
                0 <= i <= n,
                n == self@.users.len(),
                self@.users.len() == self.users@.len(),
                forall|j: int| 0 <= j < i ==> id_hex((#[trigger] self@.users[j]).id) != sub@,
            decreases n - i,
        {
            let h = id_hex_string(self.users[i].id);
            if h == *sub {
                assert(id_hex(self@.users[i as int].id) == sub@);
                return Some(i);
            }
            i += 1;
        }
        None
    }

    /// Verifies a bare token and extracts the subject identifier it
    /// carries: `None` for anything malformed, badly signed, expired or
    /// without a parsable subject claim.
    pub fn id_from_jwt(&self, jwt: &str, now: u64) -> (r: Option<String>)
        ensures
            (r is Some) == (spec_id_from_jwt(self@.key, jwt@, now) is Some),
            r matches Some(s) ==> spec_id_from_jwt(self@.key, jwt@, now) == Some(s@),
    {
        match decode_token(self.key.as_slice(), jwt) {
            Option::None => Option::None,
            Option::Some(c) => {
                let live = c.exp >= now || now - c.exp <= LEEWAY_SECS;
                if live {
                    parse_subject(c.name.as_str())
                } else {
                    Option::None
                }
            },
        }
    }

    /// A token that verifies and resolves to some subject.
    pub fn is_valid_jwt(&self, jwt: &str, now: u64) -> (r: bool)
        ensures
            r == (spec_id_from_jwt(self@.key, jwt@, now) is Some),
    {
        let obj_id = self.id_from_jwt(jwt, now);
        obj_id.is_some()
    }

    /// The identity resolver: takes the authorization header value, if
    /// any, strips a leading bearer scheme, verifies the token and hands
    /// back the subject identifier.
    pub fn resolve_subject(&self, auth: Option<&str>, now: u64) -> (r: Option<String>)
        ensures
            (r is Some) == (spec_resolve(self@.key, opt_str_view(auth), now) is Some),
            r matches Some(s) ==> spec_resolve(self@.key, opt_str_view(auth), now) == Some(s@),
    {
        match auth {
            Option::None => Option::None,
            Option::Some(h) => {
                let jwt = strip_bearer(h);
                self.id_from_jwt(jwt.as_str(), now)
            },
        }
    }

    /// The structural check of the token codec: three dot-separated
    /// segments whose last is a valid signature of the other two.
    pub fn verify_token(&self, jwt: &str) -> (r: bool)
        ensures
            r == spec_verify_token(self@.key, jwt@),
    {
        let n: usize = jwt.unicode_len();
        let mut i: usize = 0;
        let mut dots: usize = 0;
        let mut last: usize = 0;
        while i < n
            invariant
                0 <= i <= n,
                n == jwt@.len(),
                dots <= i,
                dots as nat == count_dots(jwt@.take(i as int)),
                dots > 0 ==> last < i && jwt@[last as int] == '.' && (forall|j: int|
                    last < j < i ==> jwt@[j] != '.'),
                dots == 0 ==> forall|j: int| 0 <= j < i ==> jwt@[j] != '.',
            decreases n - i,
        {
            let c = jwt.get_char(i);
            proof {
                assert(jwt@.take(i + 1 as int).drop_last() =~= jwt@.take(i as int));
                assert(jwt@.take(i + 1 as int).last() == jwt@[i as int]);
            }
            if c == '.' {
                dots = dots + 1;
                last = i;
            }
            i += 1;
        }
        proof {
            assert(jwt@.take(n as int) =~= jwt@);
        }
        if dots != 2 {
            return false;
        }
        proof {
            assert(0 <= last < jwt@.len() && jwt@[last as int] == '.' && (forall|j: int|
                last < j < jwt@.len() ==> jwt@[j] != '.'));
            let d = last_dot_idx(jwt@);
            assert(0 <= d < jwt@.len() && jwt@[d] == '.' && (forall|j: int|
                d < j < jwt@.len() ==> jwt@[j] != '.'));
            assert(d == last as int);
        }
        let message = jwt.substring_char(0, last);
        let signature = jwt.substring_char(last + 1, n);
        verify_signature(self.key.as_slice(), message, signature)
    }

    /// Issues the identity token for an account at time `now`: subject in
    /// the quoted object-identifier shape, issue time `now`, expiry a
    /// fixed lifetime later.
    pub fn generate_token(&self, user: &UserModel, now: u64) -> (r: String)
        requires
            now + TOKEN_LIFETIME_SECS <= u64::MAX,
        ensures
            r@ == issued_token(self@.key, user.id, now),
            token_claims(self@.key, r@) == Some(
                (subject_json(id_hex(user.id)), now, (now + TOKEN_LIFETIME_SECS) as u64),
            ),
            forall|i: int| 0 <= i < r@.len() ==> r@[i] != ' ',
    {
        let hex = id_hex_string(user.id);
        let name = encode_subject(hex.as_str());
        let exp = now + TOKEN_LIFETIME_SECS;
        sign_token(self.key.as_slice(), name.as_str(), now, exp)
    }

    /// Registration: hashes the password, enforces the unique email,
    /// appends the record and answers with a token and the account view.
    pub fn create_user(&mut self, body: &CreateUserSchema, now: u64) -> (r: Result<
        SingleUserResponse,
        MyError,
    >)
        requires
            old(self)@.wf(),
            old(self)@.next_id < u64::MAX,
            now + TOKEN_LIFETIME_SECS <= u64::MAX,
        ensures
            final(self)@.wf(),
            ({
                let (s2, out) = spec_register(
                    old(self)@,
                    body.email@,
                    body.password@,
                    body.firstName@,
                    body.lastName@,
                    now,
                );
                final(self)@ == s2 && res_view(r) == out
            }),
            r matches Ok(a) ==> forall|t: u64|
                t <= now + TOKEN_LIFETIME_SECS + LEEWAY_SECS ==> #[trigger] spec_id_from_jwt(
                    old(self)@.key,
                    a.data.token@,
                    t,
                ) == Some(id_hex(old(self)@.next_id)),
    {
        if body.email.as_str().is_empty() || body.firstName.as_str().is_empty()
            || body.lastName.as_str().is_empty() || body.password.as_str().is_empty() {
            return Result::Err(MyError::InvalidIdentifiants());
        }
        match self.find_by_email(&body.email) {
            Option::Some(_) => Result::Err(MyError::MongoDuplicateError()),
            Option::None => {
                let id = self.next_id;
                let user = self.create_user_document(body, id, now);
                let token = self.generate_token(&user, now);
                proof {
                    lemma_id_hex_is_subject(id);
                    lemma_subject_roundtrip(id_hex(id));
                }
                let resp_user = self.doc_to_user(&user);
                let ghost u = user@;
                self.users.push(user);
                self.next_id = id + 1;
                proof {
                    let s = old(self)@;
                    assert(self@.users =~= s.users.push(u));
                    assert(self@ == spec_register(
                        s,
                        body.email@,
                        body.password@,
                        body.firstName@,
                        body.lastName@,
                        now,
                    ).0);
                    assert forall|i: int, j: int|
                        0 <= i < self@.users.len() && 0 <= j < self@.users.len() && i != j implies (
                    #[trigger] self@.users[i]).email != (#[trigger] self@.users[j]).email by {
                        if j == s.users.len() {
                            assert(!has_email(s.users, u.email));
                            assert(s.users[i].email != u.email);
                        } else if i == s.users.len() {
                            assert(!has_email(s.users, u.email));
                            assert(s.users[j].email != u.email);
                        }
                    }
                    assert(self@.wf());
                }
                Result::Ok(SingleUserResponse { ok: true, data: UserData { token, user: resp_user } })
            },
        }
    }

    /// Login: both fields non-empty, the email known and the password
    /// digest matching, or one indistinguishable failure; success issues
    /// a fresh token.
    pub fn login(&self, body: &LoginSchema, now: u64) -> (r: Result<SingleUserResponse, MyError>)
        requires
            self@.wf(),
            now + TOKEN_LIFETIME_SECS <= u64::MAX,
        ensures
            res_view(r) == spec_login(self@, body.email@, body.password@, now),
            r matches Ok(a) ==> forall|t: u64|
                t <= now + TOKEN_LIFETIME_SECS + LEEWAY_SECS ==> #[trigger] spec_id_from_jwt(
                    self@.key,
                    a.data.token@,
                    t,
                ) == Some(id_hex(self@.users[email_idx(self@.users, body.email@)].id)),
    {
        if body.email.as_str().is_empty() || body.password.as_str().is_empty() {
            return Result::Err(MyError::InvalidIdentifiants());
        }
        match self.find_by_email(&body.email) {
            Option::None => Result::Err(MyError::InvalidIdentifiants()),
            Option::Some(i) => {
                proof {
                    let j = email_idx(self@.users, body.email@);
                    assert(self@.users[j].email == body.email@);
                    assert(j == i as int);
                }
                let password = hash_string(body.password.as_str());
                if password != self.users[i].password {
                    return Result::Err(MyError::InvalidIdentifiants());
                }
                let jwt = self.generate_token(&self.users[i], now);
                proof {
                    lemma_id_hex_is_subject(self@.users[i as int].id);
                    lemma_subject_roundtrip(id_hex(self@.users[i as int].id));
                }
                let user = self.doc_to_user(&self.users[i]);
                Result::Ok(SingleUserResponse { ok: true, data: UserData { token: jwt, user } })
            },
        }
    }

    /// Builds the account record for a registration: password hashed,
    /// both timestamps stamped with the creation time.
    fn create_user_document(&self, body: &CreateUserSchema, id: u64, now: u64) -> (u: UserModel)
        ensures
            u@ == (UserView {
                id,
                email: body.email@,
                firstName: body.firstName@,
                lastName: body.lastName@,
                password: digest_of(body.password@),
                createdAt: now,
                lastUpVote: now,
            }),
    {
        let digest = hash_string(body.password.as_str());
        UserModel {
            id,
            email: body.email.clone(),
            firstName: body.firstName.clone(),
            lastName: body.lastName.clone(),
            password: digest,
            createdAt: now,
            lastUpVote: now,
        }
    }

    /// Builds the post record for a resolved subject: the author's
    /// current first name is looked up (the account may have vanished
    /// since the token was issued), comments and upvotes start empty.
    fn create_post_document(&self, body: &CreatePostSchema, sub: &String, now: u64) -> (r: Result<
        PostModel,
        MyError,
    >)
        requires
            self@.wf(),
        ensures
            res_view(r) == if has_subject(self@.users, sub@) {
                Result::<PostView, ErrView>::Ok(
                    PostView {
                        userId: sub@,
                        title: body.title@,
                        content: body.content@,
                        firstName: self@.users[subject_idx(self@.users, sub@)].firstName,
                        comments: Seq::empty(),
                        upVotes: Seq::empty(),
                        createdAt: now,
                    },
                )
            } else {
                Result::<PostView, ErrView>::Err(ErrView::NotFoundError(sub@))
            },
    {
        let author = match self.find_by_subject(sub) {
            Option::None => {
                return Result::Err(MyError::NotFoundError(sub.clone()));
            },
            Option::Some(i) => i,
        };
        proof {
            lemma_subject_unique(self@.users, sub@, author as int, subject_idx(self@.users, sub@));
        }
        let post = PostModel {
            userId: sub.clone(),
            title: body.title.clone(),
            content: body.content.clone(),
            firstName: self.users[author].firstName.clone(),
            comments: Vec::new(),
            upVotes: Vec::new(),
            createdAt: now,
        };
        proof {
            assert(post@.comments =~= Seq::<crate::model::CommentView>::empty());
            assert(post@.upVotes =~= Seq::<Seq<char>>::empty());
        }
        Result::Ok(post)
    }

    /// The externally visible projection of a stored post.
    fn post_to_data(&self, p: &PostModel) -> (r: PostData)
        ensures
            r@ == post_data_of(p@),
    {
        let out = PostData {
            createdAt: p.createdAt,
            userId: p.userId.clone(),
            firstName: p.firstName.clone(),
            title: p.title.clone(),
            content: p.content.clone(),
            comments: copy_comments(&p.comments),
            upVotes: copy_strings(&p.upVotes),
        };
        proof {
            assert(out@.comments =~= p@.comments);
            assert(out@.upVotes =~= p@.upVotes);
        }
        out
    }

    /// The authenticated account behind the header, or the collapsed
    /// token failure, or a missing record.
    pub fn connected(&self, auth: Option<&str>, now: u64) -> (r: Result<
        SingleUserResponseGet,
        MyError,
    >)
        requires
            self@.wf(),
        ensures
            res_view(r) == spec_connected(self@, opt_str_view(auth), now),
    {
        let sub = match self.resolve_subject(auth, now) {
            Option::None => {
                return Result::Err(MyError::JwtNotFoundError(String::new()));
            },
            Option::Some(s) => s,
        };
        match self.find_by_subject(&sub) {
            Option::None => Result::Err(MyError::NotFoundError(sub)),
            Option::Some(i) => {
                proof {
                    lemma_subject_unique(
                        self@.users,
                        sub@,
                        i as int,
                        subject_idx(self@.users, sub@),
                    );
                }
                let data = self.doc_to_user(&self.users[i]);
                Result::Ok(SingleUserResponseGet { ok: true, data })
            },
        }
    }

    /// Every post in store order, for an authenticated caller.
    pub fn get_post(&self, auth: Option<&str>, now: u64) -> (r: Result<
        SinglePostResponseGet,
        MyError,
    >)
        ensures
            res_view(r) == spec_get_post(self@, opt_str_view(auth), now),
    {
        if self.resolve_subject(auth, now).is_none() {
            return Result::Err(MyError::JwtNotFoundError(String::new()));
        }
        let n = self.posts.len();
        let mut data: Vec<PostData> = Vec::new();
        let mut i: usize = 0;
        while i < n
            invariant
                0 <= i <= n,
                n == self.posts@.len(),
                self@.posts.len() == self.posts@.len(),
                data@.len() == i,
                forall|k: int| 0 <= k < i ==> (#[trigger] data@[k])@ == post_data_of(self@.posts[k]),
            decreases n - i,
        {
            let d = self.post_to_data(&self.posts[i]);
            data.push(d);
            i += 1;
        }
        let out = SinglePostResponseGet { ok: true, data };
        proof {
            assert(out@.data =~= posts_data(self@.posts));
        }
        Result::Ok(out)
    }

    /// The caller's own posts, in store order.
    pub fn get_user_post(&self, auth: Option<&str>, now: u64) -> (r: Result<
        SinglePostResponseGet,
        MyError,
    >)
        ensures
            res_view(r) == spec_get_user_post(self@, opt_str_view(auth), now),
    {
        let sub = match self.resolve_subject(auth, now) {
            Option::None => {
                return Result::Err(MyError::JwtNotFoundError(String::new()));
            },
            Option::Some(s) => s,
        };
        let data = self.owned_post_data(&sub);
        Result::Ok(SinglePostResponseGet { ok: true, data })
    }

    /// The posts whose owning identifier equals the subject.
    fn owned_post_data(&self, sub: &String) -> (data: Vec<PostData>)
        ensures
            Seq::new(data@.len(), |k: int| data@[k]@) == posts_data(owned_posts(self@.posts, sub@)),
    {
        let n = self.posts.len();
        let mut data: Vec<PostData> = Vec::new();
        let mut i: usize = 0;
        proof {
            assert(self@.posts.take(0) =~= Seq::<PostView>::empty());
            reveal(Seq::filter);
        }
        while i < n
            invariant
                0 <= i <= n,
                n == self.posts@.len(),
                self@.posts.len() == self.posts@.len(),
                Seq::new(data@.len(), |k: int| data@[k]@) == posts_data(
                    owned_posts(self@.posts.take(i as int), sub@),
                ),
            decreases n - i,
        {
            let ghost pre = self@.posts.take(i as int);
            let ghost datav = Seq::new(data@.len(), |k: int| data@[k]@);
            proof {
                assert(self@.posts.take(i + 1 as int) =~= pre.push(self@.posts[i as int]));
                lemma_owned_posts_push(pre, self@.posts[i as int], sub@);
            }
            if self.posts[i].userId == *sub {
                let d = self.post_to_data(&self.posts[i]);
                data.push(d);
                proof {
                    assert(Seq::new(data@.len(), |k: int| data@[k]@) =~= datav.push(
                        post_data_of(self@.posts[i as int]),
                    ));
                    assert(posts_data(owned_posts(pre, sub@).push(self@.posts[i as int]))
                        =~= posts_data(owned_posts(pre, sub@)).push(
                        post_data_of(self@.posts[i as int]),
                    ));
                }
            } else {
                proof {
                    assert(owned_posts(self@.posts.take(i + 1 as int), sub@) == owned_posts(
                        pre,
                        sub@,
                    ));
                }
            }
            i += 1;
        }
        proof {
            assert(self@.posts.take(n as int) =~= self@.posts);
        }
        data
    }

    /// The by-identifier route: rejects the placeholder parameter, then
    /// answers with the caller's own posts, ignoring the identifier.
    pub fn get_id_post(&self, auth: Option<&str>, id: &str, now: u64) -> (r: Result<
        SinglePostResponseGet,
        MyError,
    >)
        ensures
            res_view(r) == spec_get_id_post(self@, opt_str_view(auth), id@, now),
    {
        if str_eq(id, "undefined") {
            return Result::Err(MyError::InvalidIdentifiants());
        }
        self.get_user_post(auth, now)
    }

    /// Creates a post for the resolved subject, stamped with the author's
    /// current first name, empty comments and upvotes, and `now`.
    pub fn post(&mut self, auth: Option<&str>, body: &CreatePostSchema, now: u64) -> (r: Result<
        SinglePostResponse,
        MyError,
    >)
        requires
            old(self)@.wf(),
        ensures
            final(self)@.wf(),
            ({
                let (s2, out) = spec_create_post(
                    old(self)@,
                    opt_str_view(auth),
                    body.title@,
                    body.content@,
                    now,
                );
                final(self)@ == s2 && res_view(r) == out
            }),
    {
        let sub = match self.resolve_subject(auth, now) {
            Option::None => {
                return Result::Err(MyError::JwtNotFoundError(String::new()));
            },
            Option::Some(s) => s,
        };
        let post = match self.create_post_document(body, &sub, now) {
            Result::Err(e) => {
                return Result::Err(e);
            },
            Result::Ok(p) => p,
        };
        let data = self.post_to_data(&post);
        let ghost p = post@;
        self.posts.push(post);
        proof {
            assert(self@.posts =~= old(self)@.posts.push(p));
            assert(self@.users =~= old(self)@.users);
            assert(self@ == spec_create_post(
                old(self)@,
                opt_str_view(auth),
                body.title@,
                body.content@,
                now,
            ).0);
        }
        Result::Ok(SinglePostResponse { ok: true, data })
    }

    /// Reads the resolved subject's record, deletes exactly it, and
    /// returns its fields with the confirmation flag.
    pub fn remove(&mut self, auth: Option<&str>, now: u64) -> (r: Result<
        SingleUserResponseDel,
        MyError,
    >)
        requires
            old(self)@.wf(),
        ensures
            final(self)@.wf(),
            ({
                let (s2, out) = spec_remove(old(self)@, opt_str_view(auth), now);
                final(self)@ == s2 && res_view(r) == out
            }),
    {
        let sub = match self.resolve_subject(auth, now) {
            Option::None => {
                return Result::Err(MyError::JwtNotFoundError(String::new()));
            },
            Option::Some(s) => s,
        };
        let i = match self.find_by_subject(&sub) {
            Option::None => {
                return Result::Err(MyError::NotFoundError(sub));
            },
            Option::Some(i) => i,
        };
        proof {
            lemma_subject_unique(self@.users, sub@, i as int, subject_idx(self@.users, sub@));
        }
        let data = UserResponseDel {
            email: self.users[i].email.clone(),
            firstName: self.users[i].firstName.clone(),
            lastName: self.users[i].lastName.clone(),
            removed: true,
        };
        self.users.remove(i);
        proof {
            let s = old(self)@;
            assert(self@.users =~= s.users.remove(i as int));
            assert(self@.posts =~= s.posts);
            assert(self@ == spec_remove(s, opt_str_view(auth), now).0);
            assert forall|p: int| 0 <= p < self@.users.len() implies (
            #[trigger] self@.users[p]).id < self@.next_id && (p < i as int ==> self@.users[p]
                == s.users[p]) && (p >= i as int ==> self@.users[p] == s.users[p + 1]) by {
                assert(s.users.remove(i as int) == s.users.subrange(0, i as int) + s.users.subrange(
                    i as int + 1,
                    s.users.len() as int,
                ));
            }
            assert(self@.wf());
        }
        Result::Ok(SingleUserResponseDel { ok: true, data })
    }

    /// Replaces the resolved subject's whole mutable field set — email,
    /// re-hashed password, names — and returns the post-update view.
    pub fn edit(&mut self, auth: Option<&str>, body: &CreateUserSchema, now: u64) -> (r: Result<
        SingleUserResponseGet,
        MyError,
    >)
        requires
            old(self)@.wf(),
        ensures
            final(self)@.wf(),
            ({
                let (s2, out) = spec_edit(
                    old(self)@,
                    opt_str_view(auth),
                    body.email@,
                    body.password@,
                    body.firstName@,
                    body.lastName@,
                    now,
                );
                final(self)@ == s2 && res_view(r) == out
            }),
    {
        let sub = match self.resolve_subject(auth, now) {
            Option::None => {
                return Result::Err(MyError::JwtNotFoundError(String::new()));
            },
            Option::Some(s) => s,
        };
        let i = match self.find_by_subject(&sub) {
            Option::None => {
                return Result::Err(MyError::NotFoundError(sub));
            },
            Option::Some(i) => i,
        };
        proof {
            lemma_subject_unique(self@.users, sub@, i as int, subject_idx(self@.users, sub@));
        }
        let conflict = self.find_by_email(&body.email);
        if let Option::Some(j) = conflict {
            if j != i {
                return Result::Err(MyError::MongoQueryError());
            }
        }
        proof {
            assert forall|j: int|
                0 <= j < self@.users.len() && j != i as int implies (
            #[trigger] self@.users[j]).email != body.email@ by {
                if self@.users[j].email == body.email@ {
                    assert(has_email(self@.users, body.email@));
                    match conflict {
                        Option::Some(k) => {
                            assert(self@.users[i as int].email == body.email@);
                        },
                        Option::None => {},
                    }
                }
            }
        }
        let digest = hash_string(body.password.as_str());
        let updated = UserModel {
            id: self.users[i].id,
            email: body.email.clone(),
            firstName: body.firstName.clone(),
            lastName: body.lastName.clone(),
            password: digest,
            createdAt: self.users[i].createdAt,
            lastUpVote: self.users[i].lastUpVote,
        };
        let ghost u2 = updated@;
        self.users.set(i, updated);
        proof {
            let s = old(self)@;
            assert(self@.users =~= s.users.update(i as int, u2));
            assert(self@.posts =~= s.posts);
            assert(self@ == spec_edit(
                s,
                opt_str_view(auth),
                body.email@,
                body.password@,
                body.firstName@,
                body.lastName@,
                now,
            ).0);
            assert(self@.wf());
        }
        Result::Ok(
            SingleUserResponseGet {
                ok: true,
                data: UserResponse {
                    email: body.email.clone(),
                    firstName: body.firstName.clone(),
                    lastName: body.lastName.clone(),
                },
            },
        )
    }

    /// The externally visible projection of an account record.
    pub fn doc_to_user(&self, user: &UserModel) -> (r: UserResponse)
        ensures
            r@ == (UserResponseView {
                email: user@.email,
                firstName: user@.firstName,
                lastName: user@.lastName,
            }),
    {
        UserResponse {
            email: user.email.clone(),
            firstName: user.firstName.clone(),
            lastName: user.lastName.clone(),
        }
    }
}

} // verus!
