//! The laws of the store, proved over its functional model.
//!
//! Each proof function here states a behavioural guarantee that relates
//! several operations: what registration followed by login yields, what a
//! second registration under the same email does, how the bad-credential
//! causes collapse, when token verification must reject, what a created
//! post carries, how the ownership-scoped listing evolves, and what edit
//! and removal leave behind.  Where a law speaks of decoding a token that
//! the codec itself issued, it takes that codec round trip — exactly the
//! signing wrapper's contract, which holds of every issued token — as a
//! hypothesis.
use vstd::prelude::*;
use crate::db::{
    email_idx, has_email, has_subject, issued_token, owned_posts, spec_create_post, spec_edit,
    spec_id_from_jwt, spec_login, spec_register, spec_remove, spec_resolve, subject_idx, DBView,
};
use crate::error::ErrView;
use crate::hashing::digest_of;
use crate::hexid::{id_hex, lemma_id_hex_injective, lemma_id_hex_is_subject};
use crate::model::PostView;
use crate::subject::{lemma_subject_roundtrip, subject_json};
use crate::token::{token_claims, token_live_at, LEEWAY_SECS, TOKEN_LIFETIME_SECS};

verus! {

/// Registration preserves the store invariant.
pub proof fn lemma_register_wf(
    s: DBView,
    email: Seq<char>,
    password: Seq<char>,
    first_name: Seq<char>,
    last_name: Seq<char>,
    now: u64,
)
    requires
        s.wf(),
        s.next_id < u64::MAX,
    ensures
        spec_register(s, email, password, first_name, last_name, now).0.wf(),
{
    let (s1, r1) = spec_register(s, email, password, first_name, last_name, now);
    if email.len() > 0 && first_name.len() > 0 && last_name.len() > 0 && password.len() > 0
        && !has_email(s.users, email) {
        assert forall|i: int, j: int|
            0 <= i < s1.users.len() && 0 <= j < s1.users.len() && i != j implies (
        #[trigger] s1.users[i]).email != (#[trigger] s1.users[j]).email by {
            if j == s.users.len() {
                assert(s.users[i].email != email);
            } else if i == s.users.len() {
                assert(s.users[j].email != email);
            }
        }
    }
}

/// Editing preserves the store invariant.
pub proof fn lemma_edit_wf(
    s: DBView,
    header: Option<Seq<char>>,
    email: Seq<char>,
    password: Seq<char>,
    first_name: Seq<char>,
    last_name: Seq<char>,
    now: u64,
)
    requires
        s.wf(),
    ensures
        spec_edit(s, header, email, password, first_name, last_name, now).0.wf(),
{
    let (s2, r) = spec_edit(s, header, email, password, first_name, last_name, now);
    match spec_resolve(s.key, header, now) {
        Option::None => {},
        Option::Some(sub) => {
            if has_subject(s.users, sub) {
                let i = subject_idx(s.users, sub);
                if !(exists|j: int|
                    0 <= j < s.users.len() && j != i && (#[trigger] s.users[j]).email == email) {
                    assert forall|p: int, q: int|
                        0 <= p < s2.users.len() && 0 <= q < s2.users.len() && p != q implies (
                    #[trigger] s2.users[p]).email != (#[trigger] s2.users[q]).email by {
                        if p != i && q != i {
                            assert(s2.users[p] == s.users[p] && s2.users[q] == s.users[q]);
                        } else if p == i {
                            assert(s.users[q].email != email);
                        } else {
                            assert(s.users[p].email != email);
                        }
                    }
                }
            }
        },
    }
}

/// A header that carries a bare token resolves exactly as the token
/// itself: issued tokens hold no space character, so the bearer-scheme
/// strip leaves them alone, present or not.
pub proof fn lemma_header_resolves_like_token(key: Seq<u8>, t: Seq<char>, now: u64)
    requires
        forall|i: int| 0 <= i < t.len() ==> t[i] != ' ',
    ensures
        spec_resolve(key, Some(t), now) == spec_id_from_jwt(key, t, now),
{
    reveal_strlit("Bearer ");
    assert("Bearer "@[6] == ' ');
    assert("Bearer "@.contains(' '));
    crate::strutil::lemma_strip_prefix_absent(t, "Bearer "@, ' ');
}

/// Registration followed immediately by login with the same credentials
/// succeeds, and the subject carried by both tokens resolves to the one
/// account that was registered.
///
/// The two `token_claims` hypotheses are the signing wrapper's contract,
/// instantiated at the two issued tokens; `atv` is any verification time
/// within both tokens' lifetime (leeway included).
pub proof fn lemma_register_then_login(
    s: DBView,
    email: Seq<char>,
    password: Seq<char>,
    first_name: Seq<char>,
    last_name: Seq<char>,
    now1: u64,
    now2: u64,
    atv: u64,
)
    requires
        s.wf(),
        email.len() > 0,
        password.len() > 0,
        first_name.len() > 0,
        last_name.len() > 0,
        !has_email(s.users, email),
        s.next_id < u64::MAX,
        now1 + TOKEN_LIFETIME_SECS <= u64::MAX,
        now2 + TOKEN_LIFETIME_SECS <= u64::MAX,
        token_claims(s.key, issued_token(s.key, s.next_id, now1)) == Some(
            (subject_json(id_hex(s.next_id)), now1, (now1 + TOKEN_LIFETIME_SECS) as u64),
        ),
        token_claims(s.key, issued_token(s.key, s.next_id, now2)) == Some(
            (subject_json(id_hex(s.next_id)), now2, (now2 + TOKEN_LIFETIME_SECS) as u64),
        ),
        atv <= now1 + TOKEN_LIFETIME_SECS + LEEWAY_SECS,
        atv <= now2 + TOKEN_LIFETIME_SECS + LEEWAY_SECS,
    ensures
        ({
            let (s1, r1) = spec_register(s, email, password, first_name, last_name, now1);
            let r2 = spec_login(s1, email, password, now2);
            let sub = id_hex(s.next_id);
            &&& r1 matches Ok(a1) && spec_id_from_jwt(s.key, a1.data.token, atv) == Some(sub)
            &&& r2 matches Ok(a2) && spec_id_from_jwt(s.key, a2.data.token, atv) == Some(sub)
            &&& has_subject(s1.users, sub)
            &&& s1.users[subject_idx(s1.users, sub)].email == email
        }),
{
    lemma_register_wf(s, email, password, first_name, last_name, now1);
    let (s1, r1) = spec_register(s, email, password, first_name, last_name, now1);
    let n = s.users.len() as int;
    assert(s1.users[n].email == email);
    assert(has_email(s1.users, email));
    let j = email_idx(s1.users, email);
    assert(0 <= j < s1.users.len() && s1.users[j].email == email);
    assert(j == n);
    assert(s1.users[j].password == digest_of(password));
    let r2 = spec_login(s1, email, password, now2);
    assert(r2 is Ok);
    let sub = id_hex(s.next_id);
    lemma_id_hex_is_subject(s.next_id);
    lemma_subject_roundtrip(sub);
    assert(token_live_at((now1 + TOKEN_LIFETIME_SECS) as u64, atv));
    assert(token_live_at((now2 + TOKEN_LIFETIME_SECS) as u64, atv));
    assert(id_hex(s1.users[n].id) == sub);
    assert(has_subject(s1.users, sub));
    let k = subject_idx(s1.users, sub);
    assert(0 <= k < s1.users.len() && id_hex(s1.users[k].id) == sub);
    if k != n {
        lemma_id_hex_injective(s1.users[k].id, s1.users[n].id);
    }
}

/// A second registration under an email that is already taken fails with
/// the duplicate-account error, changes nothing, and leaves exactly one
/// account carrying that email.
pub proof fn lemma_register_twice(
    s: DBView,
    email: Seq<char>,
    password1: Seq<char>,
    first_name1: Seq<char>,
    last_name1: Seq<char>,
    now1: u64,
    password2: Seq<char>,
    first_name2: Seq<char>,
    last_name2: Seq<char>,
    now2: u64,
)
    requires
        s.wf(),
        email.len() > 0,
        password1.len() > 0,
        first_name1.len() > 0,
        last_name1.len() > 0,
        password2.len() > 0,
        first_name2.len() > 0,
        last_name2.len() > 0,
        !has_email(s.users, email),
        s.next_id < u64::MAX,
    ensures
        ({
            let (s1, r1) = spec_register(s, email, password1, first_name1, last_name1, now1);
            let (s2, r2) = spec_register(s1, email, password2, first_name2, last_name2, now2);
            &&& r1 is Ok
            &&& r2 == Result::<crate::response::SingleUserResponseView, ErrView>::Err(
                ErrView::MongoDuplicateError,
            )
            &&& s2 == s1
            &&& s1.users.len() == s.users.len() + 1
            &&& forall|i: int, j: int|
                0 <= i < s1.users.len() && 0 <= j < s1.users.len() && (#[trigger] s1.users[i]).email
                    == email && (#[trigger] s1.users[j]).email == email ==> i == j
        }),
{
    lemma_register_wf(s, email, password1, first_name1, last_name1, now1);
    let (s1, r1) = spec_register(s, email, password1, first_name1, last_name1, now1);
    let n = s.users.len() as int;
    assert(s1.users[n].email == email);
    assert(has_email(s1.users, email));
}

/// An empty field, an unknown email and a wrong password all produce the
/// very same login outcome — one indistinguishable bad-credentials value.
pub proof fn lemma_login_collapses_causes(s: DBView, email: Seq<char>, password: Seq<char>, now: u64)
    requires
        s.wf(),
        email.len() == 0 || password.len() == 0 || !has_email(s.users, email) || digest_of(password)
            != s.users[email_idx(s.users, email)].password,
    ensures
        spec_login(s, email, password, now) == Result::<
            crate::response::SingleUserResponseView,
            ErrView,
        >::Err(ErrView::InvalidIdentifiants),
{
}

/// A token whose expiry (with the documented leeway) lies before the
/// verification time is rejected, whatever else it carries.
pub proof fn lemma_expired_token_rejected(
    key: Seq<u8>,
    t: Seq<char>,
    name: Seq<char>,
    iat: u64,
    exp: u64,
    now: u64,
)
    requires
        token_claims(key, t) == Some((name, iat, exp)),
        exp + LEEWAY_SECS < now,
    ensures
        spec_id_from_jwt(key, t, now) is None,
{
}

/// A created post carries the author's current first name, the subject
/// in string form as owner, the given title and content, empty comments
/// and empty upvotes — in the stored record and in the returned view.
pub proof fn lemma_create_post_stamps(
    s: DBView,
    header: Option<Seq<char>>,
    title: Seq<char>,
    content: Seq<char>,
    now: u64,
    sub: Seq<char>,
)
    requires
        s.wf(),
        spec_resolve(s.key, header, now) == Some(sub),
        has_subject(s.users, sub),
    ensures
        ({
            let (s2, r) = spec_create_post(s, header, title, content, now);
            let u = s.users[subject_idx(s.users, sub)];
            &&& r matches Ok(a) && a.ok == true && a.data.firstName == u.firstName
                && a.data.userId == sub && a.data.title == title && a.data.content == content
                && a.data.comments.len() == 0 && a.data.upVotes.len() == 0
            &&& s2.posts.len() == s.posts.len() + 1
            &&& s2.posts.last().firstName == u.firstName
            &&& s2.posts.last().userId == sub
            &&& s2.posts.last().comments.len() == 0
            &&& s2.posts.last().upVotes.len() == 0
        }),
{
}

/// Creating a post extends its owner's listing by exactly that post, at
/// the end.
pub proof fn lemma_post_extends_own_list(
    s: DBView,
    header: Option<Seq<char>>,
    title: Seq<char>,
    content: Seq<char>,
    now: u64,
    sub: Seq<char>,
)
    requires
        s.wf(),
        spec_resolve(s.key, header, now) == Some(sub),
        has_subject(s.users, sub),
    ensures
        ({
            let (s2, r) = spec_create_post(s, header, title, content, now);
            let u = s.users[subject_idx(s.users, sub)];
            let p = PostView {
                userId: sub,
                title: title,
                content: content,
                firstName: u.firstName,
                comments: Seq::empty(),
                upVotes: Seq::empty(),
                createdAt: now,
            };
            owned_posts(s2.posts, sub) == owned_posts(s.posts, sub).push(p)
        }),
{
    let u = s.users[subject_idx(s.users, sub)];
    let p = PostView {
        userId: sub,
        title: title,
        content: content,
        firstName: u.firstName,
        comments: Seq::empty(),
        upVotes: Seq::empty(),
        createdAt: now,
    };
    crate::db::lemma_owned_posts_push(s.posts, p, sub);
}

/// A post created by some other subject leaves this owner's listing
/// untouched, whatever the interleaving.
pub proof fn lemma_post_preserves_other_list(
    s: DBView,
    header: Option<Seq<char>>,
    title: Seq<char>,
    content: Seq<char>,
    now: u64,
    other: Seq<char>,
    sub: Seq<char>,
)
    requires
        s.wf(),
        spec_resolve(s.key, header, now) == Some(other),
        has_subject(s.users, other),
        other != sub,
    ensures
        owned_posts(spec_create_post(s, header, title, content, now).0.posts, sub) == owned_posts(
            s.posts,
            sub,
        ),
{
    let u = s.users[subject_idx(s.users, other)];
    let p = PostView {
        userId: other,
        title: title,
        content: content,
        firstName: u.firstName,
        comments: Seq::empty(),
        upVotes: Seq::empty(),
        createdAt: now,
    };
    crate::db::lemma_owned_posts_push(s.posts, p, sub);
}

/// After an edit, login with the new email and password succeeds; login
/// with the superseded password fails with the bad-credentials outcome
/// (stated for passwords whose digests differ, as any two distinct
/// passwords give in the absence of a digest collision).
pub proof fn lemma_edit_then_login(
    s: DBView,
    header: Option<Seq<char>>,
    email: Seq<char>,
    password: Seq<char>,
    first_name: Seq<char>,
    last_name: Seq<char>,
    old_password: Seq<char>,
    nowe: u64,
    nowl: u64,
    sub: Seq<char>,
)
    requires
        s.wf(),
        spec_resolve(s.key, header, nowe) == Some(sub),
        has_subject(s.users, sub),
        email.len() > 0,
        password.len() > 0,
        digest_of(password) != digest_of(old_password),
        forall|j: int|
            0 <= j < s.users.len() && j != subject_idx(s.users, sub) ==> (
            #[trigger] s.users[j]).email != email,
    ensures
        ({
            let (s2, r) = spec_edit(s, header, email, password, first_name, last_name, nowe);
            &&& r is Ok
            &&& spec_login(s2, email, password, nowl) is Ok
            &&& spec_login(s2, email, old_password, nowl) == Result::<
                crate::response::SingleUserResponseView,
                ErrView,
            >::Err(ErrView::InvalidIdentifiants)
        }),
{
    let i = subject_idx(s.users, sub);
    let (s2, r) = spec_edit(s, header, email, password, first_name, last_name, nowe);
    assert(r is Ok);
    assert(s2.users[i].email == email);
    assert(has_email(s2.users, email));
    let j = email_idx(s2.users, email);
    assert(0 <= j < s2.users.len() && s2.users[j].email == email);
    if j != i {
        assert(s2.users[j] == s.users[j]);
    }
    assert(j == i);
    assert(s2.users[i].password == digest_of(password));
}

/// Removal of a subject that no longer exists fails with the not-found
/// error and changes nothing; removal of an existing subject deletes
/// exactly that one record and returns its pre-deletion fields with the
/// confirmation flag set.
pub proof fn lemma_remove_outcomes(s: DBView, header: Option<Seq<char>>, sub: Seq<char>, now: u64)
    requires
        s.wf(),
        spec_resolve(s.key, header, now) == Some(sub),
    ensures
        ({
            let (s2, r) = spec_remove(s, header, now);
            &&& !has_subject(s.users, sub) ==> s2 == s && r == Result::<
                crate::response::SingleUserResponseDelView,
                ErrView,
            >::Err(ErrView::NotFoundError(sub))
            &&& has_subject(s.users, sub) ==> ({
                let i = subject_idx(s.users, sub);
                &&& s2.users == s.users.remove(i)
                &&& s2.users.len() + 1 == s.users.len()
                &&& r matches Ok(a) && a.ok == true && a.data.removed == true && a.data.email
                    == s.users[i].email && a.data.firstName == s.users[i].firstName
                    && a.data.lastName == s.users[i].lastName
            })
        }),
{
    if has_subject(s.users, sub) {
        let i = subject_idx(s.users, sub);
        assert(0 <= i < s.users.len());
    }
}

} // verus!
