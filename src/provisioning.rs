//! First-login provisioning: a provider profile becomes a local user, either
//! the one already stored under its email or, for an email on the allow-list,
//! a new one together with its default album.

use crate::clock::{now, Timestamp};
use crate::ids::{is_random_uuid, Uuid};
use crate::models::{Album, User};
use vstd::prelude::*;

verus! {

/// The view of an optional text.
pub open spec fn opt_view(o: Option<String>) -> Option<Seq<char>> {
    match o {
        Some(s) => Some(s@),
        None => None,
    }
}

/// An identity vouched for by a sign-in provider.
pub trait Profile {
    /// The email the provider reports.
    spec fn profile_email(&self) -> Seq<char>;

    /// The picture the provider reports, if any.
    spec fn profile_picture(&self) -> Option<Seq<char>>;

    /// The email the provider reports.
    fn email(&self) -> (r: String)
        ensures
            r@ == self.profile_email(),
    ;

    /// The picture the provider reports, if any.
    fn picture(&self) -> (r: Option<String>)
        ensures
            opt_view(r) == self.profile_picture(),
    ;

    /// A new local user carrying the profile's email and picture: none when
    /// the clock reads before 1970.
    fn new_user(&self) -> (r: Option<User>)
        ensures
            r matches Some(u) ==> {
                &&& u.email@ == self.profile_email()
                &&& opt_view(u.picture) == self.profile_picture()
                &&& u.created_at == u.updated_at
            },
    ;
}

/// The emails that may sign in for the first time.
pub struct AllowList {
    emails: Vec<String>,
}

impl View for AllowList {
    type V = Seq<Seq<char>>;

    closed spec fn view(&self) -> Seq<Seq<char>> {
        self.emails@.map_values(|s: String| s@)
    }
}

impl AllowList {
    pub fn new(emails: Vec<String>) -> (r: AllowList)
        ensures
            r@ == emails@.map_values(|s: String| s@),
    {
        AllowList { emails }
    }

    /// Whether `email` is on the list, compared exactly.
    pub fn contains(&self, email: &String) -> (r: bool)
        ensures
            r == self@.contains(email@),
    {
        let mut i: usize = 0;
        while i < self.emails.len()
            invariant
                i <= self.emails@.len(),
                forall|j: int| 0 <= j < i ==> self.emails@[j]@ != email@,
            decreases self.emails@.len() - i,
        {
            if self.emails[i].eq(email) {
                assert(self@[i as int] == email@);
                return true;
            }
            i = i + 1;
        }
        assert forall|k: int| 0 <= k < self@.len() implies self@[k] != email@ by {
            assert(self@[k] == self.emails@[k]@);
        }
        false
    }
}

/// Why a profile could not be mapped to a user.
#[derive(Debug, Clone, Copy, PartialEq, Eq, Structural)]
pub enum UserError {
    /// The storage failed.
    Model,
    /// The email is neither stored nor on the allow-list.
    UserNotAllowed,
    /// The clock reads before 1970, so no record can be stamped.
    Clock,
}

/// The user a profile maps to, and what must be written for it.
#[derive(Debug, Clone, PartialEq)]
pub enum Provisioning {
    /// The stored user; nothing is written.
    Found(User),
    /// A new user, to be written with its default albums.
    Created(User, Vec<Album>),
}

impl Provisioning {
    pub open spec fn spec_user(self) -> User {
        match self {
            Provisioning::Found(u) => u,
            Provisioning::Created(u, _) => u,
        }
    }

    /// The user signed in.
    pub fn user(&self) -> (r: &User)
        ensures
            *r == self.spec_user(),
    {
        match self {
            Provisioning::Found(u) => u,
            Provisioning::Created(u, _) => u,
        }
    }
}

/// The album every new user starts with.
pub open spec fn is_default_album(user: User, album: Album) -> bool {
    &&& album.user_id == user.id
    &&& album.name@ == "weddings"@
    &&& opt_view(album.description) == Some("Wedding pictures"@)
    &&& !album.deleted
}

/// What provisioning decides, given the user stored under `email` (if any)
/// and the allow-list. A new user can only fail to be made when the clock
/// reads before 1970.
pub open spec fn provisioned(
    existing: Option<User>,
    email: Seq<char>,
    allowed: Seq<Seq<char>>,
    r: Result<Provisioning, UserError>,
) -> bool {
    match existing {
        Some(u) => r == Ok::<Provisioning, UserError>(Provisioning::Found(u)),
        None => if allowed.contains(email) {
            ||| (r matches Ok(Provisioning::Created(u, albums)) && u.email@ == email
                && albums@.len() == 1 && is_default_album(u, albums@[0]))
            ||| r == Err::<Provisioning, UserError>(UserError::Clock)
        } else {
            r == Err::<Provisioning, UserError>(UserError::UserNotAllowed)
        },
    }
}

/// `u` is the new user for `email` and `picture` with identifier `id`, made
/// at `at`.
pub open spec fn is_fresh_user(
    u: User,
    email: Seq<char>,
    picture: Option<Seq<char>>,
    at: Timestamp,
    id: Uuid,
) -> bool {
    &&& u.id == id
    &&& u.email@ == email
    &&& opt_view(u.picture) == picture
    &&& u.created_at == at
    &&& u.updated_at == at
}

/// `albums` is the default album of `u` alone, with identifier `id`, made at
/// `at`.
pub open spec fn is_fresh_default_albums(u: User, albums: Seq<Album>, at: Timestamp, id: Uuid) -> bool {
    &&& albums.len() == 1
    &&& is_default_album(u, albums[0])
    &&& albums[0].id == id
    &&& albums[0].created_at == at
    &&& albums[0].updated_at == at
}

/// The records a first login writes: the user, and its default album.
pub fn provision_new(
    email: String,
    picture: Option<String>,
    at: Timestamp,
    user_id: Uuid,
    album_id: Uuid,
) -> (r: (User, Vec<Album>))
    ensures
        is_fresh_user(r.0, email@, opt_view(picture), at, user_id),
        is_fresh_default_albums(r.0, r.1@, at, album_id),
{
    let user = User::stamped(email, picture, user_id, at);
    let album = Album::stamped(
        &user,
        String::from_str("weddings"),
        Some(String::from_str("Wedding pictures")),
        album_id,
        at,
    );
    (user, vec![album])
}

/// What provisioning decides when the clock reads `at` and the new records
/// get the identifiers `user_id` and `album_id`; no clock reading (before
/// 1970) means no new records.
pub open spec fn provisioned_at(
    existing: Option<User>,
    email: Seq<char>,
    picture: Option<Seq<char>>,
    allowed: Seq<Seq<char>>,
    at: Option<Timestamp>,
    user_id: Uuid,
    album_id: Uuid,
    r: Result<Provisioning, UserError>,
) -> bool {
    match existing {
        Some(u) => r == Ok::<Provisioning, UserError>(Provisioning::Found(u)),
        None => if allowed.contains(email) {
            match at {
                Some(t) => (r matches Ok(Provisioning::Created(u, albums)) && is_fresh_user(
                    u,
                    email,
                    picture,
                    t,
                    user_id,
                ) && is_fresh_default_albums(u, albums@, t, album_id)),
                None => r == Err::<Provisioning, UserError>(UserError::Clock),
            }
        } else {
            r == Err::<Provisioning, UserError>(UserError::UserNotAllowed)
        },
    }
}

/// Maps a profile to a local user, any new records being made at the clock
/// reading `at` with the given identifiers. `existing` is the user stored under the profile's
/// email, if any: it is returned as it is. Otherwise an email on the
/// allow-list gets a new user and its default album, to be written together;
/// any other email is refused.
pub fn find_or_create_at<P: Profile>(
    existing: Option<User>,
    profile: &P,
    allowed: &AllowList,
    at: Option<Timestamp>,
    user_id: Uuid,
    album_id: Uuid,
) -> (r: Result<Provisioning, UserError>)
    ensures
        provisioned_at(
            existing,
            profile.profile_email(),
            profile.profile_picture(),
            allowed@,
            at,
            user_id,
            album_id,
            r,
        ),
{
    match existing {
        Some(user) => Ok(Provisioning::Found(user)),
        None => {
            let email = profile.email();
            if !allowed.contains(&email) {
                return Err(UserError::UserNotAllowed);
            }
            let at = match at {
                Some(t) => t,
                None => return Err(UserError::Clock),
            };
            let (user, albums) = provision_new(email, profile.picture(), at, user_id, album_id);
            Ok(Provisioning::Created(user, albums))
        },
    }
}

/// Maps a profile to a local user, as [`find_or_create_at`] does with the
/// current time and fresh identifiers. A new user can only fail to be made
/// when the clock reads before 1970.
pub fn find_or_create<P: Profile>(existing: Option<User>, profile: &P, allowed: &AllowList) -> (r:
    Result<Provisioning, UserError>)
    ensures
        provisioned(existing, profile.profile_email(), allowed@, r),
        r matches Ok(Provisioning::Created(u, albums)) ==> {
            &&& opt_view(u.picture) == profile.profile_picture()
            &&& is_random_uuid(u.id@)
            &&& is_random_uuid(albums@[0].id@)
            &&& u.created_at == u.updated_at
            &&& albums@[0].created_at == u.created_at
        },
{
    find_or_create_at(existing, profile, allowed, now(), Uuid::new_v4(), Uuid::new_v4())
}

/// The user stored under `email`: the first with that email.
pub open spec fn user_by_email(users: Seq<User>, email: Seq<char>) -> Option<User>
    decreases users.len(),
{
    if users.len() == 0 {
        None
    } else if users[0].email@ == email {
        Some(users[0])
    } else {
        user_by_email(users.drop_first(), email)
    }
}

/// The users stored once the outcome of provisioning is written.
pub open spec fn users_after(users: Seq<User>, r: Result<Provisioning, UserError>) -> Seq<User> {
    match r {
        Ok(Provisioning::Created(u, _)) => users.push(u),
        _ => users,
    }
}

/// The albums stored once the outcome of provisioning is written.
pub open spec fn albums_after(albums: Seq<Album>, r: Result<Provisioning, UserError>) -> Seq<
    Album,
> {
    match r {
        Ok(Provisioning::Created(_, a)) => albums + a@,
        _ => albums,
    }
}

proof fn lemma_absent_email(users: Seq<User>, email: Seq<char>)
    requires
        user_by_email(users, email) is None,
    ensures
        forall|i: int| 0 <= i < users.len() ==> users[i].email@ != email,
    decreases users.len(),
{
    if users.len() > 0 {
        lemma_absent_email(users.drop_first(), email);
        assert forall|i: int| 0 <= i < users.len() implies users[i].email@ != email by {
            if i > 0 {
                assert(users[i] == users.drop_first()[i - 1]);
            }
        }
    }
}

proof fn lemma_found_after_push(users: Seq<User>, u: User, email: Seq<char>)
    requires
        user_by_email(users, email) is None,
        u.email@ == email,
    ensures
        user_by_email(users.push(u), email) == Some(u),
    decreases users.len(),
{
    if users.len() > 0 {
        assert(users.push(u).drop_first() =~= users.drop_first().push(u));
        lemma_found_after_push(users.drop_first(), u, email);
    }
}

/// A profile whose email is already stored gets the stored user back
/// unchanged, and nothing is written.
pub proof fn stored_email_returns_stored_user(
    users: Seq<User>,
    albums: Seq<Album>,
    email: Seq<char>,
    allowed: Seq<Seq<char>>,
    r: Result<Provisioning, UserError>,
)
    requires
        user_by_email(users, email) is Some,
        provisioned(user_by_email(users, email), email, allowed, r),
    ensures
        r == Ok::<Provisioning, UserError>(Provisioning::Found(user_by_email(users, email)->0)),
        users_after(users, r) == users,
        albums_after(albums, r) == albums,
{
}

/// A new email on the allow-list gets exactly one new user with that email
/// (and the profile's picture), and at least one album owned by that user;
/// nothing else is written.
pub proof fn allowed_new_email_creates_one_user(
    users: Seq<User>,
    albums: Seq<Album>,
    email: Seq<char>,
    picture: Option<Seq<char>>,
    allowed: Seq<Seq<char>>,
    at: Timestamp,
    user_id: Uuid,
    album_id: Uuid,
    r: Result<Provisioning, UserError>,
)
    requires
        user_by_email(users, email) is None,
        allowed.contains(email),
        provisioned_at(
            user_by_email(users, email),
            email,
            picture,
            allowed,
            Some(at),
            user_id,
            album_id,
            r,
        ),
    ensures
        r matches Ok(Provisioning::Created(u, new_albums)) && {
            &&& u.email@ == email
            &&& opt_view(u.picture) == picture
            &&& users_after(users, r) == users.push(u)
            &&& forall|i: int|
                0 <= i < users.len() ==> #[trigger] users_after(users, r)[i].email@ != email
            &&& user_by_email(users_after(users, r), email) == Some(u)
            &&& new_albums@.len() >= 1
            &&& forall|i: int| 0 <= i < new_albums@.len() ==> #[trigger] new_albums@[i].user_id == u.id
            &&& albums_after(albums, r) == albums + new_albums@
        },
{
    lemma_absent_email(users, email);
    let u = r->Ok_0.spec_user();
    lemma_found_after_push(users, u, email);
    assert forall|i: int| 0 <= i < users.len() implies #[trigger] users_after(users, r)[i].email@
        != email by {
        assert(users_after(users, r)[i] == users[i]);
    }
}

/// A new email that is not on the allow-list is refused, and nothing is
/// written.
pub proof fn unlisted_new_email_is_refused(
    users: Seq<User>,
    albums: Seq<Album>,
    email: Seq<char>,
    allowed: Seq<Seq<char>>,
    r: Result<Provisioning, UserError>,
)
    requires
        user_by_email(users, email) is None,
        !allowed.contains(email),
        provisioned(user_by_email(users, email), email, allowed, r),
    ensures
        r == Err::<Provisioning, UserError>(UserError::UserNotAllowed),
        users_after(users, r) == users,
        albums_after(albums, r) == albums,
{
}

/// Provisioning a new allowed email twice in a row creates the user once:
/// the second time the user created the first time comes back, and nothing
/// more is written.
pub proof fn provisioning_twice_creates_once(
    users: Seq<User>,
    albums: Seq<Album>,
    email: Seq<char>,
    picture: Option<Seq<char>>,
    allowed: Seq<Seq<char>>,
    first_at: Timestamp,
    first_ids: (Uuid, Uuid),
    first: Result<Provisioning, UserError>,
    second_at: Timestamp,
    second_ids: (Uuid, Uuid),
    second: Result<Provisioning, UserError>,
)
    requires
        user_by_email(users, email) is None,
        allowed.contains(email),
        provisioned_at(
            user_by_email(users, email),
            email,
            picture,
            allowed,
            Some(first_at),
            first_ids.0,
            first_ids.1,
            first,
        ),
        provisioned_at(
            user_by_email(users_after(users, first), email),
            email,
            picture,
            allowed,
            Some(second_at),
            second_ids.0,
            second_ids.1,
            second,
        ),
    ensures
        first is Ok && first->Ok_0 is Created,
        second == Ok::<Provisioning, UserError>(Provisioning::Found(first->Ok_0.spec_user())),
        users_after(users_after(users, first), second) == users_after(users, first),
        albums_after(albums_after(albums, first), second) == albums_after(albums, first),
{
    let u = first->Ok_0.spec_user();
    lemma_found_after_push(users, u, email);
}

} // verus!
