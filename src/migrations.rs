//! Data migrations that run once each at startup, after the schema
//! migrations: which are still to run, and what the album back-fill writes.

use crate::clock::{now, Timestamp};
use crate::ids::{is_random_uuid, Uuid};
use crate::models::{Album, User};
use crate::provisioning::opt_view;
use vstd::prelude::*;

verus! {

pub const LIFESTYLE_ALBUM: &'static str = "lifestyle_album";

pub const IMAGE_METADATA: &'static str = "image_metadata";

/// Every data migration, in the order they run.
pub open spec fn migration_names() -> Seq<Seq<char>> {
    seq![LIFESTYLE_ALBUM@, IMAGE_METADATA@]
}

/// The names of `names` that `applied` lacks, in order.
pub open spec fn not_applied(names: Seq<Seq<char>>, applied: Seq<Seq<char>>) -> Seq<Seq<char>>
    decreases names.len(),
{
    if names.len() == 0 {
        Seq::empty()
    } else if applied.contains(names.last()) {
        not_applied(names.drop_last(), applied)
    } else {
        not_applied(names.drop_last(), applied).push(names.last())
    }
}

fn contains_name(names: &Vec<String>, name: &String) -> (r: bool)
    ensures
        r == names@.map_values(|s: String| s@).contains(name@),
{
    let ghost view = names@.map_values(|s: String| s@);
    let mut i: usize = 0;
    while i < names.len()
        invariant
            i <= names@.len(),
            view == names@.map_values(|s: String| s@),
            forall|j: int| 0 <= j < i ==> names@[j]@ != name@,
        decreases names@.len() - i,
    {
        if names[i].eq(name) {
            assert(view[i as int] == name@);
            return true;
        }
        i = i + 1;
    }
    assert forall|k: int| 0 <= k < view.len() implies view[k] != name@ by {
        assert(view[k] == names@[k]@);
    }
    false
}

/// The data migrations still to run, given the names of those already
/// applied, in the order they run.
pub fn pending_migrations(applied: &Vec<String>) -> (r: Vec<String>)
    ensures
        r@.map_values(|s: String| s@) == not_applied(
            migration_names(),
            applied@.map_values(|s: String| s@),
        ),
{
    let ghost applied_view = applied@.map_values(|s: String| s@);
    let all = vec![String::from_str(LIFESTYLE_ALBUM), String::from_str(IMAGE_METADATA)];
    assert(all@.map_values(|s: String| s@) =~= migration_names());
    let mut r: Vec<String> = Vec::new();
    let mut i: usize = 0;
    while i < all.len()
        invariant
            i <= all@.len(),
            all@.map_values(|s: String| s@) == migration_names(),
            r@.map_values(|s: String| s@) == not_applied(
                migration_names().subrange(0, i as int),
                applied_view,
            ),
            applied_view == applied@.map_values(|s: String| s@),
        decreases all@.len() - i,
    {
        let name = all[i].clone();
        let ghost before = r@;
        assert(migration_names().subrange(0, i + 1).drop_last() =~= migration_names().subrange(
            0,
            i as int,
        ));
        assert(migration_names().subrange(0, i + 1).last() == all@[i as int]@);
        if !contains_name(applied, &name) {
            r.push(name);
            assert(r@.map_values(|s: String| s@) =~= before.map_values(|s: String| s@).push(
                all@[i as int]@,
            ));
        }
        i = i + 1;
    }
    assert(migration_names().subrange(0, 2) =~= migration_names());
    r
}

/// The album that the back-fill gives a user.
pub open spec fn is_lifestyle_album(user: User, album: Album) -> bool {
    &&& album.user_id == user.id
    &&& album.name@ == "lifestyle"@
    &&& opt_view(album.description) == Some("Family & Lifestyle"@)
    &&& !album.deleted
}

/// The back-fill of the lifestyle album, made at `at`: for each user in
/// order, one album with the identifier at the same place in `ids`.
pub fn lifestyle_albums_at(users: &Vec<User>, at: Timestamp, ids: &Vec<Uuid>) -> (r: Vec<Album>)
    requires
        ids@.len() == users@.len(),
    ensures
        r@.len() == users@.len(),
        forall|i: int|
            0 <= i < users@.len() ==> {
                &&& is_lifestyle_album(users@[i], #[trigger] r@[i])
                &&& r@[i].id == ids@[i]
                &&& r@[i].created_at == at
                &&& r@[i].updated_at == at
            },
{
    let mut r: Vec<Album> = Vec::new();
    let mut i: usize = 0;
    while i < users.len()
        invariant
            i <= users@.len(),
            ids@.len() == users@.len(),
            r@.len() == i,
            forall|j: int|
                0 <= j < i ==> {
                    &&& is_lifestyle_album(users@[j], #[trigger] r@[j])
                    &&& r@[j].id == ids@[j]
                    &&& r@[j].created_at == at
                    &&& r@[j].updated_at == at
                },
        decreases users@.len() - i,
    {
        let album = Album::stamped(
            &users[i],
            String::from_str("lifestyle"),
            Some(String::from_str("Family & Lifestyle")),
            ids[i],
            at,
        );
        r.push(album);
        i = i + 1;
    }
    r
}

/// The back-fill of the lifestyle album: one for each user, in order, with
/// fresh identifiers and the current time; none when the clock reads before
/// 1970.
pub fn lifestyle_albums(users: &Vec<User>) -> (r: Option<Vec<Album>>)
    ensures
        r matches Some(albums) ==> {
            &&& albums@.len() == users@.len()
            &&& forall|i: int|
                0 <= i < users@.len() ==> {
                    &&& is_lifestyle_album(users@[i], #[trigger] albums@[i])
                    &&& is_random_uuid(albums@[i].id@)
                    &&& albums@[i].created_at == albums@[0].created_at
                }
        },
{
    let at = now()?;
    let mut ids: Vec<Uuid> = Vec::new();
    let mut i: usize = 0;
    while i < users.len()
        invariant
            i <= users@.len(),
            ids@.len() == i,
            forall|j: int| 0 <= j < i ==> is_random_uuid(#[trigger] ids@[j]@),
        decreases users@.len() - i,
    {
        ids.push(Uuid::new_v4());
        i = i + 1;
    }
    Some(lifestyle_albums_at(users, at, &ids))
}

/// The record that a data migration has been applied.
#[derive(Debug, Clone, PartialEq)]
pub struct CustomMigration {
    pub id: Uuid,
    pub name: String,
    pub created_at: Timestamp,
}

impl CustomMigration {
    /// The record for `name`, stamped with the current time: none when the
    /// clock reads before 1970.
    pub fn new(name: String) -> (r: Option<CustomMigration>)
        ensures
            r matches Some(m) ==> m.name == name && is_random_uuid(m.id@),
    {
        let t = now()?;
        Some(CustomMigration::stamped(name, Uuid::new_v4(), t))
    }

    /// The record for `name` with the given identifier, made at `at`.
    pub fn stamped(name: String, id: Uuid, at: Timestamp) -> (r: CustomMigration)
        ensures
            r.name == name,
            r.id == id,
            r.created_at == at,
    {
        CustomMigration { id, name, created_at: at }
    }
}

} // verus!
