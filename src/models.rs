//! The stored records: users and the albums they own.

use crate::clock::{now, Timestamp};
use crate::ids::{is_random_uuid, Uuid};
use vstd::prelude::*;

verus! {

/// A person allowed to sign in, identified by a unique email.
#[derive(Debug, Clone, PartialEq)]
pub struct User {
    pub id: Uuid,
    pub email: String,
    pub picture: Option<String>,
    pub created_at: Timestamp,
    pub updated_at: Timestamp,
}

impl User {
    /// A new user record with a fresh identifier, stamped with the current
    /// time: none when the clock reads before 1970.
    pub fn new(email: String, picture: Option<String>) -> (r: Option<User>)
        ensures
            r matches Some(u) ==> {
                &&& u.email == email
                &&& u.picture == picture
                &&& is_random_uuid(u.id@)
                &&& u.created_at == u.updated_at
            },
    {
        let t = now()?;
        Some(User::stamped(email, picture, Uuid::new_v4(), t))
    }

    /// The user record with the given identifier, made at `at`.
    pub fn stamped(email: String, picture: Option<String>, id: Uuid, at: Timestamp) -> (r: User)
        ensures
            r.id == id,
            r.email == email,
            r.picture == picture,
            r.created_at == at,
            r.updated_at == at,
    {
        User { id, email, picture, created_at: at, updated_at: at }
    }

    /// A second record equal to this one.
    pub fn copied(&self) -> (r: User)
        ensures
            r == *self,
    {
        let picture = match &self.picture {
            Some(p) => Some(p.clone()),
            None => None,
        };
        User {
            id: self.id,
            email: self.email.clone(),
            picture,
            created_at: self.created_at,
            updated_at: self.updated_at,
        }
    }
}

/// A named container of photos, owned by one user.
#[derive(Debug, Clone, PartialEq)]
pub struct Album {
    pub id: Uuid,
    pub user_id: Uuid,
    pub name: String,
    pub description: Option<String>,
    pub created_at: Timestamp,
    pub updated_at: Timestamp,
    pub deleted: bool,
}

impl Album {
    /// A new album owned by `user`, with a fresh identifier, stamped with the
    /// current time: none when the clock reads before 1970.
    pub fn new(user: &User, name: String, description: Option<String>) -> (r: Option<Album>)
        ensures
            r matches Some(a) ==> {
                &&& a.user_id == user.id
                &&& a.name == name
                &&& a.description == description
                &&& !a.deleted
                &&& is_random_uuid(a.id@)
                &&& a.created_at == a.updated_at
            },
    {
        let t = now()?;
        Some(Album::stamped(user, name, description, Uuid::new_v4(), t))
    }

    /// The album owned by `user` with the given identifier, made at `at`.
    pub fn stamped(
        user: &User,
        name: String,
        description: Option<String>,
        id: Uuid,
        at: Timestamp,
    ) -> (r: Album)
        ensures
            r.id == id,
            r.user_id == user.id,
            r.name == name,
            r.description == description,
            r.created_at == at,
            r.updated_at == at,
            !r.deleted,
    {
        Album {
            id,
            user_id: user.id,
            name,
            description,
            created_at: at,
            updated_at: at,
            deleted: false,
        }
    }
}

/// The fields an album update writes.
#[derive(Debug, Clone, PartialEq)]
pub struct UpdateAlbum {
    pub name: String,
    pub description: Option<String>,
    pub updated_at: Timestamp,
}

impl Album {
    /// The change that renames the album and sets its description, stamped
    /// with the current time: none when the clock reads before 1970.
    pub fn prepare_update(&self, name: String, description: Option<String>) -> (r: Option<
        UpdateAlbum,
    >)
        ensures
            r matches Some(c) ==> c.name == name && c.description == description,
    {
        let t = now()?;
        Some(self.update_at(name, description, t))
    }

    /// The change that renames the album and sets its description, made at
    /// `at`.
    pub fn update_at(&self, name: String, description: Option<String>, at: Timestamp) -> (r:
        UpdateAlbum)
        ensures
            r.name == name,
            r.description == description,
            r.updated_at == at,
    {
        UpdateAlbum { name, description, updated_at: at }
    }
}

/// A photo in an album, its image held in the object store.
#[derive(Debug, Clone, PartialEq)]
pub struct Photo {
    pub id: Uuid,
    pub album_id: Uuid,
    pub user_id: Uuid,
    pub index_in_album: i32,
    pub s3_id: String,
    pub src: String,
    pub main_color: String,
    pub title: Option<String>,
    pub description: Option<String>,
    pub width: i32,
    pub height: i32,
    pub is_favorite: bool,
    pub created_at: Timestamp,
    pub updated_at: Timestamp,
    pub deleted: bool,
}

impl Photo {
    /// A new photo of `album`, owned by `user`, with a fresh identifier,
    /// stamped with the current time: none when the clock reads before 1970.
    pub fn new(
        album: &Album,
        user: &User,
        index_in_album: i32,
        s3_id: String,
        src: String,
        main_color: String,
        title: Option<String>,
        description: Option<String>,
        width: i32,
        height: i32,
        is_favorite: bool,
    ) -> (r: Option<Photo>)
        ensures
            r matches Some(p) ==> {
                &&& p.album_id == album.id
                &&& p.user_id == user.id
                &&& p.index_in_album == index_in_album
                &&& p.s3_id == s3_id
                &&& p.src == src
                &&& p.main_color == main_color
                &&& p.title == title
                &&& p.description == description
                &&& p.width == width
                &&& p.height == height
                &&& p.is_favorite == is_favorite
                &&& !p.deleted
                &&& is_random_uuid(p.id@)
                &&& p.created_at == p.updated_at
            },
    {
        let t = now()?;
        Some(
            Photo::stamped(
                album,
                user,
                index_in_album,
                s3_id,
                src,
                main_color,
                title,
                description,
                width,
                height,
                is_favorite,
                Uuid::new_v4(),
                t,
            ),
        )
    }

    /// The photo of `album`, owned by `user`, with the given identifier, made
    /// at `at`.
    pub fn stamped(
        album: &Album,
        user: &User,
        index_in_album: i32,
        s3_id: String,
        src: String,
        main_color: String,
        title: Option<String>,
        description: Option<String>,
        width: i32,
        height: i32,
        is_favorite: bool,
        id: Uuid,
        at: Timestamp,
    ) -> (r: Photo)
        ensures
            r.id == id,
            r.album_id == album.id,
            r.user_id == user.id,
            r.index_in_album == index_in_album,
            r.s3_id == s3_id,
            r.src == src,
            r.main_color == main_color,
            r.title == title,
            r.description == description,
            r.width == width,
            r.height == height,
            r.is_favorite == is_favorite,
            r.created_at == at,
            r.updated_at == at,
            !r.deleted,
    {
        Photo {
            id,
            album_id: album.id,
            user_id: user.id,
            index_in_album,
            s3_id,
            src,
            main_color,
            title,
            description,
            width,
            height,
            is_favorite,
            created_at: at,
            updated_at: at,
            deleted: false,
        }
    }
}

/// The fields a photo update writes.
#[derive(Debug, Clone, PartialEq)]
pub struct UpdatePhoto {
    pub index_in_album: i32,
    pub is_favorite: bool,
    pub title: Option<String>,
    pub description: Option<String>,
    pub updated_at: Timestamp,
}

impl Photo {
    /// The change that moves the photo in its album and sets its flags and
    /// texts, stamped with the current time: none when the clock reads before
    /// 1970.
    pub fn prepare_update(
        &self,
        index_in_album: i32,
        is_favorite: bool,
        title: Option<String>,
        description: Option<String>,
    ) -> (r: Option<UpdatePhoto>)
        ensures
            r matches Some(c) ==> {
                &&& c.index_in_album == index_in_album
                &&& c.is_favorite == is_favorite
                &&& c.title == title
                &&& c.description == description
            },
    {
        let t = now()?;
        Some(self.update_at(index_in_album, is_favorite, title, description, t))
    }

    /// The change that moves the photo in its album and sets its flags and
    /// texts, made at `at`.
    pub fn update_at(
        &self,
        index_in_album: i32,
        is_favorite: bool,
        title: Option<String>,
        description: Option<String>,
        at: Timestamp,
    ) -> (r: UpdatePhoto)
        ensures
            r.index_in_album == index_in_album,
            r.is_favorite == is_favorite,
            r.title == title,
            r.description == description,
            r.updated_at == at,
    {
        UpdatePhoto { index_in_album, is_favorite, title, description, updated_at: at }
    }
}

/// The address that contact requests for a user are sent to.
#[derive(Debug, Clone, PartialEq)]
pub struct BookMe {
    pub id: Uuid,
    pub user_id: Uuid,
    pub email: String,
}

impl BookMe {
    pub fn new(email: String, user: &User) -> (r: BookMe)
        ensures
            r.email == email,
            r.user_id == user.id,
            is_random_uuid(r.id@),
    {
        BookMe { id: Uuid::new_v4(), user_id: user.id, email }
    }
}

/// How a user's contact address is set.
#[derive(Debug, Clone, PartialEq)]
pub enum BookMeChange {
    /// The stored record, with the new address.
    Update(BookMe),
    /// A first record for the user.
    Create(BookMe),
}

/// Setting the contact address of `user` to `email`: the stored record, if
/// any, keeps its identity and takes the address; otherwise a new record is
/// made.
pub fn update_or_create(existing: Option<BookMe>, email: String, user: &User) -> (r: BookMeChange)
    ensures
        match (existing, r) {
            (Some(old), BookMeChange::Update(b)) => b.id == old.id && b.user_id == old.user_id
                && b.email == email,
            (None, BookMeChange::Create(b)) => b.user_id == user.id && b.email == email
                && is_random_uuid(b.id@),
            _ => false,
        },
{
    match existing {
        Some(old) => BookMeChange::Update(BookMe { id: old.id, user_id: old.user_id, email }),
        None => BookMeChange::Create(BookMe::new(email, user)),
    }
}

} // verus!
