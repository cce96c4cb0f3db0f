//! The records of the service and the values that requests carry. Each type
//! has a view in which text is a sequence of characters; contracts speak of
//! the views.

use vstd::prelude::*;

verus! {

/// A calendar date and time without a zone, as the store keeps it. The
/// library carries such a value and never looks inside.
#[verifier::external_type_specification]
#[verifier::external_body]
pub struct ExNaiveDateTime(chrono::NaiveDateTime);

/// The text of each entry of `names`.
pub open spec fn texts(names: Seq<String>) -> Seq<Seq<char>> {
    names.map_values(|name: String| name@)
}

/// The text of each slot of `slots`; an empty slot stays empty.
pub open spec fn slot_texts(slots: Seq<Option<String>>) -> Seq<Option<Seq<char>>> {
    slots.map_values(
        |slot: Option<String>|
            match slot {
                Some(name) => Some(name@),
                None => None,
            },
    )
}

/// A stored user.
#[derive(Debug, Clone, PartialEq, Eq)]
pub struct User {
    pub id: i64,
    pub profile: String,
    pub email: String,
    pub firstname: String,
    pub lastname: String,
    pub ph: String,
    pub password: String,
    pub created_at: Option<chrono::NaiveDateTime>,
    pub updated_at: Option<chrono::NaiveDateTime>,
}

/// A stored user, as contracts see it.
pub ghost struct UserView {
    pub id: i64,
    pub profile: Seq<char>,
    pub email: Seq<char>,
    pub firstname: Seq<char>,
    pub lastname: Seq<char>,
    pub ph: Seq<char>,
    pub password: Seq<char>,
    pub created_at: Option<chrono::NaiveDateTime>,
    pub updated_at: Option<chrono::NaiveDateTime>,
}

impl View for User {
    type V = UserView;

    open spec fn view(&self) -> UserView {
        UserView {
            id: self.id,
            profile: self.profile@,
            email: self.email@,
            firstname: self.firstname@,
            lastname: self.lastname@,
            ph: self.ph@,
            password: self.password@,
            created_at: self.created_at,
            updated_at: self.updated_at,
        }
    }
}

/// A user about to be stored: the profile image's stored name, the contact
/// fields, and the password hash.
#[derive(Debug, Clone, PartialEq, Eq)]
pub struct NewUser {
    pub profile: String,
    pub email: String,
    pub firstname: String,
    pub lastname: String,
    pub ph: String,
    pub password: String,
}

/// A user about to be stored, as contracts see it.
pub ghost struct NewUserView {
    pub profile: Seq<char>,
    pub email: Seq<char>,
    pub firstname: Seq<char>,
    pub lastname: Seq<char>,
    pub ph: Seq<char>,
    pub password: Seq<char>,
}

impl View for NewUser {
    type V = NewUserView;

    open spec fn view(&self) -> NewUserView {
        NewUserView {
            profile: self.profile@,
            email: self.email@,
            firstname: self.firstname@,
            lastname: self.lastname@,
            ph: self.ph@,
            password: self.password@,
        }
    }
}

/// The body of a login request.
#[derive(Debug, Clone, PartialEq, Eq)]
pub struct LoginRequest {
    pub email: String,
    pub password: String,
}

/// The identity that a verified token carries, with the instant, in seconds
/// since the epoch, at which it expires.
#[derive(Debug, Clone, PartialEq, Eq)]
pub struct Claims {
    pub id: i64,
    pub email: String,
    pub firstname: String,
    pub lastname: String,
    pub exp: usize,
}

/// Identity claims, as contracts see them.
pub ghost struct ClaimsView {
    pub id: i64,
    pub email: Seq<char>,
    pub firstname: Seq<char>,
    pub lastname: Seq<char>,
    pub exp: usize,
}

impl View for Claims {
    type V = ClaimsView;

    open spec fn view(&self) -> ClaimsView {
        ClaimsView {
            id: self.id,
            email: self.email@,
            firstname: self.firstname@,
            lastname: self.lastname@,
            exp: self.exp,
        }
    }
}

/// What a user listing shows of a user.
#[derive(Debug, Clone, PartialEq, Eq)]
pub struct UserData {
    pub id: i64,
    pub firstname: String,
    pub lastname: String,
    pub email: String,
    pub ph: String,
    pub profile: String,
}

/// A listed user, as contracts see it.
pub ghost struct UserDataView {
    pub id: i64,
    pub firstname: Seq<char>,
    pub lastname: Seq<char>,
    pub email: Seq<char>,
    pub ph: Seq<char>,
    pub profile: Seq<char>,
}

impl View for UserData {
    type V = UserDataView;

    open spec fn view(&self) -> UserDataView {
        UserDataView {
            id: self.id,
            firstname: self.firstname@,
            lastname: self.lastname@,
            email: self.email@,
            ph: self.ph@,
            profile: self.profile@,
        }
    }
}

/// The view of each listed user.
pub open spec fn user_views(users: Seq<UserData>) -> Seq<UserDataView> {
    users.map_values(|user: UserData| user@)
}

/// The body of a password change.
#[derive(Debug, Clone, PartialEq, Eq)]
pub struct ChangePasswordForm {
    pub old_password: String,
    pub new_password: String,
}

/// A stored post. A slot of `imgs` is empty where an image was deleted and
/// the list was not compacted.
#[derive(Debug, Clone, PartialEq, Eq)]
pub struct Post {
    pub id: i32,
    pub userid: i64,
    pub name: String,
    pub description: String,
    pub imgs: Vec<Option<String>>,
    pub created_at: Option<chrono::NaiveDateTime>,
}

/// A post, as contracts see it.
pub ghost struct PostView {
    pub id: i32,
    pub userid: i64,
    pub name: Seq<char>,
    pub description: Seq<char>,
    pub imgs: Seq<Option<Seq<char>>>,
    pub created_at: Option<chrono::NaiveDateTime>,
}

impl View for Post {
    type V = PostView;

    open spec fn view(&self) -> PostView {
        PostView {
            id: self.id,
            userid: self.userid,
            name: self.name@,
            description: self.description@,
            imgs: slot_texts(self.imgs@),
            created_at: self.created_at,
        }
    }
}

/// A post about to be stored.
#[derive(Debug, Clone, PartialEq, Eq)]
pub struct NewPost {
    pub userid: i64,
    pub name: String,
    pub description: String,
    pub imgs: Vec<Option<String>>,
}

/// A post about to be stored, as contracts see it.
pub ghost struct NewPostView {
    pub userid: i64,
    pub name: Seq<char>,
    pub description: Seq<char>,
    pub imgs: Seq<Option<Seq<char>>>,
}

impl View for NewPost {
    type V = NewPostView;

    open spec fn view(&self) -> NewPostView {
        NewPostView {
            userid: self.userid,
            name: self.name@,
            description: self.description@,
            imgs: slot_texts(self.imgs@),
        }
    }
}

/// A post as a response shows it.
#[derive(Debug, Clone, PartialEq, Eq)]
pub struct PostData {
    pub id: i32,
    pub userid: i64,
    pub name: String,
    pub description: String,
    pub imgs: Vec<Option<String>>,
    pub created_at: Option<chrono::NaiveDateTime>,
}

impl View for PostData {
    type V = PostView;

    open spec fn view(&self) -> PostView {
        PostView {
            id: self.id,
            userid: self.userid,
            name: self.name@,
            description: self.description@,
            imgs: slot_texts(self.imgs@),
            created_at: self.created_at,
        }
    }
}

impl PostView {
    /// The post with its image list compacted: the names in order, and no
    /// empty slot.
    pub open spec fn compacted(self) -> PostView {
        PostView { imgs: slots_of(present(self.imgs)), ..self }
    }
}

impl PostData {
    /// The response shape of a stored post whose image list is shown
    /// without the empty slots.
    pub fn compact(post: Post) -> (data: PostData)
        ensures
            data@ == post@.compacted(),
    {
        PostData {
            id: post.id,
            userid: post.userid,
            name: post.name,
            description: post.description,
            imgs: filled_slots(present_names(post.imgs)),
            created_at: post.created_at,
        }
    }

    /// The response shape of a stored post: every field as stored.
    pub fn of(post: Post) -> (data: PostData)
        ensures
            data@ == post@,
    {
        PostData {
            id: post.id,
            userid: post.userid,
            name: post.name,
            description: post.description,
            imgs: post.imgs,
            created_at: post.created_at,
        }
    }
}

/// A post of a listing, with its owner's display fields and its images
/// without the empty slots.
#[derive(Debug, Clone, PartialEq, Eq)]
pub struct PostWithUser {
    pub id: i32,
    pub user_id: i64,
    pub firstname: String,
    pub lastname: String,
    pub email: String,
    pub profile: String,
    pub name: String,
    pub imgs: Vec<String>,
    pub description: String,
    pub created_at: Option<chrono::NaiveDateTime>,
}

/// A listed post, as contracts see it.
pub ghost struct PostWithUserView {
    pub id: i32,
    pub user_id: i64,
    pub firstname: Seq<char>,
    pub lastname: Seq<char>,
    pub email: Seq<char>,
    pub profile: Seq<char>,
    pub name: Seq<char>,
    pub imgs: Seq<Seq<char>>,
    pub description: Seq<char>,
    pub created_at: Option<chrono::NaiveDateTime>,
}

impl View for PostWithUser {
    type V = PostWithUserView;

    open spec fn view(&self) -> PostWithUserView {
        PostWithUserView {
            id: self.id,
            user_id: self.user_id,
            firstname: self.firstname@,
            lastname: self.lastname@,
            email: self.email@,
            profile: self.profile@,
            name: self.name@,
            imgs: texts(self.imgs@),
            description: self.description@,
            created_at: self.created_at,
        }
    }
}

/// The view of each listed post.
pub open spec fn listed_post_views(posts: Seq<PostWithUser>) -> Seq<PostWithUserView> {
    posts.map_values(|post: PostWithUser| post@)
}

/// The scalar fields that an update of a post may supply.
#[derive(Debug, Clone, PartialEq, Eq)]
pub struct UpdatePostFields {
    pub name: Option<String>,
    pub description: Option<String>,
}

/// The scalar fields of an update, as contracts see them.
pub ghost struct UpdatePostFieldsView {
    pub name: Option<Seq<char>>,
    pub description: Option<Seq<char>>,
}

/// The text of an optional value.
pub open spec fn optional_text(value: Option<String>) -> Option<Seq<char>> {
    match value {
        Some(text) => Some(text@),
        None => None,
    }
}

impl View for UpdatePostFields {
    type V = UpdatePostFieldsView;

    open spec fn view(&self) -> UpdatePostFieldsView {
        UpdatePostFieldsView {
            name: optional_text(self.name),
            description: optional_text(self.description),
        }
    }
}

/// The fields of a post that an update sets. A field that is `None` is left
/// as it is stored.
#[derive(Debug, Clone, PartialEq, Eq)]
pub struct PostChanges {
    pub name: Option<String>,
    pub description: Option<String>,
    pub imgs: Option<Vec<Option<String>>>,
}

/// The fields that an update sets, as contracts see them.
pub ghost struct PostChangesView {
    pub name: Option<Seq<char>>,
    pub description: Option<Seq<char>>,
    pub imgs: Option<Seq<Option<Seq<char>>>>,
}

impl View for PostChanges {
    type V = PostChangesView;

    open spec fn view(&self) -> PostChangesView {
        PostChangesView {
            name: optional_text(self.name),
            description: optional_text(self.description),
            imgs: match self.imgs {
                Some(slots) => Some(slot_texts(slots@)),
                None => None,
            },
        }
    }
}

impl PostChangesView {
    /// The stored post after the update: each supplied field replaced, the
    /// others as they were.
    pub open spec fn applied_to(self, post: PostView) -> PostView {
        PostView {
            name: match self.name {
                Some(name) => name,
                None => post.name,
            },
            description: match self.description {
                Some(description) => description,
                None => post.description,
            },
            imgs: match self.imgs {
                Some(imgs) => imgs,
                None => post.imgs,
            },
            ..post
        }
    }
}

/// A post joined with its owner, as a listing query returns it.
#[derive(Debug, Clone, PartialEq, Eq)]
pub struct PostRow {
    pub id: i32,
    pub userid: i64,
    pub firstname: String,
    pub lastname: String,
    pub email: String,
    pub profile: String,
    pub name: String,
    pub imgs: Vec<Option<String>>,
    pub description: String,
    pub created_at: Option<chrono::NaiveDateTime>,
}

/// A joined row, as contracts see it.
pub ghost struct PostRowView {
    pub id: i32,
    pub userid: i64,
    pub firstname: Seq<char>,
    pub lastname: Seq<char>,
    pub email: Seq<char>,
    pub profile: Seq<char>,
    pub name: Seq<char>,
    pub imgs: Seq<Option<Seq<char>>>,
    pub description: Seq<char>,
    pub created_at: Option<chrono::NaiveDateTime>,
}

impl View for PostRow {
    type V = PostRowView;

    open spec fn view(&self) -> PostRowView {
        PostRowView {
            id: self.id,
            userid: self.userid,
            firstname: self.firstname@,
            lastname: self.lastname@,
            email: self.email@,
            profile: self.profile@,
            name: self.name@,
            imgs: slot_texts(self.imgs@),
            description: self.description@,
            created_at: self.created_at,
        }
    }
}

/// The view of each joined row.
pub open spec fn post_row_views(rows: Seq<PostRow>) -> Seq<PostRowView> {
    rows.map_values(|row: PostRow| row@)
}

/// A filled slot for each of `names`, in order.
pub open spec fn slots_of(names: Seq<Seq<char>>) -> Seq<Option<Seq<char>>> {
    names.map_values(|name: Seq<char>| Some(name))
}

/// A filled slot for each of `names`, in order.
pub fn filled_slots(names: Vec<String>) -> (imgs: Vec<Option<String>>)
    ensures
        slot_texts(imgs@) == slots_of(texts(names@)),
{
    let mut imgs: Vec<Option<String>> = Vec::new();
    let ghost all = names@;
    for name in it: names
        invariant
            it.seq() == all,
            slot_texts(imgs@) =~= slots_of(texts(all.take(it.index()))),
    {
        let ghost before = imgs@;
        imgs.push(Some(name));
        proof {
            assert(slot_texts(imgs@) =~= slot_texts(before).push(Some(name@)));
            assert(all.take(it.index() + 1) =~= all.take(it.index()).push(name));
            assert(texts(all.take(it.index() + 1)) =~= texts(all.take(it.index())).push(name@));
            assert(slots_of(texts(all.take(it.index() + 1))) =~= slots_of(texts(all.take(it.index()))).push(
                Some(name@),
            ));
        }
    }
    assert(all.take(all.len() as int) =~= all);
    imgs
}

/// The names that `slots` hold, in order; the empty slots are left out.
pub open spec fn present(slots: Seq<Option<Seq<char>>>) -> Seq<Seq<char>>
    decreases slots.len(),
{
    if slots.len() == 0 {
        Seq::empty()
    } else {
        match slots.last() {
            Some(name) => present(slots.drop_last()).push(name),
            None => present(slots.drop_last()),
        }
    }
}

/// The names that `slots` hold, in order; the empty slots are left out.
pub fn present_names(slots: Vec<Option<String>>) -> (names: Vec<String>)
    ensures
        texts(names@) == present(slot_texts(slots@)),
{
    let mut names: Vec<String> = Vec::new();
    let ghost all = slots@;
    assert(slot_texts(all.take(0)) =~= Seq::empty());
    assert(texts(names@) =~= Seq::empty());
    for slot in it: slots
        invariant
            it.seq() == all,
            texts(names@) == present(slot_texts(all.take(it.index()))),
    {
        proof {
            let i = it.index();
            assert(slot_texts(all.take(i + 1)) =~= slot_texts(all.take(i)).push(slot_texts(all)[i]));
            assert(slot_texts(all.take(i + 1)).drop_last() =~= slot_texts(all.take(i)));
        }
        match slot {
            Some(name) => {
                let ghost before = names@;
                names.push(name);
                assert(texts(names@) =~= texts(before).push(name@));
            },
            None => {},
        }
    }
    assert(all.take(all.len() as int) =~= all);
    names
}

/// No name that `present` gives is an empty slot: the result has one name
/// for each filled slot and none for the others.
pub proof fn present_keeps_filled_slots(slots: Seq<Option<Seq<char>>>)
    ensures
        present(slots).len() <= slots.len(),
        (forall|i: int| 0 <= i < slots.len() ==> slots[i] is Some) ==> present(slots).len() == slots.len() && (
        forall|i: int| 0 <= i < slots.len() ==> present(slots)[i] == (#[trigger] slots[i])->0),
    decreases slots.len(),
{
    if slots.len() > 0 {
        present_keeps_filled_slots(slots.drop_last());
        if forall|i: int| 0 <= i < slots.len() ==> slots[i] is Some {
            assert(forall|i: int| 0 <= i < slots.drop_last().len() ==> slots.drop_last()[i] == slots[i]);
        }
    }
}

impl PostRowView {
    /// The row as a listing shows it: the images without the empty slots.
    pub open spec fn listed(self) -> PostWithUserView {
        PostWithUserView {
            id: self.id,
            user_id: self.userid,
            firstname: self.firstname,
            lastname: self.lastname,
            email: self.email,
            profile: self.profile,
            name: self.name,
            imgs: present(self.imgs),
            description: self.description,
            created_at: self.created_at,
        }
    }
}

impl PostWithUser {
    /// The row as a listing shows it: the images without the empty slots.
    pub fn of(row: PostRow) -> (post: PostWithUser)
        ensures
            post@ == row@.listed(),
    {
        PostWithUser {
            id: row.id,
            user_id: row.userid,
            firstname: row.firstname,
            lastname: row.lastname,
            email: row.email,
            profile: row.profile,
            name: row.name,
            imgs: present_names(row.imgs),
            description: row.description,
            created_at: row.created_at,
        }
    }
}

/// Each row as a listing shows it.
pub open spec fn listed_rows(rows: Seq<PostRowView>) -> Seq<PostWithUserView> {
    rows.map_values(|row: PostRowView| row.listed())
}

/// Each row as a listing shows it, in the order of the rows.
pub fn list_rows(rows: Vec<PostRow>) -> (posts: Vec<PostWithUser>)
    ensures
        listed_post_views(posts@) == listed_rows(post_row_views(rows@)),
{
    let mut posts: Vec<PostWithUser> = Vec::new();
    let ghost all = rows@;
    for row in it: rows
        invariant
            it.seq() == all,
            listed_post_views(posts@) =~= listed_rows(post_row_views(all.take(it.index()))),
    {
        let ghost before = posts@;
        let post = PostWithUser::of(row);
        posts.push(post);
        proof {
            let i = it.index();
            assert(listed_post_views(posts@) =~= listed_post_views(before).push(post@));
            assert(all.take(i + 1) =~= all.take(i).push(row));
            assert(post_row_views(all.take(i + 1)) =~= post_row_views(all.take(i)).push(row@));
            assert(listed_rows(post_row_views(all.take(i + 1))) =~= listed_rows(post_row_views(all.take(i))).push(
                row@.listed(),
            ));
        }
    }
    assert(all.take(all.len() as int) =~= all);
    posts
}

} // verus!
