//! The user record, its mapping to and from the store's documents, and what
//! the repository asks of the store.

use crate::document::{empty_document, field_names, get_text, insert_text, text_fields};
use bson::Document;
use vstd::prelude::*;

verus! {

/// A user of the service: five text attributes, all required.
///
/// The email is the natural key: the store is asked to update, delete and
/// look up by it. The password is kept as plain text.
#[derive(Debug, Clone, PartialEq, Eq)]
pub struct User {
    pub first_name: String,
    pub last_name: String,
    pub user_name: String,
    pub password: String,
    pub email: String,
}

/// A user as five texts.
pub struct UserView {
    pub first_name: Seq<char>,
    pub last_name: Seq<char>,
    pub user_name: Seq<char>,
    pub password: Seq<char>,
    pub email: Seq<char>,
}

impl View for User {
    type V = UserView;

    open spec fn view(&self) -> UserView {
        UserView {
            first_name: self.first_name@,
            last_name: self.last_name@,
            user_name: self.user_name@,
            password: self.password@,
            email: self.email@,
        }
    }
}

impl DeepView for User {
    type V = UserView;

    open spec fn deep_view(&self) -> UserView {
        self@
    }
}

/// Assembles a user from its five attributes, each kept verbatim.
pub fn build_user(
    first_name: String,
    last_name: String,
    email: String,
    user_name: String,
    password: String,
) -> (user: User)
    ensures
        user.first_name == first_name,
        user.last_name == last_name,
        user.user_name == user_name,
        user.password == password,
        user.email == email,
{
    User { first_name, last_name, user_name, password, email }
}

/// The field names of a stored user, in the order in which they are written.
pub open spec fn stored_names() -> Seq<Seq<char>> {
    seq!["firstName"@, "lastName"@, "username"@, "password"@, "email"@]
}

/// The text fields of the document that stands for `user` in the store.
pub open spec fn stored_text(user: UserView) -> Map<Seq<char>, Seq<char>> {
    map![
        "firstName"@ => user.first_name,
        "lastName"@ => user.last_name,
        "username"@ => user.user_name,
        "password"@ => user.password,
        "email"@ => user.email,
    ]
}

/// The text stored under `name`, or the empty text where there is none.
pub open spec fn text_or_empty(text: Map<Seq<char>, Seq<char>>, name: Seq<char>) -> Seq<char> {
    if text.contains_key(name) {
        text[name]
    } else {
        Seq::empty()
    }
}

/// The user that a document's text fields stand for. A field that is missing,
/// or whose value is not text, reads as the empty text.
pub open spec fn record_of_text(text: Map<Seq<char>, Seq<char>>) -> UserView {
    UserView {
        first_name: text_or_empty(text, "firstName"@),
        last_name: text_or_empty(text, "lastName"@),
        user_name: text_or_empty(text, "username"@),
        password: text_or_empty(text, "password"@),
        email: text_or_empty(text, "email"@),
    }
}

/// The five stored field names differ from one another.
pub proof fn stored_names_differ()
    ensures
        stored_names().no_duplicates(),
        stored_names().len() == 5,
{
    reveal_strlit("firstName");
    reveal_strlit("lastName");
    reveal_strlit("username");
    reveal_strlit("password");
    reveal_strlit("email");
    let names = stored_names();
    assert(names[0].len() == 9 && names[4].len() == 5);
    assert(names[1].len() == 8 && names[1][0] == 'l');
    assert(names[2].len() == 8 && names[2][0] == 'u');
    assert(names[3].len() == 8 && names[3][0] == 'p');
}

/// Maps a user to its document: the five stored fields, in order, each
/// holding the attribute's text verbatim, and no other field.
pub fn user_to_document(user: &User) -> (document: Document)
    ensures
        field_names(document) == stored_names(),
        text_fields(document) == stored_text(user@),
{
    proof {
        stored_names_differ();
    }
    let mut document = empty_document();
    insert_text(&mut document, "firstName", user.first_name.as_str());
    insert_text(&mut document, "lastName", user.last_name.as_str());
    insert_text(&mut document, "username", user.user_name.as_str());
    insert_text(&mut document, "password", user.password.as_str());
    insert_text(&mut document, "email", user.email.as_str());
    document
}

/// The text of the field `name`, or the empty text where the document has no
/// such field or holds something other than text under it.
fn field_text(document: &Document, name: &str) -> (text: String)
    ensures
        text@ == text_or_empty(text_fields(*document), name@),
{
    match get_text(document, name) {
        Some(text) => text,
        None => String::new(),
    }
}

/// Maps a document to a user. The reading is lenient: a field that is missing
/// or not text becomes the empty text, and fields other than the five stored
/// ones are ignored. No document is rejected.
pub fn user_from_document(document: Document) -> (user: User)
    ensures
        user@ == record_of_text(text_fields(document)),
{
    let first_name = field_text(&document, "firstName");
    let last_name = field_text(&document, "lastName");
    let email = field_text(&document, "email");
    let user_name = field_text(&document, "username");
    let password = field_text(&document, "password");
    build_user(first_name, last_name, email, user_name, password)
}

/// Writing a user to a document and reading the document back gives the same
/// user.
pub proof fn round_trip(user: UserView)
    ensures
        record_of_text(stored_text(user)) == user,
{
    stored_names_differ();
    let names = stored_names();
    assert(names[0] == "firstName"@ && names[1] == "lastName"@ && names[2] == "username"@
        && names[3] == "password"@ && names[4] == "email"@);
}

/// A stored field that a document lacks, or holds as something other than
/// text, reads as the empty text; the fields that are text are read verbatim.
pub proof fn lenient_reading(text: Map<Seq<char>, Seq<char>>)
    ensures
        !text.contains_key("firstName"@) ==> record_of_text(text).first_name == Seq::<char>::empty(),
        !text.contains_key("lastName"@) ==> record_of_text(text).last_name == Seq::<char>::empty(),
        !text.contains_key("username"@) ==> record_of_text(text).user_name == Seq::<char>::empty(),
        !text.contains_key("password"@) ==> record_of_text(text).password == Seq::<char>::empty(),
        !text.contains_key("email"@) ==> record_of_text(text).email == Seq::<char>::empty(),
        text.contains_key("firstName"@) ==> record_of_text(text).first_name == text["firstName"@],
        text.contains_key("lastName"@) ==> record_of_text(text).last_name == text["lastName"@],
        text.contains_key("username"@) ==> record_of_text(text).user_name == text["username"@],
        text.contains_key("password"@) ==> record_of_text(text).password == text["password"@],
        text.contains_key("email"@) ==> record_of_text(text).email == text["email"@],
{
}

/// Reading looks at the five stored fields only: whatever a document holds
/// under another name, such as the identifier that the store adds, changes
/// nothing in the user that is read.
pub proof fn reading_ignores_other_fields(
    text: Map<Seq<char>, Seq<char>>,
    name: Seq<char>,
    value: Seq<char>,
)
    requires
        !stored_names().contains(name),
    ensures
        record_of_text(text.insert(name, value)) == record_of_text(text),
        record_of_text(text.remove(name)) == record_of_text(text),
{
    let names = stored_names();
    assert(names[0] == "firstName"@ && names[1] == "lastName"@ && names[2] == "username"@
        && names[3] == "password"@ && names[4] == "email"@);
}

/// The text fields of the filter that names the documents of one email.
pub open spec fn email_filter_text(email: Seq<char>) -> Map<Seq<char>, Seq<char>> {
    map!["email"@ => email]
}

/// Whether a document with these text fields is one that the filter for
/// `email` names: its `email` field is text and equals `email`.
pub open spec fn has_email(text: Map<Seq<char>, Seq<char>>, email: Seq<char>) -> bool {
    text.contains_key("email"@) && text["email"@] == email
}

/// The filter by which the store is asked for the documents of one email: a
/// single field `email` that holds the given text verbatim. Deleting and
/// looking up by email send this filter as it is.
pub fn email_filter(email: &String) -> (filter: Document)
    ensures
        field_names(filter) == seq!["email"@],
        text_fields(filter) == email_filter_text(email@),
{
    let mut filter = empty_document();
    insert_text(&mut filter, "email", email.as_str());
    filter
}

/// What an update asks of the store: the filter for the user's email, and the
/// user's whole document as the replacement. Every field is replaced; there
/// is no partial update.
pub fn update_request(user: &User) -> (request: (Document, Document))
    ensures
        field_names(request.0) == seq!["email"@],
        text_fields(request.0) == email_filter_text(user@.email),
        field_names(request.1) == stored_names(),
        text_fields(request.1) == stored_text(user@),
{
    (email_filter(&user.email), user_to_document(user))
}

/// The document written for a user is named by the filter for an email
/// exactly when that email is the user's own. So the filter that looking up,
/// updating or deleting sends for an email names the document that creating a
/// user with that email sent, and none that was created with another email.
pub proof fn filter_names_own_document(user: UserView, email: Seq<char>)
    ensures
        has_email(stored_text(user), email) <==> user.email == email,
{
}

/// What the store's cursor hands over when it is asked for the next document
/// of a listing.
pub enum CursorEvent<E> {
    /// The next document of the collection.
    Document(Document),
    /// The cursor, or the connection under it, failed.
    Failure(E),
    /// The collection holds no further document.
    Exhausted,
}

/// What a listing does after an event.
pub enum ListingStep<E> {
    /// Ask the cursor again; these are the users gathered so far.
    Continue(Vec<User>),
    /// The listing is over: the users in the order in which the store gave
    /// their documents, or the store's error.
    Finished(Result<Vec<User>, E>),
}

/// One step of listing every user: takes the users gathered so far and what
/// the cursor handed over, and says how the listing goes on.
///
/// A document is read leniently and its user joins the others at the end, so
/// that a malformed document never ends the listing. A failure of the cursor
/// ends it with that error, and the users gathered so far are dropped. When
/// the cursor is exhausted the listing ends with the gathered users. A listing
/// starts with no user gathered.
pub fn listing_step<E>(gathered: Vec<User>, event: CursorEvent<E>) -> (step: ListingStep<E>)
    ensures
        event matches CursorEvent::Document(document) ==> (step matches ListingStep::Continue(users)
            && users.deep_view() == gathered.deep_view().push(record_of_text(text_fields(document)))),
        event matches CursorEvent::Failure(error) ==> step == ListingStep::<E>::Finished(Err(error)),
        event is Exhausted ==> step == ListingStep::<E>::Finished(Ok(gathered)),
{
    match event {
        CursorEvent::Document(document) => {
            let mut users = gathered;
            let user = user_from_document(document);
            users.push(user);
            proof {
                assert(users.deep_view() =~= gathered.deep_view().push(user@));
            }
            ListingStep::Continue(users)
        },
        CursorEvent::Failure(error) => ListingStep::Finished(Err(error)),
        CursorEvent::Exhausted => ListingStep::Finished(Ok(gathered)),
    }
}

} // verus!
