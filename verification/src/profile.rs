//! User profiles: the profile card and the `set` subcommand that stores a
//! profile property.
use vstd::prelude::*;
use crate::embed::{AuthorView, Embed, EmbedAuthor, EmbedView, FieldView};
use crate::text::{owned, push_str, same_text};

verus! {

/// Where Last.fm profiles live (as the bot links them).
pub const LASTFM_USER_BASE: &'static str = "https://www.lastfm/user";

/// Whose profile the command shows: the first mentioned member, else the
/// author when no argument is given, else the member the argument names
/// (`None` when it names nobody: the command then does nothing).
pub fn profile_target(first_mention: Option<u64>, has_argument: bool, named: Option<u64>, author: u64) -> (r: Option<u64>)
    ensures
        r == (match first_mention {
            Some(m) => Some(m),
            None => if has_argument { named } else { Some(author) },
        }),
{
    match first_mention {
        Some(m) => Some(m),
        None => if has_argument { named } else { Some(author) },
    }
}

/// The stored profile of a member, and how the member looks.
pub struct ProfileCard {
    pub user_tag: String,
    pub face: String,
    /// The member's colour, if a role gives one.
    pub color: Option<u32>,
    pub name: String,
    pub location: String,
    pub gender: String,
    pub pronouns: String,
    pub lastfm: String,
}

/// The five stored profile properties of a member, as text (an empty
/// text where none is stored).
pub struct ProfileRow {
    pub name: Seq<char>,
    pub location: Seq<char>,
    pub gender: Seq<char>,
    pub pronouns: Seq<char>,
    pub lastfm: Seq<char>,
}

/// The properties a card shows.
pub open spec fn row_of(p: ProfileCard) -> ProfileRow {
    ProfileRow { name: p.name@, location: p.location@, gender: p.gender@, pronouns: p.pronouns@, lastfm: p.lastfm@ }
}

/// The profile card of a member with the given tag, avatar and colour,
/// showing the stored properties.
pub open spec fn profile_card_view(user_tag: Seq<char>, face: Seq<char>, color: Option<u32>, row: ProfileRow) -> EmbedView {
    EmbedView::blank().set_author(
        AuthorView { name: "Profile for user "@ + user_tag, url: None, icon_url: Some(face) },
    ).set_color(
        match color {
            Some(c) => c,
            None => 0x00FF_FFFF,
        },
    ).add_field("Name"@, row.name, true).add_field("Location"@, row.location, true).add_field("Gender"@, row.gender, true).add_field(
        "Pronouns"@,
        row.pronouns,
        true,
    ).add_field("Last.fm"@, "["@ + row.lastfm + "]("@ + LASTFM_USER_BASE@ + "/"@ + row.lastfm + ")"@, false)
}

pub open spec fn profile_view(p: ProfileCard) -> EmbedView {
    profile_card_view(p.user_tag@, p.face@, p.color, row_of(p))
}

/// The profile message.
pub fn profile_embed(p: &ProfileCard) -> (e: Embed)
    ensures
        e@ == profile_view(*p),
{
    let mut author_name = owned("Profile for user ");
    push_str(&mut author_name, p.user_tag.as_str());
    let color = match p.color {
        Some(c) => c,
        None => 0x00FF_FFFF,
    };
    let mut lastfm = owned("[");
    push_str(&mut lastfm, p.lastfm.as_str());
    push_str(&mut lastfm, "](");
    push_str(&mut lastfm, LASTFM_USER_BASE);
    push_str(&mut lastfm, "/");
    push_str(&mut lastfm, p.lastfm.as_str());
    push_str(&mut lastfm, ")");
    let author = EmbedAuthor::named(author_name).with_icon(p.face.clone());
    Embed::new().author(author).color(color).field(owned("Name"), p.name.clone(), true).field(
        owned("Location"),
        p.location.clone(),
        true,
    ).field(owned("Gender"), p.gender.clone(), true).field(owned("Pronouns"), p.pronouns.clone(), true).field(
        owned("Last.fm"),
        lastfm,
        false,
    )
}

// ---------------------------------------------------------------------------
// Setting a property
// ---------------------------------------------------------------------------

/// What `set` does with a property and a value.
pub enum SetPlan {
    /// Say this and change nothing.
    Refuse(String),
    /// Run `query` with the value and the member's key, then say
    /// `confirmation`. For a Last.fm name, look the account up first.
    Store { query: String, confirmation: String, check_lastfm: bool },
}

pub enum SetPlanView {
    Refuse(Seq<char>),
    Store { query: Seq<char>, confirmation: Seq<char>, check_lastfm: bool },
}

impl View for SetPlan {
    type V = SetPlanView;

    open spec fn view(&self) -> SetPlanView {
        match self {
            SetPlan::Refuse(s) => SetPlanView::Refuse(s@),
            SetPlan::Store { query, confirmation, check_lastfm } => SetPlanView::Store {
                query: query@,
                confirmation: confirmation@,
                check_lastfm: *check_lastfm,
            },
        }
    }
}

pub open spec fn store(query: Seq<char>, confirmation: Seq<char>, check_lastfm: bool) -> SetPlanView {
    SetPlanView::Store { query, confirmation, check_lastfm }
}

/// The plan for each property; an empty value is refused with a request
/// for one, an unknown property with a notice.
pub open spec fn set_plan(property: Seq<char>, value: Seq<char>) -> SetPlanView {
    if property == "location"@ {
        if value.len() == 0 {
            SetPlanView::Refuse("You did not provide a location. Please provide one!"@)
        } else {
            store(
                "UPDATE profile_data SET user_location = $1 WHERE user_id = $2;"@,
                "Your location has been set to `"@ + value + "`."@,
                false,
            )
        }
    } else if property == "lastfm"@ {
        if value.len() == 0 {
            SetPlanView::Refuse("You did not provide your Last.fm username. Please provide one!"@)
        } else {
            store(
                "UPDATE profile_data SET user_lastfm_id = $1 WHERE user_id = $2"@,
                "Your Last.fm username has been set to `"@ + value + "`."@,
                true,
            )
        }
    } else if property == "name"@ {
        if value.len() == 0 {
            SetPlanView::Refuse("You did not provide a name. Please provide one!"@)
        } else {
            store("UPDATE profile_data SET user_name = $1 WHERE user_id = $2"@, "Your name has been set to "@ + value + "."@, false)
        }
    } else if property == "gender"@ {
        if value.len() == 0 {
            SetPlanView::Refuse("You did not provide your gender. Please provide it."@)
        } else {
            store("UPDATE profile_data SET user_gender = $1 WHERE user_id = $2"@, "Your gender has been set to "@ + value + "."@, false)
        }
    } else if property == "pronouns"@ {
        if value.len() == 0 {
            SetPlanView::Refuse("You did not provide any pronouns. Please provide them."@)
        } else {
            store(
                "UPDATE profile_data SET user_pronouns = $1 WHERE user_id = $2"@,
                "Your pronouns have been set to "@ + value + "."@,
                false,
            )
        }
    } else {
        SetPlanView::Refuse("That is not a valid profile property."@)
    }
}

fn stored(query: &str, before: &str, value: &str, after: &str, check_lastfm: bool) -> (p: SetPlan)
    ensures
        p@ == store(query@, before@ + value@ + after@, check_lastfm),
{
    let mut confirmation = owned(before);
    push_str(&mut confirmation, value);
    push_str(&mut confirmation, after);
    SetPlan::Store { query: owned(query), confirmation, check_lastfm }
}

/// What `set` does with the given property and value.
pub fn plan_set(property: &str, value: &str) -> (p: SetPlan)
    ensures
        p@ == set_plan(property@, value@),
{
    if same_text(property, "location") {
        if value.is_empty() {
            SetPlan::Refuse(owned("You did not provide a location. Please provide one!"))
        } else {
            stored("UPDATE profile_data SET user_location = $1 WHERE user_id = $2;", "Your location has been set to `", value, "`.", false)
        }
    } else if same_text(property, "lastfm") {
        if value.is_empty() {
            SetPlan::Refuse(owned("You did not provide your Last.fm username. Please provide one!"))
        } else {
            stored("UPDATE profile_data SET user_lastfm_id = $1 WHERE user_id = $2", "Your Last.fm username has been set to `", value, "`.", true)
        }
    } else if same_text(property, "name") {
        if value.is_empty() {
            SetPlan::Refuse(owned("You did not provide a name. Please provide one!"))
        } else {
            stored("UPDATE profile_data SET user_name = $1 WHERE user_id = $2", "Your name has been set to ", value, ".", false)
        }
    } else if same_text(property, "gender") {
        if value.is_empty() {
            SetPlan::Refuse(owned("You did not provide your gender. Please provide it."))
        } else {
            stored("UPDATE profile_data SET user_gender = $1 WHERE user_id = $2", "Your gender has been set to ", value, ".", false)
        }
    } else if same_text(property, "pronouns") {
        if value.is_empty() {
            SetPlan::Refuse(owned("You did not provide any pronouns. Please provide them."))
        } else {
            stored("UPDATE profile_data SET user_pronouns = $1 WHERE user_id = $2", "Your pronouns have been set to ", value, ".", false)
        }
    } else {
        SetPlan::Refuse(owned("That is not a valid profile property."))
    }
}

/// The key a member's profile row is stored under: the user id's bits read
/// as a signed number.
pub fn profile_key(user_id: u64) -> (k: i64)
    ensures
        k == user_id as i64,
{
    user_id as i64
}

/// What to say after looking a Last.fm name up, given the message of the
/// invalid-parameters error that came back, if that came back: only an
/// unknown user is answered. The name is stored either way.
pub fn lastfm_lookup_reply(invalid_parameters: Option<String>) -> (r: Option<String>)
    ensures
        r.deep_view() == (match invalid_parameters {
            Some(m) => if m@ == "User not found"@ {
                Some("You cannot use this as your username."@)
            } else {
                None
            },
            None => None,
        }),
{
    match invalid_parameters {
        Some(m) => if same_text(m.as_str(), "User not found") {
            Some(owned("You cannot use this as your username."))
        } else {
            None
        },
        None => None,
    }
}

/// `set` stores only one of the five profile properties, and never an
/// empty value; the Last.fm name is the only one looked up first.
pub proof fn set_stores_known_nonempty(property: Seq<char>, value: Seq<char>)
    ensures
        set_plan(property, value) is Store ==> value.len() > 0 && (property == "location"@ || property == "lastfm"@
            || property == "name"@ || property == "gender"@ || property == "pronouns"@),
        set_plan(property, value) matches SetPlanView::Store { check_lastfm, .. } ==> (check_lastfm <==> property
            == "lastfm"@),
{
    reveal_strlit("location");
    reveal_strlit("lastfm");
    reveal_strlit("name");
    reveal_strlit("gender");
    reveal_strlit("pronouns");
    assert("location"@.len() != "lastfm"@.len());
    assert("name"@.len() != "lastfm"@.len());
    assert("pronouns"@.len() != "lastfm"@.len());
    assert("gender"@[0] != "lastfm"@[0]);
}

// ---------------------------------------------------------------------------
// From `set` to the card
// ---------------------------------------------------------------------------

/// The member's row after one of `set`'s statements ran on it with `value`
/// as `$1`: each statement writes one column; any other text writes none.
pub open spec fn updated_row(row: ProfileRow, query: Seq<char>, value: Seq<char>) -> ProfileRow {
    if query == "UPDATE profile_data SET user_location = $1 WHERE user_id = $2;"@ {
        ProfileRow { location: value, ..row }
    } else if query == "UPDATE profile_data SET user_lastfm_id = $1 WHERE user_id = $2"@ {
        ProfileRow { lastfm: value, ..row }
    } else if query == "UPDATE profile_data SET user_name = $1 WHERE user_id = $2"@ {
        ProfileRow { name: value, ..row }
    } else if query == "UPDATE profile_data SET user_gender = $1 WHERE user_id = $2"@ {
        ProfileRow { gender: value, ..row }
    } else if query == "UPDATE profile_data SET user_pronouns = $1 WHERE user_id = $2"@ {
        ProfileRow { pronouns: value, ..row }
    } else {
        row
    }
}

/// Where on the card a property is shown.
pub open spec fn field_index(property: Seq<char>) -> int {
    if property == "name"@ {
        0
    } else if property == "location"@ {
        1
    } else if property == "gender"@ {
        2
    } else if property == "pronouns"@ {
        3
    } else {
        4
    }
}

/// The field that shows a property with the given value.
pub open spec fn shown_field(property: Seq<char>, value: Seq<char>) -> FieldView {
    if property == "name"@ {
        FieldView { name: "Name"@, value, inline: true }
    } else if property == "location"@ {
        FieldView { name: "Location"@, value, inline: true }
    } else if property == "gender"@ {
        FieldView { name: "Gender"@, value, inline: true }
    } else if property == "pronouns"@ {
        FieldView { name: "Pronouns"@, value, inline: true }
    } else {
        FieldView { name: "Last.fm"@, value: "["@ + value + "]("@ + LASTFM_USER_BASE@ + "/"@ + value + ")"@, inline: false }
    }
}

/// What `set` stores is what the next profile card shows: once the
/// statement that `set` plans for a property has run on a member's row,
/// the member's card shows the value in that property's field, and its
/// other fields, author and colour are as before.
pub proof fn set_then_profile_shows(
    row: ProfileRow,
    property: Seq<char>,
    value: Seq<char>,
    user_tag: Seq<char>,
    face: Seq<char>,
    color: Option<u32>,
)
    requires
        set_plan(property, value) is Store,
    ensures
        ({
            let after = profile_card_view(user_tag, face, color, updated_row(row, set_plan(property, value)->query, value));
            let before = profile_card_view(user_tag, face, color, row);
            &&& after.fields.len() == 5
            &&& after.fields[field_index(property)] == shown_field(property, value)
            &&& forall|k: int| 0 <= k < 5 && k != field_index(property) ==> after.fields[k] == before.fields[k]
            &&& after.author == before.author
            &&& after.color == before.color
        }),
{
    reveal_strlit("location");
    reveal_strlit("lastfm");
    reveal_strlit("name");
    reveal_strlit("gender");
    reveal_strlit("pronouns");
    reveal_strlit("UPDATE profile_data SET user_location = $1 WHERE user_id = $2;");
    reveal_strlit("UPDATE profile_data SET user_lastfm_id = $1 WHERE user_id = $2");
    reveal_strlit("UPDATE profile_data SET user_name = $1 WHERE user_id = $2");
    reveal_strlit("UPDATE profile_data SET user_gender = $1 WHERE user_id = $2");
    reveal_strlit("UPDATE profile_data SET user_pronouns = $1 WHERE user_id = $2");
    set_stores_known_nonempty(property, value);
    let loc = "UPDATE profile_data SET user_location = $1 WHERE user_id = $2;"@;
    let lfm = "UPDATE profile_data SET user_lastfm_id = $1 WHERE user_id = $2"@;
    let nam = "UPDATE profile_data SET user_name = $1 WHERE user_id = $2"@;
    let gen = "UPDATE profile_data SET user_gender = $1 WHERE user_id = $2"@;
    let pro = "UPDATE profile_data SET user_pronouns = $1 WHERE user_id = $2"@;
    assert(loc[30] != lfm[30]);
    assert(nam[29] != loc[29] && nam[29] != lfm[29]);
    assert(gen[29] != loc[29] && gen[29] != lfm[29] && gen[29] != nam[29]);
    assert(pro[29] != loc[29] && pro[29] != lfm[29] && pro[29] != nam[29] && pro[29] != gen[29]);
    assert("name"@.len() != "location"@.len() && "name"@.len() != "pronouns"@.len() && "name"@.len() != "lastfm"@.len());
    assert("name"@[0] != "gender"@[0] && "location"@[0] != "gender"@[0] && "location"@.len() != "lastfm"@.len());
    assert("gender"@.len() != "pronouns"@.len() && "gender"@[0] != "lastfm"@[0] && "pronouns"@.len() != "lastfm"@.len());
    let after = profile_card_view(user_tag, face, color, updated_row(row, set_plan(property, value)->query, value));
    let before = profile_card_view(user_tag, face, color, row);
    assert(after.fields.len() == 5);
    assert(before.fields.len() == 5);
}

} // verus!
