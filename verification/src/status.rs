//! What the daemon asks of the Mattermost API and makes of its answers.
use vstd::prelude::*;

use crate::config::Config;
use crate::json::{
    keys_distinct, lemma_lookup_push, lookup, parse_json, sets_member, spec_parse_json, str_member, with_member_spec,
    JsonDoc, MembersView,
};
use crate::text::{is_whitespace, lemma_trim_of_trimmed, trim, trim_text};

verus! {

/// What to do with the custom status (emoji and text).
#[derive(Debug)]
pub enum CustomStatusChange {
    /// Remove it (`DELETE .../status/custom`).
    Clear,
    /// Set it (`PUT .../status/custom` with this emoji and text).
    Replace { emoji: String, text: String },
}

/// The two requests that set a status: the custom status, then the
/// availability.
#[derive(Debug)]
pub struct StatusUpdate {
    /// The custom status request.
    pub custom: CustomStatusChange,
    /// The availability to set (`PUT .../status`).
    pub availability: String,
}

// ---------------------------------------------------------------------------
// Specifications
// ---------------------------------------------------------------------------

/// The view of an optional text.
pub open spec fn opt_text(o: Option<&str>) -> Option<Seq<char>> {
    match o {
        Some(s) => Some(s@),
        None => None,
    }
}

/// The string member `key` of a status document, trimmed; empty when there is
/// none.
pub open spec fn shown(doc: Option<MembersView>, key: Seq<char>) -> Seq<char> {
    match str_member(doc, key) {
        Some(s) => trim(s),
        None => Seq::empty(),
    }
}

/// The custom status as an empty object would have it.
pub open spec fn blank_status() -> Option<MembersView> {
    Some(seq![("emoji"@, Some(Seq::<char>::empty())), ("text"@, Some(Seq::<char>::empty()))])
}

/// A blank custom status with the availability `a`.
pub open spec fn blank_status_with(a: Seq<char>) -> Option<MembersView> {
    Some(
        seq![
            ("emoji"@, Some(Seq::<char>::empty())),
            ("text"@, Some(Seq::<char>::empty())),
            ("availability"@, Some(a)),
        ],
    )
}

/// The keys of a blank status with an availability are distinct.
pub proof fn lemma_blank_keys_distinct(a: Seq<char>)
    ensures
        keys_distinct(blank_status_with(a)),
{
    reveal_strlit("emoji");
    reveal_strlit("text");
    reveal_strlit("availability");
    assert("emoji"@.len() != "text"@.len());
    assert("emoji"@.len() != "availability"@.len());
    assert("text"@.len() != "availability"@.len());
}

/// The custom status a user profile holds: the `customStatus` text parsed as
/// JSON when it is non-empty and parses, else a blank status.
pub open spec fn custom_state(custom_status: Option<Seq<char>>) -> Option<MembersView> {
    match custom_status {
        Some(s) => if s.len() > 0 && spec_parse_json(s) is Some {
            spec_parse_json(s)->0
        } else {
            blank_status()
        },
        None => blank_status(),
    }
}

/// The availability that was read, or `online` when none could be read or it
/// was empty.
pub open spec fn availability_or_online(availability: Option<Seq<char>>) -> Seq<char> {
    match availability {
        Some(a) => if a.len() > 0 {
            a
        } else {
            "online"@
        },
        None => "online"@,
    }
}

/// The availability a status document holds, `online` when it holds none.
pub open spec fn saved_availability(doc: Option<MembersView>) -> Seq<char> {
    match str_member(doc, "availability"@) {
        Some(a) => a,
        None => "online"@,
    }
}

// ---------------------------------------------------------------------------
// Executable
// ---------------------------------------------------------------------------

/// Whether an availability that was read says the user is offline; an
/// availability that could not be read does not.
pub fn user_is_offline(availability: Option<&str>) -> (b: bool)
    ensures
        b == (opt_text(availability) == Some("offline"@)),
{
    match availability {
        Some(a) => crate::json::same_text(a, "offline"),
        None => false,
    }
}

/// The current status made of the parsed custom status, if the profile had a
/// non-empty one that parsed, and the availability that was read: the parsed
/// status with its `availability` member set, a value that is no object kept
/// as it is; without a parsed status, a blank status with the availability.
pub fn state_from_parsed(parsed: Option<JsonDoc>, availability: Option<&str>) -> (d: JsonDoc)
    ensures
        match parsed {
            Some(p) => sets_member(p, "availability"@, availability_or_online(opt_text(availability)), d)
                && with_member_spec(p@, "availability"@, availability_or_online(opt_text(availability)), d@)
                && (keys_distinct(p@) ==> keys_distinct(d@)),
            None => d@ == blank_status_with(availability_or_online(opt_text(availability))),
        },
        keys_distinct(d@) || parsed is Some,
{
    let mut avail = String::from_str("online");
    if let Some(a) = availability {
        if a.unicode_len() != 0 {
            avail = String::from_str(a);
        }
    }
    match parsed {
        Some(p) => p.with_member("availability", avail),
        None => {
            let ghost a = avail@;
            let mut members: Vec<(String, String)> = Vec::new();
            members.push((String::from_str("emoji"), String::new()));
            members.push((String::from_str("text"), String::new()));
            members.push((String::from_str("availability"), avail));
            proof {
                reveal_strlit("emoji");
                reveal_strlit("text");
                reveal_strlit("availability");
                assert(members@.map_values(|p: (String, String)| (p.0@, Some(p.1@)))
                    =~= blank_status_with(a)->0);
                lemma_blank_keys_distinct(a);
            }
            JsonDoc::object(members)
        },
    }
}

/// The current status: the custom status of the profile, parsed when it is
/// non-empty, with the availability added when it is an object.
pub fn current_state_from(custom_status: Option<&str>, availability: Option<&str>) -> (d: JsonDoc)
    ensures
        with_member_spec(
            custom_state(opt_text(custom_status)),
            "availability"@,
            availability_or_online(opt_text(availability)),
            d@,
        ),
        keys_distinct(d@),
{
    let mut parsed: Option<JsonDoc> = None;
    if let Some(s) = custom_status {
        if s.unicode_len() != 0 {
            parsed = parse_json(s);
        }
    }
    proof {
        lemma_blank_keys_distinct(availability_or_online(opt_text(availability)));
        if parsed is None {
            let a = availability_or_online(opt_text(availability));
            let r = blank_status_with(a)->0;
            let m = blank_status()->0;
            reveal_strlit("emoji");
            reveal_strlit("text");
            reveal_strlit("availability");
            assert forall|k: Seq<char>| #[trigger]
                lookup(r, k) == if k == "availability"@ {
                    Some(Some(a))
                } else {
                    lookup(m, k)
                } by {
                assert(r =~= m.push(("availability"@, Some(a))));
                assert("emoji"@.len() != "availability"@.len());
                assert("text"@.len() != "availability"@.len());
                lemma_lookup_push(m, ("availability"@, Some(a)), k);
            }
        }
    }
    state_from_parsed(parsed, availability)
}

/// The requests that set `status` with `availability`: the custom status is
/// cleared when both its trimmed text and emoji are empty, else set to them.
pub fn plan_status_update(status: &JsonDoc, availability: &str) -> (u: StatusUpdate)
    ensures
        u.availability@ == availability@,
        u.custom matches CustomStatusChange::Replace { emoji, text } ==> emoji@ == shown(
            status@,
            "emoji"@,
        ) && text@ == shown(status@, "text"@),
        u.custom is Clear <==> shown(status@, "emoji"@).len() == 0 && shown(status@, "text"@).len()
            == 0,
{
    let text = match status.str_member("text") {
        Some(t) => trim_text(t.as_str()),
        None => String::new(),
    };
    let emoji = match status.str_member("emoji") {
        Some(e) => trim_text(e.as_str()),
        None => String::new(),
    };
    let custom = if text.as_str().unicode_len() == 0 && emoji.as_str().unicode_len() == 0 {
        CustomStatusChange::Clear
    } else {
        CustomStatusChange::Replace { emoji, text }
    };
    StatusUpdate { custom, availability: String::from_str(availability) }
}

/// The availability to restore from a saved status document.
pub fn availability_to_restore(saved: &JsonDoc) -> (a: String)
    ensures
        a@ == saved_availability(saved@),
{
    match saved.str_member("availability") {
        Some(a) => a,
        None => String::from_str("online"),
    }
}

impl Config {
    /// `<url>/api/v4/users/<user_id>/status`, where the availability is read and set.
    pub fn status_endpoint(&self) -> (e: String)
        ensures
            e@ == self.url@ + "/api/v4/users/"@ + self.user_id@ + "/status"@,
    {
        let mut e = String::from_str(self.url.as_str());
        e.append("/api/v4/users/");
        e.append(self.user_id.as_str());
        e.append("/status");
        e
    }

    /// `<url>/api/v4/users/<user_id>/status/custom`, where the custom status is set.
    pub fn custom_status_endpoint(&self) -> (e: String)
        ensures
            e@ == self.url@ + "/api/v4/users/"@ + self.user_id@ + "/status/custom"@,
    {
        let mut e = String::from_str(self.url.as_str());
        e.append("/api/v4/users/");
        e.append(self.user_id.as_str());
        e.append("/status/custom");
        e
    }

    /// `<url>/api/v4/users/me`, the profile of the token's user.
    pub fn profile_endpoint(&self) -> (e: String)
        ensures
            e@ == self.url@ + "/api/v4/users/me"@,
    {
        let mut e = String::from_str(self.url.as_str());
        e.append("/api/v4/users/me");
        e
    }

    /// The `Authorization` header value: `Bearer <token>`.
    pub fn authorization(&self) -> (h: String)
        ensures
            h@ == "Bearer "@ + self.token@,
    {
        let mut h = String::from_str("Bearer ");
        h.append(self.token.as_str());
        h
    }
}

// ---------------------------------------------------------------------------
// Laws
// ---------------------------------------------------------------------------

/// A status saved when a meeting starts brings back, when restored, the
/// availability that was read then (when one was read and it was not empty)
/// and the same custom text and emoji, provided the custom status is an
/// object.
pub proof fn lemma_saved_state_restores(
    custom_status: Option<Seq<char>>,
    availability: Seq<char>,
    saved: Option<MembersView>,
)
    requires
        availability.len() > 0,
        custom_state(custom_status) is Some,
        with_member_spec(custom_state(custom_status), "availability"@, availability, saved),
    ensures
        saved_availability(saved) == availability,
        shown(saved, "text"@) == shown(custom_state(custom_status), "text"@),
        shown(saved, "emoji"@) == shown(custom_state(custom_status), "emoji"@),
{
    let m = custom_state(custom_status)->0;
    let r = saved->0;
    assert(lookup(r, "availability"@) == Some(Some(availability)));
    reveal_strlit("availability");
    reveal_strlit("text");
    reveal_strlit("emoji");
    assert("text"@ != "availability"@) by {
        assert("text"@.len() != "availability"@.len());
    }
    assert("emoji"@ != "availability"@) by {
        assert("emoji"@.len() != "availability"@.len());
    }
    assert(lookup(r, "text"@) == lookup(m, "text"@));
    assert(lookup(r, "emoji"@) == lookup(m, "emoji"@));
}

/// The trimmed value of a member depends on that member alone: two documents
/// whose members `key` read the same show the same value for `key`, whatever
/// their other members hold.
pub proof fn lemma_shown_reads_its_own_member(d1: Option<MembersView>, d2: Option<MembersView>, key: Seq<char>)
    requires
        str_member(d1, key) == str_member(d2, key),
    ensures
        shown(d1, key) == shown(d2, key),
{
}

/// A string member with no whitespace at either end is shown as it is, and
/// a member that is missing or not a string is shown empty.
pub proof fn lemma_shown_value(doc: Option<MembersView>, key: Seq<char>, s: Seq<char>)
    ensures
        str_member(doc, key) == Some(s) && (s.len() == 0 || (!is_whitespace(s[0])
            && !is_whitespace(s.last()))) ==> shown(doc, key) == s,
        str_member(doc, key) is None ==> shown(doc, key).len() == 0,
{
    if str_member(doc, key) == Some(s) {
        if s.len() == 0 || (!is_whitespace(s[0]) && !is_whitespace(s.last())) {
            lemma_trim_of_trimmed(s);
        }
    }
}

/// A non-empty availability that was read is the one the current status
/// keeps, `offline` included; `online` stands in only when none was read or
/// it was empty.
pub proof fn lemma_read_availability_kept(a: Seq<char>)
    ensures
        a.len() > 0 ==> availability_or_online(Some(a)) == a,
        a.len() == 0 ==> availability_or_online(Some(a)) == "online"@,
        availability_or_online(None) == "online"@,
{
}

/// When the profile's custom status is an object, the current status holds
/// as its availability the non-empty availability that was read.
pub proof fn lemma_current_state_availability(
    custom_status: Option<Seq<char>>,
    availability: Seq<char>,
    d: Option<MembersView>,
)
    requires
        availability.len() > 0,
        custom_state(custom_status) is Some,
        with_member_spec(
            custom_state(custom_status),
            "availability"@,
            availability_or_online(Some(availability)),
            d,
        ),
    ensures
        str_member(d, "availability"@) == Some(availability),
{
    lemma_read_availability_kept(availability);
    assert(lookup(d->0, "availability"@) == Some(Some(availability)));
}

/// The availability restored from a saved status is its `availability`
/// string member, `online` when it has none.
pub proof fn lemma_saved_availability(doc: Option<MembersView>, a: Seq<char>)
    ensures
        str_member(doc, "availability"@) == Some(a) ==> saved_availability(doc) == a,
        str_member(doc, "availability"@) is None ==> saved_availability(doc) == "online"@,
{
}

/// The custom status of a profile is the parsed `customStatus` when it is
/// non-empty and parses, a value that is no object included; otherwise it is
/// an object whose text and emoji are empty.
pub proof fn lemma_custom_state(custom_status: Option<Seq<char>>)
    ensures
        custom_status matches Some(s) && s.len() > 0 && spec_parse_json(s) is Some ==> custom_state(
            custom_status,
        ) == spec_parse_json(custom_status->0)->0,
        !(custom_status matches Some(s) && s.len() > 0 && spec_parse_json(s) is Some) ==> {
            &&& custom_state(custom_status) is Some
            &&& str_member(custom_state(custom_status), "text"@) == Some(Seq::<char>::empty())
            &&& str_member(custom_state(custom_status), "emoji"@) == Some(Seq::<char>::empty())
        },
{
    let m = blank_status()->0;
    reveal_strlit("emoji");
    reveal_strlit("text");
    assert("emoji"@.len() != "text"@.len());
    assert(m[0].0 == "emoji"@);
    assert(lookup(m, "emoji"@) == Some(Some(Seq::<char>::empty())));
    assert(m.drop_first()[0] == m[1]);
    assert(lookup(m.drop_first(), "text"@) == Some(Some(Seq::<char>::empty())));
    assert(lookup(m, "text"@) == Some(Some(Seq::<char>::empty())));
}

} // verus!
