//! The group-membership listing: fetching is left to the caller; the member
//! URL, the shape check of the response, and the strict validation that maps
//! each raw member to a `User` are built and proved here.
//!
//! Validation is fail-fast across the whole batch: the first member that
//! fails aborts the entire listing, and no partial user list is returned.

use vstd::prelude::*;

use crate::decimal::{parse_i16, spec_parse_i16};
use crate::err::{DataDetail, KeycloakError};
use crate::jsonval::member_of_value;

verus! {

/// Transient wire-format record for one group member: the username and the
/// raw value lists of the two attributes the mapping reads.
pub struct RawMember {
    pub username: String,
    pub uid: Option<Vec<String>>,
    pub github_id: Option<Vec<String>>,
}

/// A validated identity record.
pub struct User {
    pub name: String,
    pub uid: i16,
    pub github_id: String,
}

/// The mathematical content of one raw member: username, `uid` value list,
/// `github_id` value list.
pub open spec fn member_view(m: RawMember) -> (
    Seq<char>,
    Option<Seq<Seq<char>>>,
    Option<Seq<Seq<char>>>,
) {
    (m.username@, m.uid.deep_view(), m.github_id.deep_view())
}

pub open spec fn members_view(ms: Seq<RawMember>) -> Seq<
    (Seq<char>, Option<Seq<Seq<char>>>, Option<Seq<Seq<char>>>),
> {
    ms.map_values(|m: RawMember| member_view(m))
}

/// The mathematical content of one validated user: name, uid, github id.
pub open spec fn user_view(u: User) -> (Seq<char>, i16, Seq<char>) {
    (u.name@, u.uid, u.github_id@)
}

/// Why an attribute's value list was rejected.
pub enum AttrFault {
    Missing,
    Empty,
    Multiple,
}

/// The shared attribute rule: a list that is absent, empty, or longer than
/// one entry is rejected; exactly one entry is the accepted value.
pub open spec fn spec_attr(vs: Option<Seq<Seq<char>>>) -> Result<Seq<char>, AttrFault> {
    match vs {
        Option::None => Result::Err(AttrFault::Missing),
        Option::Some(list) => if list.len() == 0 {
            Result::Err(AttrFault::Empty)
        } else if list.len() == 1 {
            Result::Ok(list[0])
        } else {
            Result::Err(AttrFault::Multiple)
        },
    }
}

/// The error detail an attribute fault must carry: the right variant, the
/// attribute's name, and the offending username.
pub open spec fn fault_detail_matches(
    f: AttrFault,
    d: DataDetail,
    attr: Seq<char>,
    username: Seq<char>,
) -> bool {
    match (f, d) {
        (AttrFault::Missing, DataDetail::MissingAttribute { attr: a, username: u }) => a@ == attr
            && u@ == username,
        (AttrFault::Empty, DataDetail::EmptyAttribute { attr: a, username: u }) => a@ == attr && u@
            == username,
        (AttrFault::Multiple, DataDetail::MultipleValues { attr: a, username: u }) => a@ == attr
            && u@ == username,
        _ => false,
    }
}

/// Extract the single value of attribute `name` on member `member_name`,
/// exactly as [`spec_attr`] rules; a rejection names both.
pub fn get_attr(attr: &Option<Vec<String>>, name: &str, member_name: &str) -> (r: Result<
    String,
    KeycloakError,
>)
    ensures
        match spec_attr(attr.deep_view()) {
            Result::Ok(v) => r matches Ok(rv) && rv@ == v,
            Result::Err(f) => r matches Err(e) && (e matches KeycloakError::DataError(d)
                && fault_detail_matches(f, d, name@, member_name@)),
        },
{
    match attr {
        Option::None => Err(
            KeycloakError::DataError(
                DataDetail::MissingAttribute {
                    attr: name.to_owned(),
                    username: member_name.to_owned(),
                },
            ),
        ),
        Option::Some(vs) => {
            if vs.len() == 0 {
                Err(
                    KeycloakError::DataError(
                        DataDetail::EmptyAttribute {
                            attr: name.to_owned(),
                            username: member_name.to_owned(),
                        },
                    ),
                )
            } else if vs.len() == 1 {
                Ok(vs[0].clone())
            } else {
                Err(
                    KeycloakError::DataError(
                        DataDetail::MultipleValues {
                            attr: name.to_owned(),
                            username: member_name.to_owned(),
                        },
                    ),
                )
            }
        },
    }
}

/// The user a raw member maps to, when both attributes pass the rule and the
/// `uid` value parses as a signed 16-bit integer; `None` otherwise.
pub open spec fn spec_user(
    m: (Seq<char>, Option<Seq<Seq<char>>>, Option<Seq<Seq<char>>>),
) -> Option<(Seq<char>, i16, Seq<char>)> {
    match spec_attr(m.1) {
        Result::Ok(uid_str) => match spec_parse_i16(uid_str) {
            Option::Some(uid) => match spec_attr(m.2) {
                Result::Ok(gh) => Option::Some((m.0, uid, gh)),
                Result::Err(_) => Option::None,
            },
            Option::None => Option::None,
        },
        Result::Err(_) => Option::None,
    }
}

/// The error detail a rejected member must carry; `uid` is judged first, its
/// parse next, `github_id` last.
pub open spec fn member_fault_matches(
    m: (Seq<char>, Option<Seq<Seq<char>>>, Option<Seq<Seq<char>>>),
    d: DataDetail,
) -> bool {
    match spec_attr(m.1) {
        Result::Err(f) => fault_detail_matches(f, d, "uid"@, m.0),
        Result::Ok(uid_str) => match spec_parse_i16(uid_str) {
            Option::None => d matches DataDetail::InvalidUid { value, username } && value@
                == uid_str && username@ == m.0,
            Option::Some(_) => match spec_attr(m.2) {
                Result::Err(f) => fault_detail_matches(f, d, "github_id"@, m.0),
                Result::Ok(_) => false,
            },
        },
    }
}

/// Validate one member: exactly one `uid` value that parses as a signed
/// 16-bit integer and exactly one `github_id` value; the first failure is
/// reported as a data error naming the username.
pub fn validate_member(m: &RawMember) -> (r: Result<User, KeycloakError>)
    ensures
        match spec_user(member_view(*m)) {
            Option::Some(u) => r matches Ok(ru) && user_view(ru) == u,
            Option::None => r matches Err(e) && (e matches KeycloakError::DataError(d)
                && member_fault_matches(member_view(*m), d)),
        },
{
    let uid_str = match get_attr(&m.uid, "uid", m.username.as_str()) {
        Ok(v) => v,
        Err(e) => {
            return Err(e);
        },
    };
    let uid = match parse_i16(uid_str.as_str()) {
        Some(u) => u,
        None => {
            return Err(
                KeycloakError::DataError(
                    DataDetail::InvalidUid { value: uid_str, username: m.username.clone() },
                ),
            );
        },
    };
    let gh = match get_attr(&m.github_id, "github_id", m.username.as_str()) {
        Ok(v) => v,
        Err(e) => {
            return Err(e);
        },
    };
    Ok(User { name: m.username.clone(), uid: uid, github_id: gh })
}

/// Every member before position `n` maps to a user.
pub open spec fn all_ok_upto(
    ms: Seq<(Seq<char>, Option<Seq<Seq<char>>>, Option<Seq<Seq<char>>>)>,
    n: int,
) -> bool {
    forall|j: int| 0 <= j < n ==> spec_user(#[trigger] ms[j]) is Some
}

/// Fail-fast conversion of a whole member listing: the result is the full
/// list of mapped users exactly when every member validates; otherwise the
/// first member that fails aborts the whole batch with that one member's
/// data error, and no partial list is returned.
pub fn users_from_members(members: &Vec<RawMember>) -> (r: Result<Vec<User>, KeycloakError>)
    ensures
        r is Ok <==> all_ok_upto(members_view(members@), members@.len() as int),
        r matches Ok(users) ==> users@.len() == members@.len() && forall|j: int|
            0 <= j < members@.len() ==> Option::Some(user_view(#[trigger] users@[j])) == spec_user(
                members_view(members@)[j],
            ),
        r matches Err(e) ==> exists|i: int|
            0 <= i < members@.len() && all_ok_upto(members_view(members@), i) && spec_user(
                #[trigger] members_view(members@)[i],
            ) is None && (e matches KeycloakError::DataError(d) && member_fault_matches(
                members_view(members@)[i],
                d,
            )),
{
    let mut users: Vec<User> = Vec::new();
    let mut i: usize = 0;
    while i < members.len()
        invariant
            0 <= i <= members@.len(),
            users@.len() == i,
            all_ok_upto(members_view(members@), i as int),
            forall|j: int|
                0 <= j < i ==> Option::Some(user_view(#[trigger] users@[j])) == spec_user(
                    members_view(members@)[j],
                ),
        decreases members@.len() - i,
    {
        proof {
            assert(members_view(members@)[i as int] == member_view(members@[i as int]));
        }
        let u = match validate_member(&members[i]) {
            Ok(u) => u,
            Err(e) => {
                return Err(e);
            },
        };
        users.push(u);
        i = i + 1;
    }
    Ok(users)
}

/// `{base_url}/admin/realms/{realm}/groups/{group_id}/members`.
pub fn members_url(base_url: &str, realm: &str, group_id: &str) -> (u: String)
    ensures
        u@ == base_url@ + "/admin/realms/"@ + realm@ + "/groups/"@ + group_id@ + "/members"@,
{
    let mut u = base_url.to_owned();
    u.append("/admin/realms/");
    u.append(realm);
    u.append("/groups/");
    u.append(group_id);
    u.append("/members");
    proof {
        assert(u@ =~= base_url@ + "/admin/realms/"@ + realm@ + "/groups/"@ + group_id@
            + "/members"@);
    }
    u
}

/// The member list a members-response body denotes — for each member its
/// username and the raw value lists of the two relevant attributes — or
/// `None` when the text is not a JSON array of well-shaped member objects. A
/// function of the text alone.
pub uninterp spec fn spec_raw_members(body: Seq<char>) -> Option<
    Seq<(Seq<char>, Option<Seq<Seq<char>>>, Option<Seq<Seq<char>>>)>,
>;

/// Relies on `serde_json::from_str::<Value>` and `Value::as_array`, walking
/// each element with the shape rules of `jsonval::member_of_value`: returns
/// exactly the member list the body denotes ([`spec_raw_members`]), or a
/// description of the first mismatch.
#[verifier::external_body]
fn extract_raw_members(body: &str) -> (r: Result<Vec<RawMember>, String>)
    ensures
        r is Ok <==> spec_raw_members(body@) is Some,
        r matches Ok(ms) ==> spec_raw_members(body@) == Some(members_view(ms@)),
{
    let v: serde_json::Value = serde_json::from_str(body).map_err(|e| e.to_string())?;
    let arr = v.as_array().ok_or("response is not a JSON array of members".to_owned())?;
    let mut ms = Vec::with_capacity(arr.len());
    for m in arr {
        ms.push(member_of_value(m).ok_or("a member entry has an unexpected shape".to_owned())?);
    }
    Ok(ms)
}

/// Check a members response body against the expected shape — a JSON array
/// of member objects — and map it through the strict validation. The result
/// is `Ok` exactly when the body denotes a member list whose every member
/// validates, and then carries exactly the mapped users; a body denoting no
/// member list is a parse error carrying the raw body, and a rejected member
/// aborts the listing with that member's data error.
pub fn parse_members_response(body: &str) -> (r: Result<Vec<User>, KeycloakError>)
    ensures
        r is Ok <==> (spec_raw_members(body@) matches Some(ms) && all_ok_upto(
            ms,
            ms.len() as int,
        )),
        r matches Ok(users) ==> (spec_raw_members(body@) matches Some(ms) && users@.len()
            == ms.len() && forall|j: int|
            0 <= j < ms.len() ==> Option::Some(user_view(#[trigger] users@[j])) == spec_user(
                ms[j],
            )),
        r matches Err(e) ==> match spec_raw_members(body@) {
            Option::None => e matches KeycloakError::JSONParseError(b, _) && b@ == body@,
            Option::Some(ms) => exists|i: int|
                0 <= i < ms.len() && all_ok_upto(ms, i) && spec_user(#[trigger] ms[i]) is None && (
                e matches KeycloakError::DataError(d) && member_fault_matches(ms[i], d)),
        },
{
    let raw = match extract_raw_members(body) {
        Ok(ms) => ms,
        Err(msg) => {
            return Err(KeycloakError::JSONParseError(body.to_owned(), msg));
        },
    };
    users_from_members(&raw)
}

} // verus!
