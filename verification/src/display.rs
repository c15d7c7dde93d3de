//! The texts the screens show that follow rules of the application: the
//! hotkey line of each screen and role, the signed-in user, whether a status
//! message is an alert, and how parts of a location are put together.

use vstd::prelude::*;
use vstd::string::*;
use crate::api::{ApiClient, FavoriteResponse, Location, UserRole};
use crate::app::{Focus, Screen};
use crate::api::Restaurant;
use crate::form::text_or_empty;
use crate::text::{int_text, append_int};

verus! {

/// The hotkey line shown on `screen` to a user with `role`.
pub open spec fn footer_hint_text(screen: Screen, role: Option<UserRole>) -> Seq<char> {
    match screen {
        Screen::Login => "[Tab] Switch Field  [Enter] Login  [Ctrl+S] Signup  [Ctrl+R] Reset Password  [Esc] Exit"@,
        Screen::Signup => "[Tab] Switch Field  [Space] Cycle Role  [Enter] Register  [Esc] Back to Login"@,
        Screen::ResetPassword => "[Tab] Switch Field  [Enter] Reset Password  [Esc] Back to Login"@,
        Screen::Dashboard => if role == Some(UserRole::Admin) {
            "[Tab] Switch Focus  [Up/Down] Navigate  [S] Search  [A] Add  [E] Edit  [T] Toggle  [D] Delete  [R] Approve  [Ctrl+L] Logout"@
        } else if role == Some(UserRole::Customer) {
            "[Tab] Switch Focus  [Up/Down] Navigate  [S] Search  [M] My Restaurants  [Ctrl+L] Logout"@
        } else {
            "[Tab] Switch Focus  [Up/Down] Navigate  [S] Search  [F] Add Favorite  [V] View Favorites  [Ctrl+L] Logout"@
        },
        Screen::MyRestaurants => "[Tab] Switch Focus  [Up/Down] Navigate  [A] Submit New  [E] Edit  [T] Toggle Status  [D] Delete  [Ctrl+L] Logout  [Esc] Back"@,
        Screen::FavoritesView => "[Tab] Switch Focus  [Up/Down] Navigate  [D] Remove Favorite  [Ctrl+L] Logout  [Esc] Back"@,
        Screen::AddRestaurant => "[Tab] Switch Field  [Space] Cycle  [Enter] Save/Add Item  [A] Add Item  [T] Toggle Sold-out  [D] Delete Item  [Esc] Cancel"@,
        Screen::EditRestaurant => "[Tab] Switch Field  [Space] Cycle  [Enter] Save/Add Item  [A] Add Item  [T] Toggle Sold-out  [D] Delete Item  [Esc] Cancel"@,
    }
}

pub fn footer_hint(screen: Screen, role: Option<UserRole>) -> (r: &'static str)
    ensures
        r@ == footer_hint_text(screen, role),
{
    match screen {
        Screen::Login => "[Tab] Switch Field  [Enter] Login  [Ctrl+S] Signup  [Ctrl+R] Reset Password  [Esc] Exit",
        Screen::Signup => "[Tab] Switch Field  [Space] Cycle Role  [Enter] Register  [Esc] Back to Login",
        Screen::ResetPassword => "[Tab] Switch Field  [Enter] Reset Password  [Esc] Back to Login",
        Screen::Dashboard => if role == Some(UserRole::Admin) {
            "[Tab] Switch Focus  [Up/Down] Navigate  [S] Search  [A] Add  [E] Edit  [T] Toggle  [D] Delete  [R] Approve  [Ctrl+L] Logout"
        } else if role == Some(UserRole::Customer) {
            "[Tab] Switch Focus  [Up/Down] Navigate  [S] Search  [M] My Restaurants  [Ctrl+L] Logout"
        } else {
            "[Tab] Switch Focus  [Up/Down] Navigate  [S] Search  [F] Add Favorite  [V] View Favorites  [Ctrl+L] Logout"
        },
        Screen::MyRestaurants => "[Tab] Switch Focus  [Up/Down] Navigate  [A] Submit New  [E] Edit  [T] Toggle Status  [D] Delete  [Ctrl+L] Logout  [Esc] Back",
        Screen::FavoritesView => "[Tab] Switch Focus  [Up/Down] Navigate  [D] Remove Favorite  [Ctrl+L] Logout  [Esc] Back",
        Screen::AddRestaurant => "[Tab] Switch Field  [Space] Cycle  [Enter] Save/Add Item  [A] Add Item  [T] Toggle Sold-out  [D] Delete Item  [Esc] Cancel",
        Screen::EditRestaurant => "[Tab] Switch Field  [Space] Cycle  [Enter] Save/Add Item  [A] Add Item  [T] Toggle Sold-out  [D] Delete Item  [Esc] Cancel",
    }
}

/// Who is signed in, as the header shows it.
pub open spec fn user_info_text(api: ApiClient) -> Seq<char> {
    match (api.username, api.role) {
        (Some(u), Some(r)) => "Logged in as: "@ + u@ + " ("@ + r.name() + ")"@,
        _ => "Not logged in"@,
    }
}

pub fn header_user_info(api: &ApiClient) -> (r: String)
    ensures
        r@ == user_info_text(*api),
{
    match (&api.username, &api.role) {
        (Some(u), Some(r)) => {
            let mut s = "Logged in as: ".to_string();
            s.append(u.as_str());
            s.append(" (");
            s.append(r.name_str());
            s.append(")");
            s
        },
        _ => "Not logged in".to_string(),
    }
}

/// The lower-case form of a text, as `str::to_lowercase` gives it.
pub uninterp spec fn lowercase(s: Seq<char>) -> Seq<char>;

/// `str::to_lowercase`: the text with every character replaced by its
/// Unicode lower-case mapping. The mapping is named, not written out.
#[verifier::external_body]
fn to_lowercase(s: &str) -> (r: String)
    ensures
        r@ == lowercase(s@),
{
    s.to_lowercase()
}

/// `pat` occurs in `s` at position `i`.
pub open spec fn occurs_at(s: Seq<char>, pat: Seq<char>, i: int) -> bool {
    0 <= i && i + pat.len() <= s.len() && s.subrange(i, i + pat.len()) == pat
}

/// `pat` occurs somewhere in `s`.
pub open spec fn contains_text(s: Seq<char>, pat: Seq<char>) -> bool {
    exists|i: int| #[trigger] occurs_at(s, pat, i)
}

fn chars_of(s: &str) -> (r: Vec<char>)
    ensures
        r@ == s@,
{
    let n = s.unicode_len();
    let mut out: Vec<char> = Vec::new();
    let mut i: usize = 0;
    while i < n
        invariant
            n == s@.len(),
            i <= n,
            out@ == s@.subrange(0, i as int),
        decreases n - i,
    {
        out.push(s.get_char(i));
        i = i + 1;
        assert(out@ =~= s@.subrange(0, i as int));
    }
    assert(s@.subrange(0, n as int) =~= s@);
    out
}

fn matches_at(s: &Vec<char>, pat: &Vec<char>, i: usize) -> (r: bool)
    requires
        i + pat@.len() <= s@.len(),
    ensures
        r == occurs_at(s@, pat@, i as int),
{
    let slen = s.len();
    let mut k: usize = 0;
    while k < pat.len()
        invariant
            slen == s@.len(),
            i + pat@.len() <= s@.len(),
            k <= pat@.len(),
            forall|m: int| 0 <= m < k ==> s@[i + m] == pat@[m],
        decreases pat.len() - k,
    {
        if s[i + k] != pat[k] {
            assert(s@.subrange(i as int, i + pat@.len())[k as int] != pat@[k as int]);
            return false;
        }
        k = k + 1;
    }
    assert(s@.subrange(i as int, i + pat@.len()) =~= pat@);
    true
}

/// Whether `pat` occurs in `s`.
pub fn contains(s: &str, pat: &str) -> (r: bool)
    ensures
        r == contains_text(s@, pat@),
{
    let sv = chars_of(s);
    let pv = chars_of(pat);
    if pv.len() > sv.len() {
        return false;
    }
    let last = sv.len() - pv.len();
    let mut i: usize = 0;
    loop
        invariant
            sv@ == s@,
            pv@ == pat@,
            last == sv@.len() - pv@.len(),
            pv@.len() <= sv@.len(),
            i <= last,
            forall|j: int| 0 <= j < i ==> !occurs_at(sv@, pv@, j),
        decreases last - i,
    {
        if matches_at(&sv, &pv, i) {
            assert(occurs_at(sv@, pv@, i as int));
            assert(contains_text(sv@, pv@));
            return true;
        }
        if i == last {
            assert forall|j: int| !occurs_at(sv@, pv@, j) by {
                if 0 <= j <= last && j != i {
                    assert(j < i);
                }
            }
            assert(!contains_text(sv@, pv@));
            return false;
        }
        i = i + 1;
    }
}

/// A status message is shown as an alert when, in lower case, it mentions
/// a failure, an error or a denial.
pub open spec fn is_alert_text(msg: Seq<char>) -> bool {
    let l = lowercase(msg);
    contains_text(l, "fail"@) || contains_text(l, "error"@) || contains_text(l, "denied"@)
}

pub fn is_alert(msg: &str) -> (r: bool)
    ensures
        r == is_alert_text(msg@),
{
    let l = to_lowercase(msg);
    contains(l.as_str(), "fail") || contains(l.as_str(), "error") || contains(l.as_str(), "denied")
}


/// The street address of a location: the address, then the city and the
/// state after commas and the ZIP code after a space, each when present.
pub open spec fn address_line(l: Location) -> Option<Seq<char>> {
    match l.address {
        Some(a) => {
            let with_city = match l.city {
                Some(c) => a@ + ", "@ + c@,
                None => a@,
            };
            let with_state = match l.state {
                Some(st) => with_city + ", "@ + st@,
                None => with_city,
            };
            Some(
                match l.zip_code {
                    Some(z) => with_state + " "@ + z@,
                    None => with_state,
                },
            )
        },
        None => None,
    }
}

pub fn address_text(l: &Location) -> (r: Option<String>)
    ensures
        match r {
            Some(s) => address_line(*l) == Some(s@),
            None => address_line(*l) is None,
        },
{
    match &l.address {
        Some(a) => {
            let mut s = a.clone();
            match &l.city {
                Some(c) => {
                    s.append(", ");
                    s.append(c.as_str());
                },
                None => {},
            }
            match &l.state {
                Some(st) => {
                    s.append(", ");
                    s.append(st.as_str());
                },
                None => {},
            }
            match &l.zip_code {
                Some(z) => {
                    s.append(" ");
                    s.append(z.as_str());
                },
                None => {},
            }
            Some(s)
        },
        None => None,
    }
}

/// The crossing of a location: ` <road 1> & <road 2>`, the second road
/// empty when absent; none without a first road.
pub open spec fn intersection_line(l: Location) -> Option<Seq<char>> {
    match l.road_1 {
        Some(r1) => Some(" "@ + r1@ + " & "@ + text_or_empty(l.road_2)),
        None => None,
    }
}

pub fn intersection_text(l: &Location) -> (r: Option<String>)
    ensures
        match r {
            Some(s) => intersection_line(*l) == Some(s@),
            None => intersection_line(*l) is None,
        },
{
    match &l.road_1 {
        Some(r1) => {
            let mut s = " ".to_string();
            s.append(r1.as_str());
            s.append(" & ");
            match &l.road_2 {
                Some(r2) => s.append(r2.as_str()),
                None => {},
            }
            assert(s@ =~= " "@ + r1@ + " & "@ + text_or_empty(l.road_2));
            Some(s)
        },
        None => None,
    }
}

/// The venue of a location, with `, Stall <n>` when a stall is given.
pub open spec fn venue_line(l: Location) -> Option<Seq<char>> {
    match l.venue_name {
        Some(v) => Some(
            match l.stall_number {
                Some(st) => v@ + ", Stall "@ + st@,
                None => v@,
            },
        ),
        None => None,
    }
}

pub fn venue_text(l: &Location) -> (r: Option<String>)
    ensures
        match r {
            Some(s) => venue_line(*l) == Some(s@),
            None => venue_line(*l) is None,
        },
{
    match &l.venue_name {
        Some(v) => {
            let mut s = v.clone();
            match &l.stall_number {
                Some(st) => {
                    s.append(", Stall ");
                    s.append(st.as_str());
                },
                None => {},
            }
            Some(s)
        },
        None => None,
    }
}

/// The name a favorite is listed under: its restaurant's name, or
/// `Restaurant #<id>` when the restaurant was not included.
pub open spec fn favorite_label_text(f: FavoriteResponse) -> Seq<char> {
    match f.restaurant {
        Some(r) => r.name@,
        None => "Restaurant #"@ + int_text(f.restaurant_id as int),
    }
}

pub fn favorite_label(f: &FavoriteResponse) -> (r: String)
    ensures
        r@ == favorite_label_text(*f),
{
    match &f.restaurant {
        Some(r) => r.name.clone(),
        None => {
            let mut s = "Restaurant #".to_string();
            append_int(&mut s, f.restaurant_id as i64);
            s
        },
    }
}

/// The opening hours of an entry: `<open> - <close>`.
pub open spec fn hours_line(r: Restaurant) -> Seq<char> {
    r.open_time@ + " - "@ + r.close_time@
}

pub fn hours_text(r: &Restaurant) -> (s: String)
    ensures
        s@ == hours_line(*r),
{
    let mut s = r.open_time.clone();
    s.append(" - ");
    s.append(r.close_time.as_str());
    s
}

/// The description of an entry, or a note that there is none.
pub open spec fn description_line(r: Restaurant) -> Seq<char> {
    match r.description {
        Some(d) => d@,
        None => "No description provided."@,
    }
}

pub fn description_text(r: &Restaurant) -> (s: String)
    ensures
        s@ == description_line(*r),
{
    match &r.description {
        Some(d) => d.clone(),
        None => "No description provided.".to_string(),
    }
}

/// What the search box shows: a hint while it is empty and not focused,
/// otherwise the query.
pub open spec fn search_box_line(query: Seq<char>, focus: Focus) -> Seq<char> {
    if query.len() == 0 && focus != Focus::SearchInput {
        "Type matching name..."@
    } else {
        query
    }
}

pub fn search_box_text(query: &String, focus: Focus) -> (s: String)
    ensures
        s@ == search_box_line(query@, focus),
{
    if query.as_str().is_empty() && focus != Focus::SearchInput {
        "Type matching name...".to_string()
    } else {
        query.clone()
    }
}

} // verus!
