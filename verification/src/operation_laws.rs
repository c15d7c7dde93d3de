//! What the main operations do, stated over their inputs and results: where
//! a sign-in lands, which restaurant an action on the selection acts on,
//! what a fetched list becomes, what entry the menu inputs add, and which
//! menu calls follow a saved edit.

use vstd::prelude::*;
use crate::api::{ApiError, Restaurant, TokenResponse, UserRole};
use crate::app::{AfterFetch, ApiCall, AppView, Command, Focus, ListKind, Pending, Reply, Screen};
use crate::handlers::{KeyCode, KeyEvent, KeyModifiers, event_keys, on_menu_input};
use crate::replies::replied;
use crate::text::{is_white_space, trimmed};

verus! {

/// A plain key press (no modifier).
pub open spec fn plain(code: KeyCode) -> KeyEvent {
    KeyEvent { code, modifiers: KeyModifiers::NONE }
}

// ---- signing in ----

/// A sign-in that answers with a token stores the session and lands on the
/// role's screen: a customer on their own restaurants, which are fetched;
/// an admin or a consumer on the restaurant list, which is fetched.
pub proof fn law_sign_in_lands_by_role(v: AppView, t: TokenResponse)
    requires
        v.pending == Some(Pending::Login),
    ensures
        ({
            let (w, cmd) = replied(v, Ok(Reply::Token(t)));
            &&& w.api_client.token == Some(t.access_token)
            &&& w.api_client.username == Some(t.username)
            &&& w.api_client.role == Some(t.role)
            &&& w.api_client.base_url == v.api_client.base_url
            &&& t.role == UserRole::Customer ==> {
                &&& w.screen == Screen::MyRestaurants
                &&& w.focus == Focus::MyRestaurantsList
                &&& cmd == Command::Call(ApiCall::GetMyRestaurants)
            }
            &&& t.role == UserRole::Admin || t.role == UserRole::Consumer ==> {
                &&& w.screen == Screen::Dashboard
                &&& w.focus == Focus::RestaurantList
                &&& cmd == Command::Call(ApiCall::GetRestaurants)
            }
        }),
{
}

/// A refused sign-in keeps the screen and the session and shows
/// `Login failed: ` with the error.
pub proof fn law_sign_in_refused(v: AppView, e: ApiError)
    requires
        v.pending == Some(Pending::Login),
    ensures
        ({
            let (w, cmd) = replied(v, Err(e));
            &&& cmd == Command::Idle
            &&& w.screen == v.screen
            &&& w.api_client == v.api_client
            &&& w.status_message == Some("Login failed: "@ + e.text())
            &&& w.pending is None
        }),
{
}

// ---- actions on the selected entry ----

/// On the restaurant list, a consumer's `f` favorites the selected
/// restaurant, and an admin's `t`, `d`, `r` and `e` act on the selected
/// restaurant: its status flipped, its deletion, its approval flipped, the
/// form opened on it.
pub proof fn law_dashboard_acts_on_selection(v: AppView, i: usize)
    requires
        v.screen == Screen::Dashboard,
        v.focus != Focus::SearchInput,
        v.selected_restaurant_index == Some(i),
        i < v.restaurants.len(),
    ensures
        ({
            let r = v.restaurants[i as int];
            &&& v.api_client.role == Some(UserRole::Consumer) ==> {
                let (w, cmd) = event_keys(v, plain(KeyCode::Char('f')));
                &&& cmd == Command::Call(ApiCall::AddFavorite { restaurant_id: r.id })
                &&& w.pending == Some(Pending::AddFavorite)
            }
            &&& v.api_client.role == Some(UserRole::Admin) ==> {
                &&& event_keys(v, plain(KeyCode::Char('t'))).1 == Command::Call(
                    ApiCall::UpdateRestaurantStatus { id: r.id, open_status: !r.open_status },
                )
                &&& event_keys(v, plain(KeyCode::Char('d'))).1 == Command::Call(
                    ApiCall::DeleteRestaurant { id: r.id },
                )
                &&& event_keys(v, plain(KeyCode::Char('r'))).1 == Command::Call(
                    ApiCall::ApproveRestaurant { id: r.id, is_approved: !r.is_approved },
                )
                &&& event_keys(v, plain(KeyCode::Char('e'))).0.editing_restaurant_id == Some(r.id)
                &&& event_keys(v, plain(KeyCode::Char('e'))).0.form_name == r.name@
                &&& event_keys(v, plain(KeyCode::Char('e'))).0.screen == Screen::EditRestaurant
            }
        }),
{
}

/// On the customer's own list, `t`, `d` and `e` act on the selected entry.
pub proof fn law_my_restaurants_act_on_selection(v: AppView, i: usize)
    requires
        v.screen == Screen::MyRestaurants,
        v.selected_my_restaurant_index == Some(i),
        i < v.my_restaurants.len(),
    ensures
        ({
            let r = v.my_restaurants[i as int];
            &&& event_keys(v, plain(KeyCode::Char('t'))).1 == Command::Call(
                ApiCall::UpdateRestaurantStatus { id: r.id, open_status: !r.open_status },
            )
            &&& event_keys(v, plain(KeyCode::Char('d'))).1 == Command::Call(ApiCall::DeleteRestaurant { id: r.id })
            &&& event_keys(v, plain(KeyCode::Char('e'))).0.editing_restaurant_id == Some(r.id)
            &&& event_keys(v, plain(KeyCode::Char('e'))).0.form_name == r.name@
        }),
{
}

/// On the favorites screen, `d` removes the selected favorite.
pub proof fn law_favorites_remove_selection(v: AppView, i: usize)
    requires
        v.screen == Screen::FavoritesView,
        v.selected_favorite_index == Some(i),
        i < v.favorites.len(),
    ensures
        event_keys(v, plain(KeyCode::Char('d'))).1 == Command::Call(
            ApiCall::RemoveFavorite { favorite_id: v.favorites[i as int].id },
        ),
{
}

// ---- fetched lists ----

/// The selection after a fetch that answered with `len` entries: none for
/// an empty list, else the old selection moved inside the list (the first
/// entry when there was none).
pub open spec fn kept_inside(old_sel: Option<usize>, new_sel: Option<usize>, len: nat) -> bool {
    &&& len == 0 ==> new_sel is None
    &&& len > 0 ==> (new_sel matches Some(j) && j < len && match old_sel {
        None => j == 0,
        Some(k) => if k < len { j == k } else { j == len - 1 },
    })
}

/// A fetch of the restaurant list that answers with `l` shows exactly `l`,
/// empty or not, with the selection kept inside it; a failed fetch keeps
/// the list and shows `Fetch error: ` with the error.
pub proof fn law_restaurants_fetched(v: AppView, after: AfterFetch, l: Vec<Restaurant>, e: ApiError)
    requires
        v.pending == Some(Pending::Fetch { list: ListKind::Restaurants, after }),
    ensures
        ({
            let (w, cmd) = replied(v, Ok(Reply::Restaurants(l)));
            &&& cmd == Command::Idle
            &&& w.restaurants == l@
            &&& kept_inside(v.selected_restaurant_index, w.selected_restaurant_index, l@.len())
            &&& w.my_restaurants == v.my_restaurants
            &&& w.favorites == v.favorites
        }),
        ({
            let (w, cmd) = replied(v, Err(e));
            &&& cmd == Command::Idle
            &&& w.restaurants == v.restaurants
            &&& w.selected_restaurant_index == v.selected_restaurant_index
            &&& after == AfterFetch::Keep ==> w.status_message == Some("Fetch error: "@ + e.text())
        }),
{
}

/// A fetch of the customer's own list that answers with `l` shows exactly
/// `l`, with the selection kept inside it.
pub proof fn law_my_restaurants_fetched(v: AppView, after: AfterFetch, l: Vec<Restaurant>)
    requires
        v.pending == Some(Pending::Fetch { list: ListKind::MyRestaurants, after }),
    ensures
        ({
            let (w, cmd) = replied(v, Ok(Reply::Restaurants(l)));
            &&& cmd == Command::Idle
            &&& w.my_restaurants == l@
            &&& kept_inside(v.selected_my_restaurant_index, w.selected_my_restaurant_index, l@.len())
            &&& w.restaurants == v.restaurants
        }),
{
}

/// A fetch of the favorites that answers with `l` shows exactly `l`, with
/// the selection kept inside it.
pub proof fn law_favorites_fetched(v: AppView, after: AfterFetch, l: Vec<crate::api::FavoriteResponse>)
    requires
        v.pending == Some(Pending::Fetch { list: ListKind::Favorites, after }),
    ensures
        ({
            let (w, cmd) = replied(v, Ok(Reply::Favorites(l)));
            &&& cmd == Command::Idle
            &&& w.favorites == l@
            &&& kept_inside(v.selected_favorite_index, w.selected_favorite_index, l@.len())
            &&& w.restaurants == v.restaurants
        }),
{
}

// ---- the menu inputs ----

/// `t` is `s` without leading and trailing white space: a stretch of `s`
/// with only white space around it, which neither starts nor ends with
/// white space.
pub open spec fn is_trim_of(t: Seq<char>, s: Seq<char>) -> bool {
    exists|i: int, j: int|
        #![trigger s.subrange(i, j)]
        0 <= i <= j <= s.len() && t == s.subrange(i, j) && (forall|k: int| 0 <= k < i ==> is_white_space(s[k])) && (
        forall|k: int| j <= k < s.len() ==> is_white_space(s[k])) && (t.len() > 0 ==> !is_white_space(t[0])
            && !is_white_space(t.last()))
}

/// Trimming removes exactly the white space at both ends.
pub proof fn law_trimmed_is_trim(s: Seq<char>)
    ensures
        is_trim_of(trimmed(s), s),
{
    lemma_trim_start(s);
    let a = crate::text::trim_start(s);
    let i: int = s.len() - a.len();
    lemma_trim_end(a);
    let j: int = crate::text::trim_end(a).len() as int;
    assert(trimmed(s) == s.subrange(i, i + j)) by {
        assert(a.subrange(0, j) =~= s.subrange(i, i + j));
    }
    assert forall|k: int| i + j <= k < s.len() implies is_white_space(s[k]) by {
        assert(s[k] == a[k - i]);
    }
    if trimmed(s).len() > 0 {
        assert(trimmed(s)[0] == a[0]);
    }
}

proof fn lemma_trim_start(s: Seq<char>)
    ensures
        crate::text::trim_start(s).len() <= s.len(),
        crate::text::trim_start(s) == s.subrange(s.len() - crate::text::trim_start(s).len(), s.len() as int),
        forall|k: int| 0 <= k < s.len() - crate::text::trim_start(s).len() ==> is_white_space(s[k]),
        crate::text::trim_start(s).len() > 0 ==> !is_white_space(crate::text::trim_start(s)[0]),
    decreases s.len(),
{
    if s.len() > 0 && is_white_space(s[0]) {
        let rest = s.subrange(1, s.len() as int);
        lemma_trim_start(rest);
        let t = crate::text::trim_start(rest);
        assert(rest.subrange(rest.len() - t.len(), rest.len() as int) =~= s.subrange(
            s.len() - t.len(),
            s.len() as int,
        ));
        assert forall|k: int| 0 <= k < s.len() - t.len() implies is_white_space(s[k]) by {
            if k > 0 {
                assert(s[k] == rest[k - 1]);
            }
        }
    } else {
        assert(s.subrange(0, s.len() as int) =~= s);
    }
}

proof fn lemma_trim_end(s: Seq<char>)
    ensures
        crate::text::trim_end(s).len() <= s.len(),
        crate::text::trim_end(s) == s.subrange(0, crate::text::trim_end(s).len() as int),
        forall|k: int| crate::text::trim_end(s).len() <= k < s.len() ==> is_white_space(s[k]),
        crate::text::trim_end(s).len() > 0 ==> !is_white_space(crate::text::trim_end(s).last()),
        crate::text::trim_end(s).len() > 0 && s.len() > 0 ==> crate::text::trim_end(s)[0] == s[0],
    decreases s.len(),
{
    if s.len() > 0 && is_white_space(s.last()) {
        let rest = s.drop_last();
        lemma_trim_end(rest);
        let t = crate::text::trim_end(rest);
        assert(rest.subrange(0, t.len() as int) =~= s.subrange(0, t.len() as int));
        assert forall|k: int| t.len() <= k < s.len() implies is_white_space(s[k]) by {
            if k < s.len() - 1 {
                assert(s[k] == rest[k]);
            }
        }
    } else {
        assert(s.subrange(0, s.len() as int) =~= s);
    }
}

/// Enter on a menu input (or `a` on a menu input or the menu list) adds one
/// entry after the others, made from the inputs: the name trimmed, the
/// price and the description trimmed, or none when blank; not yet saved,
/// available, numbered after the others; the inputs are emptied. A blank
/// name adds nothing.
pub proof fn law_menu_entry_from_inputs(v: AppView, key: KeyEvent)
    requires
        v.screen == Screen::AddRestaurant || v.screen == Screen::EditRestaurant,
        (key == plain(KeyCode::Enter) && on_menu_input(v.focus)) || (key == plain(KeyCode::Char('a')) && (
        on_menu_input(v.focus) || v.focus == Focus::FormMenuList)),
        v.form_menu_items.len() < 0x7fff_ffff,
    ensures
        ({
            let (w, cmd) = event_keys(v, key);
            let n = v.form_menu_items.len();
            &&& cmd == Command::Idle
            &&& trimmed(v.form_menu_item_name).len() == 0 ==> w.form_menu_items == v.form_menu_items
                && w.status_message == Some("Menu item name cannot be empty"@)
            &&& trimmed(v.form_menu_item_name).len() > 0 ==> {
                let it = w.form_menu_items[n as int];
                &&& w.form_menu_items.len() == n + 1
                &&& w.form_menu_items.subrange(0, n as int) == v.form_menu_items
                &&& it.name == trimmed(v.form_menu_item_name)
                &&& (it.description is Some <==> trimmed(v.form_menu_item_description).len() > 0)
                &&& (it.description matches Some(d) ==> d == trimmed(v.form_menu_item_description))
                &&& (it.price is Some <==> trimmed(v.form_menu_item_price).len() > 0)
                &&& (it.price matches Some(p) ==> p == trimmed(v.form_menu_item_price))
                &&& it.id == 0
                &&& !it.is_sold_out
                &&& it.sort_order == n + 1
                &&& w.form_menu_item_name.len() == 0
                &&& w.form_menu_item_price.len() == 0
                &&& w.form_menu_item_description.len() == 0
                &&& w.status_message == Some("Menu item added"@)
            }
        }),
{
    let n = v.form_menu_items.len();
    assert(v.form_menu_items.push(v.new_menu_entry()).subrange(0, n as int) =~= v.form_menu_items);
}

// ---- the menu calls of a saved edit ----

/// The state and the last command after the replies `outs`, in order, to
/// the calls the state asks for.
pub open spec fn after_replies(v: AppView, outs: Seq<Result<Reply, ApiError>>) -> (AppView, Command)
    decreases outs.len(),
{
    if outs.len() == 0 {
        (v, Command::Idle)
    } else {
        replied(after_replies(v, outs.drop_last()).0, outs.last())
    }
}

/// Once the update of an edited entry has succeeded, the menu entries
/// removed in the form are deleted one after the other, each once and in
/// the order they were removed, whatever the deletions answer: after the
/// update's reply and `k` more replies, the call asked for is the deletion
/// of removed entry `k`. After them come the writes of the form's entries,
/// starting with its first one.
pub proof fn law_edit_deletes_removed_entries(v: AppView, restaurant_id: i32, outs: Seq<Result<Reply, ApiError>>)
    requires
        v.pending == Some(Pending::SaveEdit { restaurant_id }),
        outs.len() > 0,
        outs[0] is Ok,
        v.form_menu_items_removed.len() <= usize::MAX,
    ensures
        outs.len() <= v.form_menu_items_removed.len() ==> after_replies(v, outs).1 == Command::Call(
            ApiCall::DeleteMenuItem {
                restaurant_id,
                item_id: v.form_menu_items_removed[outs.len() - 1],
            },
        ),
        outs.len() == v.form_menu_items_removed.len() + 1 && v.form_menu_items.len() > 0 ==> after_replies(
            v,
            outs,
        ).1 == Command::Call(
            if v.form_menu_items[0].id == 0 {
                ApiCall::CreateMenuItem { restaurant_id, index: 0 }
            } else {
                ApiCall::UpdateMenuItem { restaurant_id, index: 0 }
            },
        ),
{
    let removed = v.form_menu_items_removed;
    if outs.len() <= removed.len() {
        lemma_delete_phase(v, restaurant_id, outs);
    } else if outs.len() == removed.len() + 1 {
        let prev = outs.drop_last();
        if prev.len() > 0 {
            assert(prev[0] == outs[0]);
            lemma_delete_phase(v, restaurant_id, prev);
        }
    }
}

proof fn lemma_delete_phase(v: AppView, restaurant_id: i32, outs: Seq<Result<Reply, ApiError>>)
    requires
        v.pending == Some(Pending::SaveEdit { restaurant_id }),
        0 < outs.len() <= v.form_menu_items_removed.len(),
        outs[0] is Ok,
        v.form_menu_items_removed.len() <= usize::MAX,
    ensures
        ({
            let (w, cmd) = after_replies(v, outs);
            &&& w.pending == Some(Pending::MenuDeletes { restaurant_id, next: outs.len() as usize })
            &&& w.form_menu_items_removed == v.form_menu_items_removed
            &&& w.form_menu_items == v.form_menu_items
            &&& w.api_client == v.api_client
            &&& cmd == Command::Call(
                ApiCall::DeleteMenuItem { restaurant_id, item_id: v.form_menu_items_removed[outs.len() - 1] },
            )
        }),
    decreases outs.len(),
{
    let prev = outs.drop_last();
    if prev.len() > 0 {
        assert(prev[0] == outs[0]);
        lemma_delete_phase(v, restaurant_id, prev);
    } else {
        assert(after_replies(v, prev).0 == v);
    }
}

/// One step of the deletions: when the deletions have reached removed
/// entry `next`, the reply to the call before, whatever it says, asks for
/// the deletion of entry `next` and moves on to `next + 1`.
pub proof fn law_menu_delete_step(v: AppView, restaurant_id: i32, next: usize, outcome: Result<Reply, ApiError>)
    requires
        v.pending == Some(Pending::MenuDeletes { restaurant_id, next }),
        next < v.form_menu_items_removed.len(),
    ensures
        ({
            let (w, cmd) = replied(v, outcome);
            &&& cmd == Command::Call(
                ApiCall::DeleteMenuItem { restaurant_id, item_id: v.form_menu_items_removed[next as int] },
            )
            &&& w.pending == Some(Pending::MenuDeletes { restaurant_id, next: (next + 1) as usize })
            &&& w.form_menu_items_removed == v.form_menu_items_removed
        }),
{
}

// ---- the menu writes after a save ----

/// Entry `k` of `items` is to be written: an unsaved one always, a saved
/// one only when saved entries are updated too.
pub open spec fn item_writable(items: Seq<crate::api::MenuItemView>, k: int, update_existing: bool) -> bool {
    items[k].id == 0 || update_existing
}

proof fn lemma_next_write(items: Seq<crate::api::MenuItemView>, next: nat, upd: bool, k: int)
    requires
        next <= k < items.len(),
        items[k].id == 0 || upd,
        forall|m: int| next <= m < k ==> !#[trigger] item_writable(items, m, upd),
    ensures
        crate::replies::next_menu_write(items, next, upd) == Some(k as nat),
    decreases k - next,
{
    if next < k {
        assert(!item_writable(items, next as int, upd));
        lemma_next_write(items, next + 1, upd, k);
    }
}

proof fn lemma_no_write(items: Seq<crate::api::MenuItemView>, next: nat, upd: bool)
    requires
        forall|m: int| next <= m < items.len() ==> !#[trigger] item_writable(items, m, upd),
    ensures
        crate::replies::next_menu_write(items, next, upd) is None,
    decreases items.len() - next,
{
    if next < items.len() {
        assert(!item_writable(items, next as int, upd));
        lemma_no_write(items, next + 1, upd);
    }
}

/// While the menu of a saved entry is written from position `next`, a
/// reply, whatever it says, asks for the first entry from `next` on that is
/// to be written (created when unsaved, updated when saved), on the same
/// restaurant; when none is left, the save ends on the customer's own list
/// or the restaurant list, fetched, with no entry being edited.
pub proof fn law_menu_writes_in_order(
    v: AppView,
    restaurant_id: i32,
    next: usize,
    update_existing: bool,
    to_my: bool,
    note: crate::app::StatusNote,
    outcome: Result<Reply, ApiError>,
    k: int,
)
    requires
        v.pending == Some(Pending::MenuWrites { restaurant_id, next, update_existing, to_my, note }),
        v.form_menu_items.len() <= usize::MAX,
    ensures
        ({
            let (w, cmd) = replied(v, outcome);
            &&& (next <= k < v.form_menu_items.len() && item_writable(v.form_menu_items, k, update_existing) && (forall|m: int|
                next <= m < k ==> !#[trigger] item_writable(v.form_menu_items, m, update_existing))) ==> {
                &&& cmd == Command::Call(
                    if v.form_menu_items[k].id == 0 {
                        ApiCall::CreateMenuItem { restaurant_id, index: k as usize }
                    } else {
                        ApiCall::UpdateMenuItem { restaurant_id, index: k as usize }
                    },
                )
                &&& w.pending == Some(
                    Pending::MenuWrites { restaurant_id, next: (k + 1) as usize, update_existing, to_my, note },
                )
            }
            &&& (forall|m: int| next <= m < v.form_menu_items.len() ==> !#[trigger] item_writable(v.form_menu_items, m, update_existing))
                ==> {
                &&& w.editing_restaurant_id is None
                &&& to_my ==> w.screen == Screen::MyRestaurants && cmd == Command::Call(ApiCall::GetMyRestaurants)
                &&& !to_my ==> w.screen == Screen::Dashboard && cmd == Command::Call(ApiCall::GetRestaurants)
            }
        }),
{
    let items = v.form_menu_items;
    if next <= k < items.len() && item_writable(v.form_menu_items, k, update_existing) && (forall|m: int|
        next <= m < k ==> !#[trigger] item_writable(v.form_menu_items, m, update_existing)) {
        lemma_next_write(items, next as nat, update_existing, k);
    }
    if forall|m: int| next <= m < items.len() ==> !#[trigger] item_writable(v.form_menu_items, m, update_existing) {
        lemma_no_write(items, next as nat, update_existing);
    }
}

/// A new entry's creation that answers with the entry `r` goes on exactly
/// as the writes of the form's unsaved menu entries to `r`'s id, from the
/// first one, ending on the creator's list with the note for a submission
/// (customer) or an addition.
pub proof fn law_created_entry_gets_menu(v: AppView, customer: bool, r: Restaurant, other: Result<Reply, ApiError>)
    requires
        v.pending == Some(Pending::SaveNew { customer }),
    ensures
        replied(v, Ok(Reply::Created(r))) == replied(
            AppView {
                pending: Some(
                    Pending::MenuWrites {
                        restaurant_id: r.id,
                        next: 0,
                        update_existing: false,
                        to_my: customer,
                        note: if customer {
                            crate::app::StatusNote::RestaurantSubmitted
                        } else {
                            crate::app::StatusNote::RestaurantAdded
                        },
                    },
                ),
                ..v
            },
            other,
        ),
{
}

/// Once the last removed entry of an edit has been deleted, the reply goes
/// on exactly as the writes of every menu entry of the form (new ones
/// created, saved ones updated) from the first one, ending on the editor's
/// list with the update note.
pub proof fn law_deletes_then_writes(v: AppView, restaurant_id: i32, outcome: Result<Reply, ApiError>, other: Result<Reply, ApiError>)
    requires
        v.pending == Some(Pending::MenuDeletes { restaurant_id, next: v.form_menu_items_removed.len() as usize }),
        v.form_menu_items_removed.len() <= usize::MAX,
    ensures
        replied(v, outcome) == replied(
            AppView {
                pending: Some(
                    Pending::MenuWrites {
                        restaurant_id,
                        next: 0,
                        update_existing: true,
                        to_my: v.api_client.role == Some(UserRole::Customer),
                        note: crate::app::StatusNote::RestaurantUpdated,
                    },
                ),
                ..v
            },
            other,
        ),
{
}

// ---- saving the form ----

/// Enter on the form outside the menu inputs, with both times eight bytes
/// long, saves it: a new entry is submitted by a customer and created by
/// anyone else; an edited entry is updated under the id being edited.
pub proof fn law_form_save_call(v: AppView)
    requires
        v.screen == Screen::AddRestaurant || v.screen == Screen::EditRestaurant,
        !on_menu_input(v.focus),
        crate::handlers::byte_len(v.form_open_time) == 8,
        crate::handlers::byte_len(v.form_close_time) == 8,
    ensures
        ({
            let (w, cmd) = event_keys(v, plain(KeyCode::Enter));
            &&& w.status_message == Some("Saving restaurant entry..."@)
            &&& w.screen == v.screen
            &&& v.screen == Screen::AddRestaurant && v.api_client.role == Some(UserRole::Customer) ==> cmd
                == Command::Call(ApiCall::SubmitRestaurant) && w.pending == Some(Pending::SaveNew { customer: true })
            &&& v.screen == Screen::AddRestaurant && v.api_client.role != Some(UserRole::Customer) ==> cmd
                == Command::Call(ApiCall::CreateRestaurant) && w.pending == Some(Pending::SaveNew { customer: false })
            &&& v.screen == Screen::EditRestaurant && v.editing_restaurant_id is Some ==> cmd == Command::Call(
                ApiCall::UpdateRestaurant { id: v.editing_restaurant_id->0 },
            ) && w.pending == Some(Pending::SaveEdit { restaurant_id: v.editing_restaurant_id->0 })
        }),
{
}

// ---- searching ----

/// A character typed into the search field extends the query by it and
/// fetches the restaurant list filtered by the whole query; Backspace
/// drops the last character and fetches again.
pub proof fn law_search_fetches(v: AppView, c: char)
    requires
        v.screen == Screen::Dashboard,
        v.focus == Focus::SearchInput,
        c != 'l',
    ensures
        ({
            let (w, cmd) = event_keys(v, plain(KeyCode::Char(c)));
            &&& w.search_query == v.search_query.push(c)
            &&& cmd == Command::Call(ApiCall::GetRestaurants)
            &&& w.pending == Some(Pending::Fetch { list: ListKind::Restaurants, after: AfterFetch::Keep })
            &&& w.api_client.restaurants_url(Some(w.search_query)) == v.api_client.base_url@ + "/restaurants"@
                + "?name="@ + v.search_query.push(c)
        }),
        ({
            let (w, cmd) = event_keys(v, plain(KeyCode::Backspace));
            &&& w.search_query == (if v.search_query.len() > 0 {
                v.search_query.drop_last()
            } else {
                v.search_query
            })
            &&& cmd == Command::Call(ApiCall::GetRestaurants)
        }),
{
    assert(v.search_query.push(c).len() > 0);
}

// ---- replies to the list operations ----

/// A successful status toggle or deletion fetches the list it was made on
/// again (a deletion first drops that list's selection); an approval
/// fetches the restaurant list; a removed favorite drops the favorite
/// selection and fetches the favorites. A failure asks for nothing.
pub proof fn law_list_operation_replies(v: AppView, list: ListKind, e: ApiError)
    ensures
        v.pending == Some(Pending::ToggleStatus { list }) ==> replied(v, Ok(Reply::Ack)).1 == Command::Call(
            crate::app::list_call(list),
        ) && replied(v, Err(e)).1 == Command::Idle,
        v.pending == Some(Pending::DeleteRestaurant { list }) ==> {
            let w = replied(v, Ok(Reply::Ack)).0;
            &&& replied(v, Ok(Reply::Ack)).1 == Command::Call(crate::app::list_call(list))
            &&& list == ListKind::Restaurants ==> w.selected_restaurant_index is None
            &&& list == ListKind::MyRestaurants ==> w.selected_my_restaurant_index is None
            &&& replied(v, Err(e)).1 == Command::Idle
            &&& replied(v, Err(e)).0.restaurants == v.restaurants
        },
        v.pending == Some(Pending::Approve) ==> replied(v, Ok(Reply::Ack)).1 == Command::Call(
            ApiCall::GetRestaurants,
        ),
        v.pending == Some(Pending::RemoveFavorite) ==> replied(v, Ok(Reply::Ack)).1 == Command::Call(
            ApiCall::GetFavorites,
        ) && replied(v, Ok(Reply::Ack)).0.selected_favorite_index is None,
        crate::app::list_call(ListKind::Restaurants) == ApiCall::GetRestaurants,
        crate::app::list_call(ListKind::MyRestaurants) == ApiCall::GetMyRestaurants,
        crate::app::list_call(ListKind::Favorites) == ApiCall::GetFavorites,
{
}

// ---- the requests of the menu and favorite calls ----

/// The menu calls go to the restaurant's menu: a new entry is posted with
/// the form entry's name, description, price and number; a saved one is
/// put under its own id with those and its sold-out mark; a deletion
/// removes the named id. A favorite is posted with the restaurant's id.
pub proof fn law_menu_and_favorite_requests(req: crate::api::HttpRequest, v: AppView, restaurant_id: i32, index: usize, item_id: i64)
    requires
        index < v.form_menu_items.len(),
    ensures
        crate::requests::request_matches(req, v, ApiCall::CreateMenuItem { restaurant_id, index }) ==> {
            let m = v.form_menu_items[index as int];
            &&& req.method == crate::api::HttpMethod::Post
            &&& req.url@ == v.api_client.base_url@ + "/restaurants/"@ + crate::text::int_text(restaurant_id as int)
                + "/menu-items"@
            &&& req.body matches crate::api::RequestBody::NewMenuItem(p) && p.name@ == m.name
                && crate::text::opt_view(p.description) == m.description && crate::text::opt_view(p.price) == m.price
                && p.sort_order == Some(m.sort_order)
        },
        crate::requests::request_matches(req, v, ApiCall::UpdateMenuItem { restaurant_id, index }) ==> {
            let m = v.form_menu_items[index as int];
            &&& req.method == crate::api::HttpMethod::Put
            &&& req.url@ == v.api_client.base_url@ + "/restaurants/"@ + crate::text::int_text(restaurant_id as int)
                + "/menu-items/"@ + crate::text::int_text(m.id as int)
            &&& req.body matches crate::api::RequestBody::MenuItemChanges(p) && crate::text::opt_view(p.name) == Some(m.name)
                && crate::text::opt_view(p.description) == m.description && p.is_sold_out == Some(m.is_sold_out)
        },
        crate::requests::request_matches(req, v, ApiCall::DeleteMenuItem { restaurant_id, item_id }) ==> {
            &&& req.method == crate::api::HttpMethod::Delete
            &&& req.url@ == v.api_client.base_url@ + "/restaurants/"@ + crate::text::int_text(restaurant_id as int)
                + "/menu-items/"@ + crate::text::int_text(item_id as int)
        },
        crate::requests::request_matches(req, v, ApiCall::AddFavorite { restaurant_id }) ==> {
            &&& req.method == crate::api::HttpMethod::Post
            &&& req.url@ == v.api_client.base_url@ + "/favorites"@
            &&& req.body == crate::api::RequestBody::Favorite(crate::api::FavoriteCreate { restaurant_id })
        },
{
    reveal_strlit("");
    let b = v.api_client.base_url@;
    let r = crate::text::int_text(restaurant_id as int);
    assert(b + ("/restaurants/"@ + r + "/menu-items"@) =~= b + "/restaurants/"@ + r + "/menu-items"@);
    let m = v.form_menu_items[index as int];
    assert(b + ("/restaurants/"@ + r + "/menu-items/"@ + crate::text::int_text(m.id as int) + ""@) =~= b
        + "/restaurants/"@ + r + "/menu-items/"@ + crate::text::int_text(m.id as int));
    assert(b + ("/restaurants/"@ + r + "/menu-items/"@ + crate::text::int_text(item_id as int) + ""@) =~= b
        + "/restaurants/"@ + r + "/menu-items/"@ + crate::text::int_text(item_id as int));
}

} // verus!
