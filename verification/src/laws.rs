//! Properties of the library as a whole: what the key handlers and the reply
//! handling keep, what one step undoes, and the cycles the form and sign-up
//! fields go through.

use vstd::prelude::*;
use crate::api::{ApiError, MenuItemView, RestaurantType, UserRole};
use crate::app::{AppView, Command, Focus, Reply, Screen};
use crate::form::{menu_select_up, select_down, select_up};
use crate::handlers::{
    KeyCode, KeyEvent, KeyModifiers, dashboard_keys, event_keys, favorites_keys, form_keys, login_keys,
    my_restaurants_keys, reset_keys, signup_keys,
};
use crate::replies::replied;

verus! {

/// A selection that is absent or points into a list of `len` entries.
pub open spec fn in_bounds(sel: Option<usize>, len: nat) -> bool {
    sel matches Some(i) ==> i < len
}

/// Every selection points into its list.
pub open spec fn selections_ok(v: AppView) -> bool {
    &&& in_bounds(v.selected_restaurant_index, v.restaurants.len())
    &&& in_bounds(v.selected_my_restaurant_index, v.my_restaurants.len())
    &&& in_bounds(v.selected_favorite_index, v.favorites.len())
    &&& in_bounds(v.form_menu_item_selected, v.form_menu_items.len())
}

/// Moving a selection up or down keeps it inside its list.
pub proof fn law_moves_stay_in_list(sel: Option<usize>, len: nat)
    requires
        in_bounds(sel, len),
    ensures
        in_bounds(select_up(sel, len), len),
        in_bounds(select_down(sel, len), len),
        in_bounds(menu_select_up(sel, len), len),
{
}

proof fn lemma_menu_edits_keep(v: AppView, c: char)
    requires
        selections_ok(v),
    ensures
        selections_ok(v.menu_item_added()),
        selections_ok(v.menu_item_toggled()),
        selections_ok(v.menu_item_removed()),
        selections_ok(v.form_typed(c)),
        selections_ok(v.form_erased()),
{
}

proof fn lemma_forms_keep(v: AppView, r: crate::api::Restaurant)
    requires
        selections_ok(v),
    ensures
        selections_ok(crate::handlers::new_entry_form(v)),
        selections_ok(crate::handlers::edit_entry_form(v, r)),
{
}

proof fn lemma_sign_in_screens_keep(v: AppView, key: KeyEvent)
    requires
        selections_ok(v),
    ensures
        selections_ok(login_keys(v, key).0),
        selections_ok(signup_keys(v, key).0),
        selections_ok(reset_keys(v, key).0),
{
}

proof fn lemma_dashboard_keeps(v: AppView, key: KeyEvent)
    requires
        selections_ok(v),
    ensures
        selections_ok(dashboard_keys(v, key).0),
{
    law_moves_stay_in_list(v.selected_restaurant_index, v.restaurants.len());
    if let KeyCode::Char(c) = key.code {
        let chosen = crate::handlers::selected_entry(v.restaurants, v.selected_restaurant_index);
        lemma_forms_keep(v, v.restaurants[v.selected_restaurant_index.unwrap() as int]);
        assert(selections_ok(crate::handlers::dashboard_char(v, c).0));
    }
}

proof fn lemma_lists_keep(v: AppView, key: KeyEvent)
    requires
        selections_ok(v),
    ensures
        selections_ok(my_restaurants_keys(v, key).0),
        selections_ok(favorites_keys(v, key).0),
{
    law_moves_stay_in_list(v.selected_my_restaurant_index, v.my_restaurants.len());
    law_moves_stay_in_list(v.selected_favorite_index, v.favorites.len());
    lemma_forms_keep(v, v.my_restaurants[v.selected_my_restaurant_index.unwrap() as int]);
}

proof fn lemma_form_keeps(v: AppView, key: KeyEvent)
    requires
        selections_ok(v),
    ensures
        selections_ok(form_keys(v, key).0),
{
    law_moves_stay_in_list(v.form_menu_item_selected, v.form_menu_items.len());
    match key.code {
        KeyCode::Char(c) => {
            lemma_menu_edits_keep(v, c);
        },
        _ => {
            lemma_menu_edits_keep(v, ' ');
        },
    }
}

/// Every key press keeps every selection inside its list.
pub proof fn law_keys_keep_selections(v: AppView, key: KeyEvent)
    requires
        selections_ok(v),
    ensures
        selections_ok(event_keys(v, key).0),
{
    lemma_sign_in_screens_keep(v, key);
    lemma_dashboard_keeps(v, key);
    lemma_lists_keep(v, key);
    lemma_form_keeps(v, key);
}

proof fn lemma_fetch_keeps(v: AppView, list: crate::app::ListKind, outcome: Result<Reply, ApiError>, after: crate::app::AfterFetch)
    requires
        selections_ok(v),
    ensures
        selections_ok(crate::app::after_fetch(v.fetched(list, outcome), after)),
{
}

proof fn lemma_menu_flow_keeps(v: AppView, rid: i32, next: nat, update_existing: bool, to_my: bool, note: crate::app::StatusNote)
    requires
        selections_ok(v),
    ensures
        selections_ok(crate::replies::menu_writes(v, rid, next, update_existing, to_my, note).0),
        selections_ok(crate::replies::menu_deletes(v, rid, next).0),
{
}

proof fn lemma_sign_in_replies_keep(w: AppView, p: crate::app::Pending, outcome: Result<Reply, ApiError>)
    requires
        selections_ok(w),
        p is Login || p is Signup || p is ResetPassword,
    ensures
        selections_ok(crate::replies::answered(w, p, outcome).0),
{
}

proof fn lemma_list_replies_keep(w: AppView, p: crate::app::Pending, outcome: Result<Reply, ApiError>)
    requires
        selections_ok(w),
        !(p is Login || p is Signup || p is ResetPassword || p is Fetch || p is SaveNew || p is SaveEdit
            || p is MenuDeletes || p is MenuWrites),
    ensures
        selections_ok(crate::replies::answered(w, p, outcome).0),
{
}

proof fn lemma_save_replies_keep(w: AppView, p: crate::app::Pending, outcome: Result<Reply, ApiError>)
    requires
        selections_ok(w),
        p is SaveNew || p is SaveEdit || p is MenuDeletes || p is MenuWrites,
    ensures
        selections_ok(crate::replies::answered(w, p, outcome).0),
{
    match p {
        crate::app::Pending::SaveNew { customer } => {
            if let Ok(Reply::Created(r)) = outcome {
                lemma_menu_flow_keeps(w, r.id, 0, false, customer,
                    if customer { crate::app::StatusNote::RestaurantSubmitted } else { crate::app::StatusNote::RestaurantAdded });
            }
        },
        crate::app::Pending::SaveEdit { restaurant_id } => {
            lemma_menu_flow_keeps(w, restaurant_id, 0, false, false, crate::app::StatusNote::RestaurantUpdated);
        },
        crate::app::Pending::MenuDeletes { restaurant_id, next } => {
            lemma_menu_flow_keeps(w, restaurant_id, next as nat, false, false, crate::app::StatusNote::RestaurantUpdated);
        },
        crate::app::Pending::MenuWrites { restaurant_id, next, update_existing, to_my, note } => {
            lemma_menu_flow_keeps(w, restaurant_id, next as nat, update_existing, to_my, note);
        },
        _ => {},
    }
}

/// Every reply keeps every selection inside its list.
pub proof fn law_replies_keep_selections(v: AppView, outcome: Result<Reply, ApiError>)
    requires
        selections_ok(v),
    ensures
        selections_ok(replied(v, outcome).0),
{
    if let Some(p) = v.pending {
        let w = AppView { pending: None, ..v };
        if let crate::app::Pending::Fetch { list, after } = p {
            lemma_fetch_keeps(w, list, outcome, after);
        } else if p is Login || p is Signup || p is ResetPassword {
            lemma_sign_in_replies_keep(w, p, outcome);
        } else if p is SaveNew || p is SaveEdit || p is MenuDeletes || p is MenuWrites {
            lemma_save_replies_keep(w, p, outcome);
        } else {
            lemma_list_replies_keep(w, p, outcome);
        }
    }
}

/// A fresh state has every selection inside its list.
pub proof fn law_initial_selections(api_client: crate::api::ApiClient)
    ensures
        selections_ok(AppView::initial(api_client)),
{
}

/// In a state whose selections point into their lists, the main loop's
/// precondition holds for every key: no key makes the form index outside
/// its menu.
pub proof fn law_selections_make_keys_safe(v: AppView, key: KeyEvent)
    requires
        selections_ok(v),
    ensures
        crate::handlers::event_safe(v, key),
{
}

/// Cycling the sign-up role goes Customer, Admin, Consumer and back.
pub proof fn law_role_cycle(r: UserRole)
    ensures
        r.spec_next().spec_next().spec_next() == r,
        r.spec_next() != r,
        r.spec_next().spec_next() != r,
{
}

/// Cycling the restaurant type visits all four kinds and comes back.
pub proof fn law_type_cycle(t: RestaurantType)
    ensures
        t.spec_next().spec_next().spec_next().spec_next() == t,
        t.spec_next() != t,
        t.spec_next().spec_next() != t,
        t.spec_next().spec_next().spec_next() != t,
{
}

/// The field reached from `f` after `n` presses of Tab on the form.
pub open spec fn form_focus_after_n(f: Focus, n: nat) -> Focus
    decreases n,
{
    if n == 0 {
        f
    } else {
        crate::form::next_form_focus(form_focus_after_n(f, (n - 1) as nat))
    }
}

/// The fields of the form, in Tab order.
pub open spec fn form_fields() -> Seq<Focus> {
    seq![
        Focus::FormName, Focus::FormType, Focus::FormCuisineType, Focus::FormLocation,
        Focus::FormLocationDesc, Focus::FormLocationLat, Focus::FormLocationLng,
        Focus::FormLocationAddress, Focus::FormLocationCity, Focus::FormLocationState,
        Focus::FormLocationZip, Focus::FormLocationRoad1, Focus::FormLocationRoad2,
        Focus::FormLocationVenue, Focus::FormLocationStall, Focus::FormLocationLot,
        Focus::FormOpenTime, Focus::FormCloseTime, Focus::FormOpenStatus, Focus::FormDescription,
        Focus::FormMenuItemName, Focus::FormMenuItemPrice, Focus::FormMenuItemDescription,
        Focus::FormMenuList,
    ]
}

proof fn lemma_form_tab_steps()
    ensures
        forall|i: int| 0 <= i < 24 ==> form_focus_after_n(Focus::FormName, i as nat) == #[trigger] form_fields()[i],
        form_focus_after_n(Focus::FormName, 24) == Focus::FormName,
{
    assert(form_focus_after_n(Focus::FormName, 0) == Focus::FormName);
    assert(form_focus_after_n(Focus::FormName, 1) == Focus::FormType);
    assert(form_focus_after_n(Focus::FormName, 2) == Focus::FormCuisineType);
    assert(form_focus_after_n(Focus::FormName, 3) == Focus::FormLocation);
    assert(form_focus_after_n(Focus::FormName, 4) == Focus::FormLocationDesc);
    assert(form_focus_after_n(Focus::FormName, 5) == Focus::FormLocationLat);
    assert(form_focus_after_n(Focus::FormName, 6) == Focus::FormLocationLng);
    assert(form_focus_after_n(Focus::FormName, 7) == Focus::FormLocationAddress);
    assert(form_focus_after_n(Focus::FormName, 8) == Focus::FormLocationCity);
    assert(form_focus_after_n(Focus::FormName, 9) == Focus::FormLocationState);
    assert(form_focus_after_n(Focus::FormName, 10) == Focus::FormLocationZip);
    assert(form_focus_after_n(Focus::FormName, 11) == Focus::FormLocationRoad1);
    assert(form_focus_after_n(Focus::FormName, 12) == Focus::FormLocationRoad2);
    assert(form_focus_after_n(Focus::FormName, 13) == Focus::FormLocationVenue);
    assert(form_focus_after_n(Focus::FormName, 14) == Focus::FormLocationStall);
    assert(form_focus_after_n(Focus::FormName, 15) == Focus::FormLocationLot);
    assert(form_focus_after_n(Focus::FormName, 16) == Focus::FormOpenTime);
    assert(form_focus_after_n(Focus::FormName, 17) == Focus::FormCloseTime);
    assert(form_focus_after_n(Focus::FormName, 18) == Focus::FormOpenStatus);
    assert(form_focus_after_n(Focus::FormName, 19) == Focus::FormDescription);
    assert(form_focus_after_n(Focus::FormName, 20) == Focus::FormMenuItemName);
    assert(form_focus_after_n(Focus::FormName, 21) == Focus::FormMenuItemPrice);
    assert(form_focus_after_n(Focus::FormName, 22) == Focus::FormMenuItemDescription);
    assert(form_focus_after_n(Focus::FormName, 23) == Focus::FormMenuList);
    assert(form_focus_after_n(Focus::FormName, 24) == Focus::FormName);
    assert(form_fields()[0] == Focus::FormName);
    assert(form_fields()[1] == Focus::FormType);
    assert(form_fields()[2] == Focus::FormCuisineType);
    assert(form_fields()[3] == Focus::FormLocation);
    assert(form_fields()[4] == Focus::FormLocationDesc);
    assert(form_fields()[5] == Focus::FormLocationLat);
    assert(form_fields()[6] == Focus::FormLocationLng);
    assert(form_fields()[7] == Focus::FormLocationAddress);
    assert(form_fields()[8] == Focus::FormLocationCity);
    assert(form_fields()[9] == Focus::FormLocationState);
    assert(form_fields()[10] == Focus::FormLocationZip);
    assert(form_fields()[11] == Focus::FormLocationRoad1);
    assert(form_fields()[12] == Focus::FormLocationRoad2);
    assert(form_fields()[13] == Focus::FormLocationVenue);
    assert(form_fields()[14] == Focus::FormLocationStall);
    assert(form_fields()[15] == Focus::FormLocationLot);
    assert(form_fields()[16] == Focus::FormOpenTime);
    assert(form_fields()[17] == Focus::FormCloseTime);
    assert(form_fields()[18] == Focus::FormOpenStatus);
    assert(form_fields()[19] == Focus::FormDescription);
    assert(form_fields()[20] == Focus::FormMenuItemName);
    assert(form_fields()[21] == Focus::FormMenuItemPrice);
    assert(form_fields()[22] == Focus::FormMenuItemDescription);
    assert(form_fields()[23] == Focus::FormMenuList);
    assert forall|i: int| 0 <= i < 24 implies form_focus_after_n(Focus::FormName, i as nat) == #[trigger] form_fields()[i] by {
        assert(form_fields()[i] == form_fields()[i]);
    }
}

/// Tab on the form walks through its 24 fields in order, each once, and
/// comes back to the name after 24 presses.
pub proof fn law_form_tab_cycle()
    ensures
        forall|i: int| 0 <= i < 24 ==> form_focus_after_n(Focus::FormName, i as nat) == #[trigger] form_fields()[i],
        form_focus_after_n(Focus::FormName, 24) == Focus::FormName,
        forall|j: int, k: int| 0 <= j < k < 24 ==> form_fields()[j] != form_fields()[k],
{
    lemma_form_tab_steps();
    assert(form_fields()[0] == Focus::FormName);
    assert(form_fields()[1] == Focus::FormType);
    assert(form_fields()[2] == Focus::FormCuisineType);
    assert(form_fields()[3] == Focus::FormLocation);
    assert(form_fields()[4] == Focus::FormLocationDesc);
    assert(form_fields()[5] == Focus::FormLocationLat);
    assert(form_fields()[6] == Focus::FormLocationLng);
    assert(form_fields()[7] == Focus::FormLocationAddress);
    assert(form_fields()[8] == Focus::FormLocationCity);
    assert(form_fields()[9] == Focus::FormLocationState);
    assert(form_fields()[10] == Focus::FormLocationZip);
    assert(form_fields()[11] == Focus::FormLocationRoad1);
    assert(form_fields()[12] == Focus::FormLocationRoad2);
    assert(form_fields()[13] == Focus::FormLocationVenue);
    assert(form_fields()[14] == Focus::FormLocationStall);
    assert(form_fields()[15] == Focus::FormLocationLot);
    assert(form_fields()[16] == Focus::FormOpenTime);
    assert(form_fields()[17] == Focus::FormCloseTime);
    assert(form_fields()[18] == Focus::FormOpenStatus);
    assert(form_fields()[19] == Focus::FormDescription);
    assert(form_fields()[20] == Focus::FormMenuItemName);
    assert(form_fields()[21] == Focus::FormMenuItemPrice);
    assert(form_fields()[22] == Focus::FormMenuItemDescription);
    assert(form_fields()[23] == Focus::FormMenuList);
}

/// Typing a character into a sign-in input and erasing it leaves the input
/// as it was (the status line is cleared by typing).
pub proof fn law_type_then_erase_credential(v: AppView, c: char, user: Focus, pass: Focus)
    requires
        user != pass,
        v.focus == user || v.focus == pass,
    ensures
        crate::handlers::erase_credential(crate::handlers::type_credential(v, c, user, pass), user, pass)
            == v.without_status(),
{
    let w = crate::handlers::type_credential(v, c, user, pass);
    assert(v.input_username.push(c).drop_last() =~= v.input_username);
    assert(v.input_password.push(c).drop_last() =~= v.input_password);
}

/// On the sign-in screen, a typed character followed by Backspace leaves
/// the username and password as they were.
pub proof fn law_login_type_then_backspace(v: AppView, c: char)
    requires
        v.focus == Focus::LoginUsername || v.focus == Focus::LoginPassword,
    ensures
        ({
            let typed = login_keys(v, KeyEvent { code: KeyCode::Char(c), modifiers: KeyModifiers::NONE }).0;
            let erased = login_keys(typed, KeyEvent { code: KeyCode::Backspace, modifiers: KeyModifiers::NONE }).0;
            erased == v.without_status()
        }),
{
    law_type_then_erase_credential(v, c, Focus::LoginUsername, Focus::LoginPassword);
}

/// On the form, a character typed into a text field and erased again
/// leaves the form as it was.
pub proof fn law_form_type_then_erase(v: AppView, c: char)
    ensures
        v.form_typed(c).form_erased() == v,
{
    assert(v.form_name.push(c).drop_last() =~= v.form_name);
    assert(v.form_cuisine_type.push(c).drop_last() =~= v.form_cuisine_type);
    assert(v.form_location.push(c).drop_last() =~= v.form_location);
    assert(v.form_location_desc.push(c).drop_last() =~= v.form_location_desc);
    assert(v.form_location_lat.push(c).drop_last() =~= v.form_location_lat);
    assert(v.form_location_lng.push(c).drop_last() =~= v.form_location_lng);
    assert(v.form_location_address.push(c).drop_last() =~= v.form_location_address);
    assert(v.form_location_city.push(c).drop_last() =~= v.form_location_city);
    assert(v.form_location_state.push(c).drop_last() =~= v.form_location_state);
    assert(v.form_location_zip.push(c).drop_last() =~= v.form_location_zip);
    assert(v.form_location_road1.push(c).drop_last() =~= v.form_location_road1);
    assert(v.form_location_road2.push(c).drop_last() =~= v.form_location_road2);
    assert(v.form_location_venue.push(c).drop_last() =~= v.form_location_venue);
    assert(v.form_location_stall.push(c).drop_last() =~= v.form_location_stall);
    assert(v.form_location_lot.push(c).drop_last() =~= v.form_location_lot);
    assert(v.form_open_time.push(c).drop_last() =~= v.form_open_time);
    assert(v.form_close_time.push(c).drop_last() =~= v.form_close_time);
    assert(v.form_description.push(c).drop_last() =~= v.form_description);
    assert(v.form_menu_item_name.push(c).drop_last() =~= v.form_menu_item_name);
    assert(v.form_menu_item_price.push(c).drop_last() =~= v.form_menu_item_price);
    assert(v.form_menu_item_description.push(c).drop_last() =~= v.form_menu_item_description);
}

/// Control-L signs out from every screen: no token, no user, the sign-in
/// screen, and requests go without an `Authorization` header.
pub proof fn law_sign_out(v: AppView)
    ensures
        ({
            let (w, cmd) = event_keys(v, KeyEvent { code: KeyCode::Char('l'), modifiers: KeyModifiers::CONTROL });
            &&& cmd == Command::Idle
            &&& w.api_client.token is None
            &&& w.api_client.username is None
            &&& w.api_client.role is None
            &&& w.api_client.authorization_spec() is None
            &&& w.screen == Screen::Login
            &&& w.api_client.base_url == v.api_client.base_url
        }),
{
}

/// A session holding a token sends it as `Bearer <token>` when the token
/// holds only characters a header value may carry.
pub proof fn law_token_is_sent(api: crate::api::ApiClient, t: String)
    requires
        api.token == Some(t),
        forall|i: int| 0 <= i < t@.len() ==> crate::api::is_header_char(#[trigger] t@[i]),
    ensures
        api.authorization_spec() == Some("Bearer "@ + t@),
{
    reveal_strlit("Bearer ");
    let v = "Bearer "@ + t@;
    assert forall|i: int| 0 <= i < v.len() implies crate::api::is_header_char(#[trigger] v[i]) by {
        if i >= 7 {
            assert(v[i] == t@[i - 7]);
        }
    }
}

/// Saving the form with a time that is not eight bytes long is refused:
/// the screen stays, no call is made, and the status names the format.
pub proof fn law_bad_time_refused(v: AppView)
    requires
        !crate::handlers::on_menu_input(v.focus),
        crate::handlers::byte_len(v.form_open_time) != 8 || crate::handlers::byte_len(v.form_close_time) != 8,
    ensures
        ({
            let (w, cmd) = form_keys(v, KeyEvent { code: KeyCode::Enter, modifiers: KeyModifiers::NONE });
            &&& cmd == Command::Idle
            &&& w.screen == v.screen
            &&& w == v.with_status("Validation error: Time format must be HH:MM:SS"@)
        }),
{
}

/// The base URL keeps no trailing slash, trimming it again changes nothing,
/// and it is a prefix of the URL given.
pub proof fn law_base_url_trimmed(s: Seq<char>)
    ensures
        crate::api::trim_trailing_slashes(s).len() > 0 ==> crate::api::trim_trailing_slashes(s).last() != '/',
        crate::api::trim_trailing_slashes(crate::api::trim_trailing_slashes(s)) == crate::api::trim_trailing_slashes(s),
        crate::api::trim_trailing_slashes(s).len() <= s.len(),
        crate::api::trim_trailing_slashes(s) == s.subrange(0, crate::api::trim_trailing_slashes(s).len() as int),
    decreases s.len(),
{
    if s.len() > 0 && s.last() == '/' {
        law_base_url_trimmed(s.drop_last());
        assert(s.drop_last().subrange(0, crate::api::trim_trailing_slashes(s).len() as int)
            =~= s.subrange(0, crate::api::trim_trailing_slashes(s).len() as int));
    } else {
        assert(s.subrange(0, s.len() as int) =~= s);
    }
}

/// An emptied form is the form of a fresh state.
pub proof fn law_cleared_form_is_initial(api_client: crate::api::ApiClient)
    ensures
        AppView::initial(api_client).cleared_form() == AppView::initial(api_client),
{
}

/// The lists of the form have lengths that a `usize` holds, as those of a
/// state made of `Vec`s do.
pub open spec fn lengths_fit(v: AppView) -> bool {
    v.form_menu_items.len() <= usize::MAX && v.form_menu_items_removed.len() <= usize::MAX
}

/// An upper bound on the calls an operation in progress still makes.
pub open spec fn calls_left(v: AppView) -> nat {
    let items = v.form_menu_items.len();
    let removed = v.form_menu_items_removed.len();
    match v.pending {
        None => 0,
        Some(p) => match p {
            crate::app::Pending::Fetch { .. } => 1,
            crate::app::Pending::SaveNew { .. } => items + 3,
            crate::app::Pending::SaveEdit { .. } => removed + items + 4,
            crate::app::Pending::MenuWrites { next, .. } => if next <= items {
                (items - next) as nat + 2
            } else {
                2
            },
            crate::app::Pending::MenuDeletes { next, .. } => if next <= removed {
                (removed - next) as nat + items + 3
            } else {
                items + 3
            },
            _ => 2,
        },
    }
}

proof fn lemma_next_menu_write(items: Seq<MenuItemView>, next: nat, update_existing: bool)
    ensures
        crate::replies::next_menu_write(items, next, update_existing) matches Some(j) ==> next <= j < items.len(),
    decreases items.len() - next,
{
    if next < items.len() && !(items[next as int].id == 0 || update_existing) {
        lemma_next_menu_write(items, next + 1, update_existing);
    }
}

proof fn lemma_menu_flow_progress(v: AppView, rid: i32, next: nat, update_existing: bool, to_my: bool, note: crate::app::StatusNote)
    requires
        lengths_fit(v),
    ensures
        ({
            let (w, cmd) = crate::replies::menu_writes(v, rid, next, update_existing, to_my, note);
            &&& (cmd is Call <==> w.pending is Some)
            &&& w.form_menu_items == v.form_menu_items
            &&& w.form_menu_items_removed == v.form_menu_items_removed
            &&& w.pending matches Some(p) ==> (p is Fetch || (p matches crate::app::Pending::MenuWrites { next: n, .. }
                && next < n <= v.form_menu_items.len()))
        }),
        ({
            let (w, cmd) = crate::replies::menu_deletes(v, rid, next);
            &&& (cmd is Call <==> w.pending is Some)
            &&& w.form_menu_items == v.form_menu_items
            &&& w.form_menu_items_removed == v.form_menu_items_removed
            &&& w.pending matches Some(p) ==> (p is Fetch || (p matches crate::app::Pending::MenuWrites { next: n, .. }
                && 0 < n <= v.form_menu_items.len()) || (p matches crate::app::Pending::MenuDeletes { next: n, .. }
                && next < n <= v.form_menu_items_removed.len()))
        }),
{
    lemma_next_menu_write(v.form_menu_items, next, update_existing);
    lemma_next_menu_write(v.form_menu_items, 0, true);
}

/// Every operation ends: a reply either finishes the operation or leaves a
/// call in progress with fewer calls left, and a call is asked for exactly
/// when one is in progress.
pub proof fn law_replies_progress(v: AppView, outcome: Result<Reply, ApiError>)
    requires
        v.pending is Some,
        lengths_fit(v),
    ensures
        ({
            let (w, cmd) = replied(v, outcome);
            &&& (cmd is Call <==> w.pending is Some)
            &&& w.pending is Some ==> calls_left(w) < calls_left(v)
        }),
{
    let p = v.pending.unwrap();
    let w = AppView { pending: None, ..v };
    match p {
        crate::app::Pending::SaveNew { customer } => {
            if let Ok(Reply::Created(r)) = outcome {
                lemma_menu_flow_progress(w, r.id, 0, false, customer,
                    if customer { crate::app::StatusNote::RestaurantSubmitted } else { crate::app::StatusNote::RestaurantAdded });
            }
        },
        crate::app::Pending::SaveEdit { restaurant_id } => {
            lemma_menu_flow_progress(w, restaurant_id, 0, false, false, crate::app::StatusNote::RestaurantUpdated);
        },
        crate::app::Pending::MenuDeletes { restaurant_id, next } => {
            lemma_menu_flow_progress(w, restaurant_id, next as nat, false, false, crate::app::StatusNote::RestaurantUpdated);
        },
        crate::app::Pending::MenuWrites { restaurant_id, next, update_existing, to_my, note } => {
            lemma_menu_flow_progress(w, restaurant_id, next as nat, update_existing, to_my, note);
        },
        _ => {},
    }
}

proof fn lemma_screen_calls(v: AppView, key: KeyEvent)
    requires
        v.pending is None,
    ensures
        login_keys(v, key).1 is Call <==> login_keys(v, key).0.pending is Some,
        signup_keys(v, key).1 is Call <==> signup_keys(v, key).0.pending is Some,
        reset_keys(v, key).1 is Call <==> reset_keys(v, key).0.pending is Some,
        my_restaurants_keys(v, key).1 is Call <==> my_restaurants_keys(v, key).0.pending is Some,
        favorites_keys(v, key).1 is Call <==> favorites_keys(v, key).0.pending is Some,
        !(login_keys(v, key).1 is Quit),
        !(signup_keys(v, key).1 is Quit),
        !(reset_keys(v, key).1 is Quit),
        !(my_restaurants_keys(v, key).1 is Quit),
        !(favorites_keys(v, key).1 is Quit),
{
}

proof fn lemma_dashboard_calls(v: AppView, key: KeyEvent)
    requires
        v.pending is None,
    ensures
        dashboard_keys(v, key).1 is Call <==> dashboard_keys(v, key).0.pending is Some,
        !(dashboard_keys(v, key).1 is Quit),
{
    if let KeyCode::Char(c) = key.code {
        assert(crate::handlers::dashboard_char(v, c).1 is Call <==> crate::handlers::dashboard_char(v, c).0.pending is Some);
    }
}

proof fn lemma_form_calls(v: AppView, key: KeyEvent)
    requires
        v.pending is None,
    ensures
        form_keys(v, key).1 is Call <==> form_keys(v, key).0.pending is Some,
        !(form_keys(v, key).1 is Quit),
{
}

/// A key press from a state with no call in progress asks for a call
/// exactly when it starts an operation that waits for the reply, and only
/// Esc on the sign-in screen quits.
pub proof fn law_keys_start_calls(v: AppView, key: KeyEvent)
    requires
        v.pending is None,
    ensures
        ({
            let (w, cmd) = event_keys(v, key);
            &&& (cmd is Call <==> w.pending is Some)
            &&& (cmd is Quit <==> (v.screen == Screen::Login && key.code == KeyCode::Esc))
        }),
{
    lemma_screen_calls(v, key);
    lemma_dashboard_calls(v, key);
    lemma_form_calls(v, key);
}

} // verus!
