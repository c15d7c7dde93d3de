//! What the application does with the reply to the call in progress: the
//! rest of each operation, up to its next call or its end.

use vstd::prelude::*;
use crate::api::{ApiClient, ApiError, MenuItemView, TokenResponse, UserRole};
use crate::app::{AfterFetch, App, AppView, ApiCall, Command, Focus, ListKind, Pending, Reply, Screen, StatusNote, after_fetch, error_text};
use crate::handlers::go_and_fetch;

verus! {

/// The state once a sign-in has answered with token `t`: the session holds
/// it, and a customer goes to their own restaurants, anyone else to the
/// restaurant list, which is fetched.
pub open spec fn signed_in(v: AppView, t: TokenResponse) -> (AppView, Command) {
    let w = AppView {
        api_client: ApiClient {
            base_url: v.api_client.base_url,
            token: Some(t.access_token),
            username: Some(t.username),
            role: Some(t.role),
        },
        ..v
    };
    if t.role == UserRole::Customer {
        go_and_fetch(w, Screen::MyRestaurants, Focus::MyRestaurantsList, ListKind::MyRestaurants, AfterFetch::Keep)
    } else {
        go_and_fetch(w, Screen::Dashboard, Focus::RestaurantList, ListKind::Restaurants, AfterFetch::Keep)
    }
}

/// Closes a saved form: no entry is being edited any more, and the
/// customer's own list or the restaurant list is shown, fetched, with `note`.
pub open spec fn finish_save(v: AppView, to_my: bool, note: StatusNote) -> (AppView, Command) {
    let w = AppView { editing_restaurant_id: None, ..v };
    if to_my {
        go_and_fetch(w, Screen::MyRestaurants, Focus::MyRestaurantsList, ListKind::MyRestaurants, AfterFetch::Note(note))
    } else {
        go_and_fetch(w, Screen::Dashboard, Focus::RestaurantList, ListKind::Restaurants, AfterFetch::Note(note))
    }
}

/// The first menu entry from `next` on that is to be written: an unsaved
/// one, or any when saved entries are updated too.
pub open spec fn next_menu_write(items: Seq<MenuItemView>, next: nat, update_existing: bool) -> Option<nat>
    decreases items.len() - next,
{
    if next >= items.len() {
        None
    } else if items[next as int].id == 0 || update_existing {
        Some(next)
    } else {
        next_menu_write(items, next + 1, update_existing)
    }
}

/// Writes the next menu entry from `next` on, creating an unsaved entry and
/// updating a saved one; when none is left, the save is finished.
pub open spec fn menu_writes(
    v: AppView,
    restaurant_id: i32,
    next: nat,
    update_existing: bool,
    to_my: bool,
    note: StatusNote,
) -> (AppView, Command) {
    match next_menu_write(v.form_menu_items, next, update_existing) {
        Some(j) => (
            AppView {
                pending: Some(
                    Pending::MenuWrites { restaurant_id, next: (j + 1) as usize, update_existing, to_my, note },
                ),
                ..v
            },
            Command::Call(
                if v.form_menu_items[j as int].id == 0 {
                    ApiCall::CreateMenuItem { restaurant_id, index: j as usize }
                } else {
                    ApiCall::UpdateMenuItem { restaurant_id, index: j as usize }
                },
            ),
        ),
        None => finish_save(v, to_my, note),
    }
}

/// Deletes the next menu entry removed in the form, from `next` on; when
/// none is left, the entries of the form are written.
pub open spec fn menu_deletes(v: AppView, restaurant_id: i32, next: nat) -> (AppView, Command) {
    if next < v.form_menu_items_removed.len() {
        (
            AppView { pending: Some(Pending::MenuDeletes { restaurant_id, next: (next + 1) as usize }), ..v },
            Command::Call(ApiCall::DeleteMenuItem { restaurant_id, item_id: v.form_menu_items_removed[next as int] }),
        )
    } else {
        menu_writes(
            v,
            restaurant_id,
            0,
            true,
            v.api_client.role == Some(UserRole::Customer),
            StatusNote::RestaurantUpdated,
        )
    }
}

/// The selection of `list` dropped.
pub open spec fn without_selection(v: AppView, list: ListKind) -> AppView {
    match list {
        ListKind::Restaurants => AppView { selected_restaurant_index: None, ..v },
        ListKind::MyRestaurants => AppView { selected_my_restaurant_index: None, ..v },
        ListKind::Favorites => AppView { selected_favorite_index: None, ..v },
    }
}

/// Shows `prefix` and the error.
pub open spec fn failed(v: AppView, prefix: Seq<char>, e: ApiError) -> (AppView, Command) {
    (v.with_status(error_text(prefix, e)), Command::Idle)
}

/// The state and command once the call in progress, recorded as `p`, has
/// answered with `outcome`; `w` is the state with no call in progress. A
/// reply of another kind than the call gives fails its operation silently.
pub open spec fn answered(w: AppView, p: Pending, outcome: Result<Reply, ApiError>) -> (AppView, Command) {
    match p {
        Pending::Login => match outcome {
            Ok(Reply::Token(t)) => signed_in(w, t),
            Ok(_) => (w, Command::Idle),
            Err(e) => failed(w, "Login failed: "@, e),
        },
        Pending::Signup => match outcome {
            Ok(_) => (
                AppView {
                    screen: Screen::Login,
                    focus: Focus::LoginUsername,
                    ..w.with_status("Registration successful! Please login."@)
                },
                Command::Idle,
            ),
            Err(e) => failed(w, "Signup failed: "@, e),
        },
        Pending::ResetPassword => match outcome {
            Ok(_) => (
                AppView {
                    screen: Screen::Login,
                    focus: Focus::LoginUsername,
                    ..w.with_status("Password reset successful! Please login."@)
                },
                Command::Idle,
            ),
            Err(e) => failed(w, "Reset failed: "@, e),
        },
        Pending::Fetch { list, after } => (after_fetch(w.fetched(list, outcome), after), Command::Idle),
        Pending::AddFavorite => match outcome {
            Ok(_) => (w.with_status("Favorite added successfully"@), Command::Idle),
            Err(e) => failed(w, "Failed to add favorite: "@, e),
        },
        Pending::ToggleStatus { list } => match outcome {
            Ok(_) => w.begin_fetch(list, AfterFetch::Note(StatusNote::StatusToggled)),
            Err(e) => failed(w, "Toggle failed: "@, e),
        },
        Pending::DeleteRestaurant { list } => match outcome {
            Ok(_) => without_selection(w, list).begin_fetch(
                list,
                AfterFetch::Note(StatusNote::RestaurantDeleted),
            ),
            Err(e) => failed(w, "Delete failed: "@, e),
        },
        Pending::Approve => match outcome {
            Ok(_) => w.begin_fetch(ListKind::Restaurants, AfterFetch::Note(StatusNote::ApprovalUpdated)),
            Err(e) => failed(w, "Approval update failed: "@, e),
        },
        Pending::RemoveFavorite => match outcome {
            Ok(_) => without_selection(w, ListKind::Favorites).begin_fetch(
                ListKind::Favorites,
                AfterFetch::Note(StatusNote::FavoriteRemoved),
            ),
            Err(e) => failed(w, "Remove failed: "@, e),
        },
        Pending::SaveNew { customer } => match outcome {
            Ok(Reply::Created(r)) => menu_writes(
                w,
                r.id,
                0,
                false,
                customer,
                if customer {
                    StatusNote::RestaurantSubmitted
                } else {
                    StatusNote::RestaurantAdded
                },
            ),
            Ok(_) => (w, Command::Idle),
            Err(e) => failed(w, "Create failed: "@, e),
        },
        Pending::SaveEdit { restaurant_id } => match outcome {
            Ok(_) => menu_deletes(w, restaurant_id, 0),
            Err(e) => failed(w, "Update failed: "@, e),
        },
        Pending::MenuDeletes { restaurant_id, next } => menu_deletes(w, restaurant_id, next as nat),
        Pending::MenuWrites { restaurant_id, next, update_existing, to_my, note } => menu_writes(
            w,
            restaurant_id,
            next as nat,
            update_existing,
            to_my,
            note,
        ),
    }
}

/// The state and command once the call in progress has answered with
/// `outcome`. Without a call in progress nothing changes.
pub open spec fn replied(v: AppView, outcome: Result<Reply, ApiError>) -> (AppView, Command) {
    match v.pending {
        None => (v, Command::Idle),
        Some(p) => answered(AppView { pending: None, ..v }, p, outcome),
    }
}

fn do_finish_save(app: &mut App, to_my: bool, note: StatusNote) -> (r: Command)
    ensures
        (final(app)@, r) == finish_save(old(app)@, to_my, note),
{
    app.editing_restaurant_id = None;
    if to_my {
        app.screen = Screen::MyRestaurants;
        app.focus = Focus::MyRestaurantsList;
        app.fetch_list(ListKind::MyRestaurants, AfterFetch::Note(note))
    } else {
        app.screen = Screen::Dashboard;
        app.focus = Focus::RestaurantList;
        app.fetch_list(ListKind::Restaurants, AfterFetch::Note(note))
    }
}

fn do_menu_writes(
    app: &mut App,
    restaurant_id: i32,
    next: usize,
    update_existing: bool,
    to_my: bool,
    note: StatusNote,
) -> (r: Command)
    ensures
        (final(app)@, r) == menu_writes(old(app)@, restaurant_id, next as nat, update_existing, to_my, note),
{
    let n = app.form_menu_items.len();
    let mut j = next;
    while j < n && !(app.form_menu_items[j].id == 0 || update_existing)
        invariant
            n == app.form_menu_items.len(),
            next <= j || n <= next,
            app@ == old(app)@,
            next_menu_write(app@.form_menu_items, next as nat, update_existing) == next_menu_write(
                app@.form_menu_items,
                j as nat,
                update_existing,
            ),
        decreases n - j,
    {
        assert(app@.form_menu_items[j as int] == app.form_menu_items@[j as int]@);
        j = j + 1;
    }
    if j < n {
        assert(app@.form_menu_items[j as int] == app.form_menu_items@[j as int]@);
        let create = app.form_menu_items[j].id == 0;
        app.pending = Some(Pending::MenuWrites { restaurant_id, next: j + 1, update_existing, to_my, note });
        if create {
            Command::Call(ApiCall::CreateMenuItem { restaurant_id, index: j })
        } else {
            Command::Call(ApiCall::UpdateMenuItem { restaurant_id, index: j })
        }
    } else {
        do_finish_save(app, to_my, note)
    }
}

fn do_menu_deletes(app: &mut App, restaurant_id: i32, next: usize) -> (r: Command)
    ensures
        (final(app)@, r) == menu_deletes(old(app)@, restaurant_id, next as nat),
{
    if next < app.form_menu_items_removed.len() {
        let item_id = app.form_menu_items_removed[next];
        app.pending = Some(Pending::MenuDeletes { restaurant_id, next: next + 1 });
        Command::Call(ApiCall::DeleteMenuItem { restaurant_id, item_id })
    } else {
        let customer = app.api_client.role == Some(UserRole::Customer);
        do_menu_writes(app, restaurant_id, 0, true, customer, StatusNote::RestaurantUpdated)
    }
}

fn reply_sign_in(app: &mut App, p: Pending, outcome: Result<Reply, ApiError>) -> (r: Command)
    requires
        p is Login || p is Signup || p is ResetPassword,
    ensures
        (final(app)@, r) == answered(old(app)@, p, outcome),
{
    match p {
        Pending::Login => match outcome {
            Ok(Reply::Token(t)) => {
                let role = t.role;
                app.api_client.set_token(t.access_token, t.username, t.role);
                if role == UserRole::Customer {
                    app.screen = Screen::MyRestaurants;
                    app.focus = Focus::MyRestaurantsList;
                    app.fetch_list(ListKind::MyRestaurants, AfterFetch::Keep)
                } else {
                    app.screen = Screen::Dashboard;
                    app.focus = Focus::RestaurantList;
                    app.fetch_list(ListKind::Restaurants, AfterFetch::Keep)
                }
            },
            Ok(_) => Command::Idle,
            Err(e) => {
                app.set_error_status("Login failed: ", &e);
                Command::Idle
            },
        },
        Pending::Signup => match outcome {
            Ok(_) => {
                app.set_status("Registration successful! Please login.");
                app.screen = Screen::Login;
                app.focus = Focus::LoginUsername;
                Command::Idle
            },
            Err(e) => {
                app.set_error_status("Signup failed: ", &e);
                Command::Idle
            },
        },
        Pending::ResetPassword => match outcome {
            Ok(_) => {
                app.set_status("Password reset successful! Please login.");
                app.screen = Screen::Login;
                app.focus = Focus::LoginUsername;
                Command::Idle
            },
            Err(e) => {
                app.set_error_status("Reset failed: ", &e);
                Command::Idle
            },
        },
        _ => Command::Idle,
    }
}

fn reply_list_operation(app: &mut App, p: Pending, outcome: Result<Reply, ApiError>) -> (r: Command)
    requires
        p is Fetch || p is AddFavorite || p is ToggleStatus || p is DeleteRestaurant || p is Approve || p is RemoveFavorite,
    ensures
        (final(app)@, r) == answered(old(app)@, p, outcome),
{
    match p {
        Pending::Fetch { list, after } => {
            app.apply_fetched(list, outcome);
            match after {
                AfterFetch::Keep => {},
                AfterFetch::Clear => app.clear_status(),
                AfterFetch::Note(n) => app.set_status(n.as_str()),
            }
            Command::Idle
        },
        Pending::AddFavorite => match outcome {
            Ok(_) => {
                app.set_status("Favorite added successfully");
                Command::Idle
            },
            Err(e) => {
                app.set_error_status("Failed to add favorite: ", &e);
                Command::Idle
            },
        },
        Pending::ToggleStatus { list } => match outcome {
            Ok(_) => app.fetch_list(list, AfterFetch::Note(StatusNote::StatusToggled)),
            Err(e) => {
                app.set_error_status("Toggle failed: ", &e);
                Command::Idle
            },
        },
        Pending::DeleteRestaurant { list } => match outcome {
            Ok(_) => {
                match list {
                    ListKind::Restaurants => app.selected_restaurant_index = None,
                    ListKind::MyRestaurants => app.selected_my_restaurant_index = None,
                    ListKind::Favorites => app.selected_favorite_index = None,
                }
                app.fetch_list(list, AfterFetch::Note(StatusNote::RestaurantDeleted))
            },
            Err(e) => {
                app.set_error_status("Delete failed: ", &e);
                Command::Idle
            },
        },
        Pending::Approve => match outcome {
            Ok(_) => app.fetch_list(ListKind::Restaurants, AfterFetch::Note(StatusNote::ApprovalUpdated)),
            Err(e) => {
                app.set_error_status("Approval update failed: ", &e);
                Command::Idle
            },
        },
        Pending::RemoveFavorite => match outcome {
            Ok(_) => {
                app.selected_favorite_index = None;
                app.fetch_list(ListKind::Favorites, AfterFetch::Note(StatusNote::FavoriteRemoved))
            },
            Err(e) => {
                app.set_error_status("Remove failed: ", &e);
                Command::Idle
            },
        },
        _ => Command::Idle,
    }
}

fn reply_save(app: &mut App, p: Pending, outcome: Result<Reply, ApiError>) -> (r: Command)
    requires
        p is SaveNew || p is SaveEdit || p is MenuDeletes || p is MenuWrites,
    ensures
        (final(app)@, r) == answered(old(app)@, p, outcome),
{
    match p {
        Pending::SaveNew { customer } => match outcome {
            Ok(Reply::Created(r)) => {
                let note = if customer {
                    StatusNote::RestaurantSubmitted
                } else {
                    StatusNote::RestaurantAdded
                };
                do_menu_writes(app, r.id, 0, false, customer, note)
            },
            Ok(_) => Command::Idle,
            Err(e) => {
                app.set_error_status("Create failed: ", &e);
                Command::Idle
            },
        },
        Pending::SaveEdit { restaurant_id } => match outcome {
            Ok(_) => do_menu_deletes(app, restaurant_id, 0),
            Err(e) => {
                app.set_error_status("Update failed: ", &e);
                Command::Idle
            },
        },
        Pending::MenuDeletes { restaurant_id, next } => do_menu_deletes(app, restaurant_id, next),
        Pending::MenuWrites { restaurant_id, next, update_existing, to_my, note } => do_menu_writes(
            app,
            restaurant_id,
            next,
            update_existing,
            to_my,
            note,
        ),
        _ => Command::Idle,
    }
}

/// Takes in the reply to the call in progress (see `replied`).
pub fn on_reply(app: &mut App, outcome: Result<Reply, ApiError>) -> (r: Command)
    ensures
        (final(app)@, r) == replied(old(app)@, outcome),
{
    let p = match app.pending {
        Some(p) => p,
        None => {
            return Command::Idle;
        },
    };
    app.pending = None;
    match p {
        Pending::Login | Pending::Signup | Pending::ResetPassword => reply_sign_in(app, p, outcome),
        Pending::SaveNew { .. } | Pending::SaveEdit { .. } | Pending::MenuDeletes { .. } | Pending::MenuWrites { .. } => reply_save(app, p, outcome),
        _ => reply_list_operation(app, p, outcome),
    }
}

} // verus!
