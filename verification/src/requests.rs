//! The request for each call the state machine asks for, made from the
//! current state: sign-in inputs, search query, selected entries, and the
//! restaurant form turned into the payloads the API takes.

use vstd::prelude::*;
use crate::api::{
    HttpMethod, HttpRequest, LocationCreatePayload, LocationUpdatePayload, MenuItemCreate,
    MenuItemUpdate, MenuItemView, RequestBody, RestaurantApproval, RestaurantCreate,
    RestaurantStatusUpdate, RestaurantUpdate, FavoriteCreate, copy_opt,
};
use crate::app::{App, AppView, ApiCall};
use crate::text::{int_text, opt_view, optional_text, optional_trimmed, trim_text, trimmed};

verus! {

/// The description sent for an entry: the text as typed, or none when it
/// is blank.
pub open spec fn description_field(s: Seq<char>) -> Option<Seq<char>> {
    if trimmed(s).len() == 0 {
        None
    } else {
        Some(s)
    }
}

fn description_of(s: &String) -> (r: Option<String>)
    ensures
        opt_view(r) == description_field(s@),
{
    let t = trim_text(s.as_str());
    if t.as_str().is_empty() {
        None
    } else {
        Some(s.clone())
    }
}

/// The location of a new entry as the form gives it: the kind follows the
/// restaurant type, the description is the free-form location, the other
/// parts are the trimmed fields, absent when blank. Coordinates go as text.
pub open spec fn location_create_matches(l: LocationCreatePayload, v: AppView) -> bool {
    &&& l.location_type@ == v.form_type.location_kind()
    &&& opt_view(l.description) == optional_text(v.form_location)
    &&& opt_view(l.lat) == optional_text(v.form_location_lat)
    &&& opt_view(l.lng) == optional_text(v.form_location_lng)
    &&& opt_view(l.address) == optional_text(v.form_location_address)
    &&& opt_view(l.city) == optional_text(v.form_location_city)
    &&& opt_view(l.state) == optional_text(v.form_location_state)
    &&& opt_view(l.zip_code) == optional_text(v.form_location_zip)
    &&& opt_view(l.road_1) == optional_text(v.form_location_road1)
    &&& opt_view(l.road_2) == optional_text(v.form_location_road2)
    &&& opt_view(l.venue_name) == optional_text(v.form_location_venue)
    &&& opt_view(l.stall_number) == optional_text(v.form_location_stall)
    &&& opt_view(l.lot_name) == optional_text(v.form_location_lot)
}

/// The location of a changed entry: as for a new one, without the kind.
pub open spec fn location_update_matches(l: LocationUpdatePayload, v: AppView) -> bool {
    &&& opt_view(l.description) == optional_text(v.form_location)
    &&& opt_view(l.lat) == optional_text(v.form_location_lat)
    &&& opt_view(l.lng) == optional_text(v.form_location_lng)
    &&& opt_view(l.address) == optional_text(v.form_location_address)
    &&& opt_view(l.city) == optional_text(v.form_location_city)
    &&& opt_view(l.state) == optional_text(v.form_location_state)
    &&& opt_view(l.zip_code) == optional_text(v.form_location_zip)
    &&& opt_view(l.road_1) == optional_text(v.form_location_road1)
    &&& opt_view(l.road_2) == optional_text(v.form_location_road2)
    &&& opt_view(l.venue_name) == optional_text(v.form_location_venue)
    &&& opt_view(l.stall_number) == optional_text(v.form_location_stall)
    &&& opt_view(l.lot_name) == optional_text(v.form_location_lot)
}

/// A new entry as the form gives it.
pub open spec fn create_matches(p: RestaurantCreate, v: AppView) -> bool {
    &&& p.name@ == v.form_name
    &&& p.restaurant_type == v.form_type
    &&& p.cuisine_type@ == v.form_cuisine_type
    &&& location_create_matches(p.location, v)
    &&& p.open_time@ == v.form_open_time
    &&& p.close_time@ == v.form_close_time
    &&& p.open_status == v.form_open_status
    &&& opt_view(p.description) == description_field(v.form_description)
}

/// A change that sets every field of an entry to what the form holds.
pub open spec fn update_matches(p: RestaurantUpdate, v: AppView) -> bool {
    &&& opt_view(p.name) == Some(v.form_name)
    &&& p.restaurant_type == Some(v.form_type)
    &&& opt_view(p.cuisine_type) == Some(v.form_cuisine_type)
    &&& p.location matches Some(l) && location_update_matches(l, v)
    &&& opt_view(p.open_time) == Some(v.form_open_time)
    &&& opt_view(p.close_time) == Some(v.form_close_time)
    &&& p.open_status == Some(v.form_open_status)
    &&& opt_view(p.description) == description_field(v.form_description)
}

/// A new menu entry with the name, description, price and place of `m`.
pub open spec fn menu_create_matches(p: MenuItemCreate, m: MenuItemView) -> bool {
    &&& p.name@ == m.name
    &&& opt_view(p.description) == m.description
    &&& opt_view(p.price) == m.price
    &&& p.sort_order == Some(m.sort_order)
}

/// A change that sets a menu entry to `m`.
pub open spec fn menu_update_matches(p: MenuItemUpdate, m: MenuItemView) -> bool {
    &&& opt_view(p.name) == Some(m.name)
    &&& opt_view(p.description) == m.description
    &&& opt_view(p.price) == m.price
    &&& p.is_sold_out == Some(m.is_sold_out)
    &&& p.sort_order == Some(m.sort_order)
}

/// The request carries the session's `Authorization` header.
pub open spec fn authorized(req: HttpRequest, v: AppView) -> bool {
    opt_view(req.authorization) == v.api_client.authorization_spec()
}

/// The request is `method` on the API path `path` with the session's
/// authorization.
pub open spec fn authorized_at(req: HttpRequest, v: AppView, method: HttpMethod, path: Seq<char>) -> bool {
    &&& req.method == method
    &&& req.url@ =~= v.api_client.base_url@ + path
    &&& authorized(req, v)
}

/// The path of a restaurant entry followed by `suffix`.
pub open spec fn restaurant_path(id: i32, suffix: Seq<char>) -> Seq<char> {
    "/restaurants/"@ + int_text(id as int) + suffix
}

/// The path of a menu entry of a restaurant.
pub open spec fn menu_item_path(restaurant_id: i32, item_id: i64) -> Seq<char> {
    "/restaurants/"@ + int_text(restaurant_id as int) + "/menu-items/"@ + int_text(item_id as int) + ""@
}

/// The request that makes `call` in state `v`.
pub open spec fn request_matches(req: HttpRequest, v: AppView, call: ApiCall) -> bool {
    match call {
        ApiCall::Login => {
            &&& req.method == HttpMethod::Post
            &&& req.url@ == v.api_client.base_url@ + "/auth/login"@
            &&& req.authorization is None
            &&& req.body matches RequestBody::Credentials { username: u, password: p } && u@
                == v.input_username && p@ == v.input_password
        },
        ApiCall::Signup => {
            &&& req.method == HttpMethod::Post
            &&& req.url@ == v.api_client.base_url@ + "/auth/signup"@
            &&& req.authorization is None
            &&& req.body matches RequestBody::Registration { username: u, password: p, role: r } && u@
                == v.input_username && p@ == v.input_password && r == v.input_role
        },
        ApiCall::ResetPassword => {
            &&& req.method == HttpMethod::Post
            &&& req.url@ == v.api_client.base_url@ + "/auth/reset-password"@
            &&& req.authorization is None
            &&& req.body matches RequestBody::PasswordReset { username: u, new_password: p } && u@
                == v.input_username && p@ == v.input_password
        },
        ApiCall::GetRestaurants => {
            &&& req.method == HttpMethod::Get
            &&& req.url@ == v.api_client.restaurants_url(Some(v.search_query))
            &&& authorized(req, v)
            &&& req.body is Empty
        },
        ApiCall::GetMyRestaurants => {
            &&& authorized_at(req, v, HttpMethod::Get, "/me/restaurants"@)
            &&& req.body is Empty
        },
        ApiCall::GetFavorites => {
            &&& authorized_at(req, v, HttpMethod::Get, "/favorites"@)
            &&& req.body is Empty
        },
        ApiCall::UpdateRestaurantStatus { id, open_status } => {
            &&& authorized_at(req, v, HttpMethod::Patch, restaurant_path(id, "/status"@))
            &&& req.body == RequestBody::Status(RestaurantStatusUpdate { open_status })
        },
        ApiCall::DeleteRestaurant { id } => {
            &&& authorized_at(req, v, HttpMethod::Delete, restaurant_path(id, ""@))
            &&& req.body is Empty
        },
        ApiCall::ApproveRestaurant { id, is_approved } => {
            &&& authorized_at(req, v, HttpMethod::Patch, restaurant_path(id, "/approve"@))
            &&& req.body == RequestBody::Approval(RestaurantApproval { is_approved })
        },
        ApiCall::AddFavorite { restaurant_id } => {
            &&& authorized_at(req, v, HttpMethod::Post, "/favorites"@)
            &&& req.body == RequestBody::Favorite(FavoriteCreate { restaurant_id })
        },
        ApiCall::RemoveFavorite { favorite_id } => {
            &&& authorized_at(req, v, HttpMethod::Delete, "/favorites/"@ + int_text(favorite_id as int) + ""@)
            &&& req.body is Empty
        },
        ApiCall::CreateRestaurant => {
            &&& authorized_at(req, v, HttpMethod::Post, "/restaurants"@)
            &&& req.body matches RequestBody::NewRestaurant(p) && create_matches(p, v)
        },
        ApiCall::SubmitRestaurant => {
            &&& authorized_at(req, v, HttpMethod::Post, "/restaurants/submit"@)
            &&& req.body matches RequestBody::NewRestaurant(p) && create_matches(p, v)
        },
        ApiCall::UpdateRestaurant { id } => {
            &&& authorized_at(req, v, HttpMethod::Put, restaurant_path(id, ""@))
            &&& req.body matches RequestBody::RestaurantChanges(p) && update_matches(p, v)
        },
        ApiCall::CreateMenuItem { restaurant_id, index } => {
            &&& authorized_at(req, v, HttpMethod::Post, restaurant_path(restaurant_id, "/menu-items"@))
            &&& req.body matches RequestBody::NewMenuItem(p) && menu_create_matches(
                p,
                v.form_menu_items[index as int],
            )
        },
        ApiCall::UpdateMenuItem { restaurant_id, index } => {
            &&& authorized_at(
                req,
                v,
                HttpMethod::Put,
                menu_item_path(restaurant_id, v.form_menu_items[index as int].id),
            )
            &&& req.body matches RequestBody::MenuItemChanges(p) && menu_update_matches(
                p,
                v.form_menu_items[index as int],
            )
        },
        ApiCall::DeleteMenuItem { restaurant_id, item_id } => {
            &&& authorized_at(req, v, HttpMethod::Delete, menu_item_path(restaurant_id, item_id))
            &&& req.body is Empty
        },
    }
}

/// Whether a request can be made for `call`: a menu call must name an
/// entry of the form's menu.
pub open spec fn call_possible(v: AppView, call: ApiCall) -> bool {
    match call {
        ApiCall::CreateMenuItem { index, .. } => index < v.form_menu_items.len(),
        ApiCall::UpdateMenuItem { index, .. } => index < v.form_menu_items.len(),
        _ => true,
    }
}

impl App {
    fn location_create_payload(&self) -> (l: LocationCreatePayload)
        ensures
            location_create_matches(l, self@),
    {
        LocationCreatePayload {
            location_type: self.form_type.location_kind_str().to_string(),
            description: optional_trimmed(self.form_location.as_str()),
            lat: optional_trimmed(self.form_location_lat.as_str()),
            lng: optional_trimmed(self.form_location_lng.as_str()),
            address: optional_trimmed(self.form_location_address.as_str()),
            city: optional_trimmed(self.form_location_city.as_str()),
            state: optional_trimmed(self.form_location_state.as_str()),
            zip_code: optional_trimmed(self.form_location_zip.as_str()),
            road_1: optional_trimmed(self.form_location_road1.as_str()),
            road_2: optional_trimmed(self.form_location_road2.as_str()),
            venue_name: optional_trimmed(self.form_location_venue.as_str()),
            stall_number: optional_trimmed(self.form_location_stall.as_str()),
            lot_name: optional_trimmed(self.form_location_lot.as_str()),
        }
    }

    fn location_update_payload(&self) -> (l: LocationUpdatePayload)
        ensures
            location_update_matches(l, self@),
    {
        LocationUpdatePayload {
            description: optional_trimmed(self.form_location.as_str()),
            lat: optional_trimmed(self.form_location_lat.as_str()),
            lng: optional_trimmed(self.form_location_lng.as_str()),
            address: optional_trimmed(self.form_location_address.as_str()),
            city: optional_trimmed(self.form_location_city.as_str()),
            state: optional_trimmed(self.form_location_state.as_str()),
            zip_code: optional_trimmed(self.form_location_zip.as_str()),
            road_1: optional_trimmed(self.form_location_road1.as_str()),
            road_2: optional_trimmed(self.form_location_road2.as_str()),
            venue_name: optional_trimmed(self.form_location_venue.as_str()),
            stall_number: optional_trimmed(self.form_location_stall.as_str()),
            lot_name: optional_trimmed(self.form_location_lot.as_str()),
        }
    }

    /// The new entry the form describes.
    pub fn restaurant_create_payload(&self) -> (p: RestaurantCreate)
        ensures
            create_matches(p, self@),
    {
        RestaurantCreate {
            name: self.form_name.clone(),
            restaurant_type: self.form_type,
            cuisine_type: self.form_cuisine_type.clone(),
            location: self.location_create_payload(),
            open_time: self.form_open_time.clone(),
            close_time: self.form_close_time.clone(),
            open_status: self.form_open_status,
            description: description_of(&self.form_description),
        }
    }

    /// The change that makes an entry what the form describes.
    pub fn restaurant_update_payload(&self) -> (p: RestaurantUpdate)
        ensures
            update_matches(p, self@),
    {
        RestaurantUpdate {
            name: Some(self.form_name.clone()),
            restaurant_type: Some(self.form_type),
            cuisine_type: Some(self.form_cuisine_type.clone()),
            location: Some(self.location_update_payload()),
            open_time: Some(self.form_open_time.clone()),
            close_time: Some(self.form_close_time.clone()),
            open_status: Some(self.form_open_status),
            description: description_of(&self.form_description),
        }
    }

    /// The request for `call`; none for a menu call that names no entry of
    /// the form's menu.
    pub fn request(&self, call: ApiCall) -> (r: Option<HttpRequest>)
        ensures
            r is Some <==> call_possible(self@, call),
            r matches Some(req) ==> request_matches(req, self@, call),
    {
        let api = &self.api_client;
        match call {
            ApiCall::Login => Some(api.login_request(self.input_username.as_str(), self.input_password.as_str())),
            ApiCall::Signup => Some(
                api.signup_request(self.input_username.as_str(), self.input_password.as_str(), self.input_role),
            ),
            ApiCall::ResetPassword => Some(
                api.reset_password_request(self.input_username.as_str(), self.input_password.as_str()),
            ),
            ApiCall::GetRestaurants => Some(api.get_restaurants_request(Some(self.search_query.as_str()))),
            ApiCall::GetMyRestaurants => Some(api.get_my_restaurants_request()),
            ApiCall::GetFavorites => Some(api.get_favorites_request()),
            ApiCall::UpdateRestaurantStatus { id, open_status } => Some(
                api.update_restaurant_status_request(id, open_status),
            ),
            ApiCall::DeleteRestaurant { id } => Some(api.delete_restaurant_request(id)),
            ApiCall::ApproveRestaurant { id, is_approved } => Some(api.approve_restaurant_request(id, is_approved)),
            ApiCall::AddFavorite { restaurant_id } => Some(api.add_favorite_request(restaurant_id)),
            ApiCall::RemoveFavorite { favorite_id } => Some(api.remove_favorite_request(favorite_id)),
            ApiCall::CreateRestaurant => Some(api.create_restaurant_request(self.restaurant_create_payload())),
            ApiCall::SubmitRestaurant => Some(api.submit_restaurant_request(self.restaurant_create_payload())),
            ApiCall::UpdateRestaurant { id } => Some(api.update_restaurant_request(id, self.restaurant_update_payload())),
            ApiCall::CreateMenuItem { restaurant_id, index } => {
                if index < self.form_menu_items.len() {
                    let item = &self.form_menu_items[index];
                    assert(self@.form_menu_items[index as int] == item@);
                    let p = MenuItemCreate {
                        name: item.name.clone(),
                        description: copy_opt(&item.description),
                        price: copy_opt(&item.price),
                        sort_order: Some(item.sort_order),
                    };
                    Some(api.create_menu_item_request(restaurant_id, p))
                } else {
                    None
                }
            },
            ApiCall::UpdateMenuItem { restaurant_id, index } => {
                if index < self.form_menu_items.len() {
                    let item = &self.form_menu_items[index];
                    assert(self@.form_menu_items[index as int] == item@);
                    let p = MenuItemUpdate {
                        name: Some(item.name.clone()),
                        description: copy_opt(&item.description),
                        price: copy_opt(&item.price),
                        is_sold_out: Some(item.is_sold_out),
                        sort_order: Some(item.sort_order),
                    };
                    Some(api.update_menu_item_request(restaurant_id, item.id, p))
                } else {
                    None
                }
            },
            ApiCall::DeleteMenuItem { restaurant_id, item_id } => Some(
                api.delete_menu_item_request(restaurant_id, item_id),
            ),
        }
    }
}

} // verus!
