//! The data exchanged with the restaurant API, the client session (base URL,
//! bearer token, signed-in user) and the requests the client sends: method,
//! URL, authorization header and body, for every endpoint. Sending the
//! request and decoding JSON replies is the transport's job (`app/`); the
//! library decides what a reply status means.

use vstd::prelude::*;
use vstd::string::*;
use crate::text::{opt_view, int_text, append_int};

verus! {

/// The kind of establishment a restaurant entry describes.
#[derive(Clone, Copy, Debug, PartialEq, Eq, Structural)]
pub enum RestaurantType {
    FoodStall,
    FoodTruck,
    FoodCart,
    BrickAndMortar,
}

impl RestaurantType {
    /// The label the API and the screens use for each kind.
    pub open spec fn label(self) -> Seq<char> {
        match self {
            RestaurantType::FoodStall => "Food Stall"@,
            RestaurantType::FoodTruck => "Food Truck"@,
            RestaurantType::FoodCart => "Food Cart"@,
            RestaurantType::BrickAndMortar => "Brick and mortar Restaurant"@,
        }
    }

    pub fn as_str(&self) -> (r: &'static str)
        ensures
            r@ == self.label(),
    {
        match self {
            RestaurantType::FoodStall => "Food Stall",
            RestaurantType::FoodTruck => "Food Truck",
            RestaurantType::FoodCart => "Food Cart",
            RestaurantType::BrickAndMortar => "Brick and mortar Restaurant",
        }
    }

    /// The kind that follows this one when the type field is cycled.
    pub open spec fn spec_next(self) -> RestaurantType {
        match self {
            RestaurantType::FoodStall => RestaurantType::FoodTruck,
            RestaurantType::FoodTruck => RestaurantType::FoodCart,
            RestaurantType::FoodCart => RestaurantType::BrickAndMortar,
            RestaurantType::BrickAndMortar => RestaurantType::FoodStall,
        }
    }

    #[verifier::when_used_as_spec(spec_next)]
    pub fn next(self) -> (r: RestaurantType)
        ensures
            r == self.spec_next(),
    {
        match self {
            RestaurantType::FoodStall => RestaurantType::FoodTruck,
            RestaurantType::FoodTruck => RestaurantType::FoodCart,
            RestaurantType::FoodCart => RestaurantType::BrickAndMortar,
            RestaurantType::BrickAndMortar => RestaurantType::FoodStall,
        }
    }

    /// The location kind a new or edited entry of this type is filed under.
    pub open spec fn location_kind(self) -> Seq<char> {
        match self {
            RestaurantType::BrickAndMortar => "street_address"@,
            RestaurantType::FoodCart => "food_court"@,
            RestaurantType::FoodTruck => "gps"@,
            RestaurantType::FoodStall => "intersection"@,
        }
    }

    pub fn location_kind_str(&self) -> (r: &'static str)
        ensures
            r@ == self.location_kind(),
    {
        match self {
            RestaurantType::BrickAndMortar => "street_address",
            RestaurantType::FoodCart => "food_court",
            RestaurantType::FoodTruck => "gps",
            RestaurantType::FoodStall => "intersection",
        }
    }
}

/// The role of a signed-in user.
#[derive(Clone, Copy, Debug, PartialEq, Eq, Structural)]
pub enum UserRole {
    Admin,
    Customer,
    Consumer,
}

impl UserRole {
    /// The role's name as `{:?}` prints it.
    pub open spec fn name(self) -> Seq<char> {
        match self {
            UserRole::Admin => "Admin"@,
            UserRole::Customer => "Customer"@,
            UserRole::Consumer => "Consumer"@,
        }
    }

    pub fn name_str(&self) -> (r: &'static str)
        ensures
            r@ == self.name(),
    {
        match self {
            UserRole::Admin => "Admin",
            UserRole::Customer => "Customer",
            UserRole::Consumer => "Consumer",
        }
    }

    /// The role that follows this one when the sign-up role field is cycled.
    pub open spec fn spec_next(self) -> UserRole {
        match self {
            UserRole::Customer => UserRole::Admin,
            UserRole::Admin => UserRole::Consumer,
            UserRole::Consumer => UserRole::Customer,
        }
    }

    #[verifier::when_used_as_spec(spec_next)]
    pub fn next(self) -> (r: UserRole)
        ensures
            r == self.spec_next(),
    {
        match self {
            UserRole::Customer => UserRole::Admin,
            UserRole::Admin => UserRole::Consumer,
            UserRole::Consumer => UserRole::Customer,
        }
    }
}

/// Copies an optional string.
pub fn copy_opt(o: &Option<String>) -> (r: Option<String>)
    ensures
        r == *o,
{
    match o {
        Some(s) => Some(s.clone()),
        None => None,
    }
}

/// Where a restaurant is. Coordinates are kept as the decimal text of the
/// numbers the API sent.
#[derive(Clone, Debug)]
pub struct Location {
    pub id: i32,
    pub location_type: String,
    pub formatted: String,
    pub description: Option<String>,
    pub lat: Option<String>,
    pub lng: Option<String>,
    pub address: Option<String>,
    pub city: Option<String>,
    pub state: Option<String>,
    pub zip_code: Option<String>,
    pub road_1: Option<String>,
    pub road_2: Option<String>,
    pub venue_name: Option<String>,
    pub stall_number: Option<String>,
    pub lot_name: Option<String>,
}

impl Location {
    pub fn duplicate(&self) -> (r: Location)
        ensures
            r == *self,
    {
        Location {
            id: self.id,
            location_type: self.location_type.clone(),
            formatted: self.formatted.clone(),
            description: copy_opt(&self.description),
            lat: copy_opt(&self.lat),
            lng: copy_opt(&self.lng),
            address: copy_opt(&self.address),
            city: copy_opt(&self.city),
            state: copy_opt(&self.state),
            zip_code: copy_opt(&self.zip_code),
            road_1: copy_opt(&self.road_1),
            road_2: copy_opt(&self.road_2),
            venue_name: copy_opt(&self.venue_name),
            stall_number: copy_opt(&self.stall_number),
            lot_name: copy_opt(&self.lot_name),
        }
    }
}

/// A menu entry. The price is kept as decimal text; an entry typed into the
/// form and not yet saved has id 0.
#[derive(Clone, Debug)]
pub struct MenuItem {
    pub id: i64,
    pub restaurant_id: i64,
    pub name: String,
    pub description: Option<String>,
    pub price: Option<String>,
    pub is_sold_out: bool,
    pub sort_order: i32,
}

/// A menu entry with its texts as character sequences.
pub struct MenuItemView {
    pub id: i64,
    pub restaurant_id: i64,
    pub name: Seq<char>,
    pub description: Option<Seq<char>>,
    pub price: Option<Seq<char>>,
    pub is_sold_out: bool,
    pub sort_order: i32,
}

impl View for MenuItem {
    type V = MenuItemView;

    open spec fn view(&self) -> MenuItemView {
        MenuItemView {
            id: self.id,
            restaurant_id: self.restaurant_id,
            name: self.name@,
            description: opt_view(self.description),
            price: opt_view(self.price),
            is_sold_out: self.is_sold_out,
            sort_order: self.sort_order,
        }
    }
}

impl MenuItem {
    pub fn duplicate(&self) -> (r: MenuItem)
        ensures
            r == *self,
    {
        MenuItem {
            id: self.id,
            restaurant_id: self.restaurant_id,
            name: self.name.clone(),
            description: copy_opt(&self.description),
            price: copy_opt(&self.price),
            is_sold_out: self.is_sold_out,
            sort_order: self.sort_order,
        }
    }
}

/// The views of a list of menu entries.
pub open spec fn menu_views(items: Seq<MenuItem>) -> Seq<MenuItemView> {
    items.map_values(|m: MenuItem| m@)
}

/// Copies a list of menu entries.
pub fn copy_menu(items: &Vec<MenuItem>) -> (r: Vec<MenuItem>)
    ensures
        r@ == items@,
{
    let mut out: Vec<MenuItem> = Vec::new();
    let mut i: usize = 0;
    while i < items.len()
        invariant
            i <= items.len(),
            out@ == items@.subrange(0, i as int),
        decreases items.len() - i,
    {
        out.push(items[i].duplicate());
        i = i + 1;
        assert(out@ =~= items@.subrange(0, i as int));
    }
    assert(items@.subrange(0, items.len() as int) =~= items@);
    out
}

/// A restaurant entry as the API lists it.
#[derive(Clone, Debug)]
pub struct Restaurant {
    pub id: i32,
    pub name: String,
    pub restaurant_type: RestaurantType,
    pub cuisine_type: String,
    pub location: Location,
    pub open_time: String,
    pub close_time: String,
    pub open_status: bool,
    pub description: Option<String>,
    pub is_approved: bool,
    pub owner_id: Option<i32>,
    pub menu_items: Vec<MenuItem>,
}

impl Restaurant {
    /// A copy of the entry.
    pub fn duplicate(&self) -> (r: Restaurant)
        ensures
            r.id == self.id,
            r.name == self.name,
            r.restaurant_type == self.restaurant_type,
            r.cuisine_type == self.cuisine_type,
            r.location == self.location,
            r.open_time == self.open_time,
            r.close_time == self.close_time,
            r.open_status == self.open_status,
            r.description == self.description,
            r.is_approved == self.is_approved,
            r.owner_id == self.owner_id,
            r.menu_items@ == self.menu_items@,
    {
        Restaurant {
            id: self.id,
            name: self.name.clone(),
            restaurant_type: self.restaurant_type,
            cuisine_type: self.cuisine_type.clone(),
            location: self.location.duplicate(),
            open_time: self.open_time.clone(),
            close_time: self.close_time.clone(),
            open_status: self.open_status,
            description: copy_opt(&self.description),
            is_approved: self.is_approved,
            owner_id: self.owner_id,
            menu_items: copy_menu(&self.menu_items),
        }
    }
}

/// The location part of a new entry.
#[derive(Clone, Debug)]
pub struct LocationCreatePayload {
    pub location_type: String,
    pub description: Option<String>,
    pub lat: Option<String>,
    pub lng: Option<String>,
    pub address: Option<String>,
    pub city: Option<String>,
    pub state: Option<String>,
    pub zip_code: Option<String>,
    pub road_1: Option<String>,
    pub road_2: Option<String>,
    pub venue_name: Option<String>,
    pub stall_number: Option<String>,
    pub lot_name: Option<String>,
}

/// The location part of a change to an entry.
#[derive(Clone, Debug)]
pub struct LocationUpdatePayload {
    pub description: Option<String>,
    pub lat: Option<String>,
    pub lng: Option<String>,
    pub address: Option<String>,
    pub city: Option<String>,
    pub state: Option<String>,
    pub zip_code: Option<String>,
    pub road_1: Option<String>,
    pub road_2: Option<String>,
    pub venue_name: Option<String>,
    pub stall_number: Option<String>,
    pub lot_name: Option<String>,
}

/// A new restaurant entry.
#[derive(Clone, Debug)]
pub struct RestaurantCreate {
    pub name: String,
    pub restaurant_type: RestaurantType,
    pub cuisine_type: String,
    pub location: LocationCreatePayload,
    pub open_time: String,
    pub close_time: String,
    pub open_status: bool,
    pub description: Option<String>,
}

/// A change to a restaurant entry; absent fields stay as they are.
#[derive(Clone, Debug)]
pub struct RestaurantUpdate {
    pub name: Option<String>,
    pub restaurant_type: Option<RestaurantType>,
    pub cuisine_type: Option<String>,
    pub location: Option<LocationUpdatePayload>,
    pub open_time: Option<String>,
    pub close_time: Option<String>,
    pub open_status: Option<bool>,
    pub description: Option<String>,
}

#[derive(Clone, Copy, Debug, PartialEq, Eq, Structural)]
pub struct RestaurantStatusUpdate {
    pub open_status: bool,
}

#[derive(Clone, Copy, Debug, PartialEq, Eq, Structural)]
pub struct RestaurantApproval {
    pub is_approved: bool,
}

/// A new menu entry.
#[derive(Clone, Debug)]
pub struct MenuItemCreate {
    pub name: String,
    pub description: Option<String>,
    pub price: Option<String>,
    pub sort_order: Option<i32>,
}

/// A change to a menu entry.
#[derive(Clone, Debug)]
pub struct MenuItemUpdate {
    pub name: Option<String>,
    pub description: Option<String>,
    pub price: Option<String>,
    pub is_sold_out: Option<bool>,
    pub sort_order: Option<i32>,
}

/// The reply to a successful sign-in.
#[derive(Clone, Debug)]
pub struct TokenResponse {
    pub access_token: String,
    pub token_type: String,
    pub role: UserRole,
    pub username: String,
}

/// A user account as the API describes it.
#[derive(Clone, Debug)]
pub struct UserResponse {
    pub id: i32,
    pub username: String,
    pub role: UserRole,
}

#[derive(Clone, Copy, Debug, PartialEq, Eq, Structural)]
pub struct FavoriteCreate {
    pub restaurant_id: i32,
}

/// A favorite of a consumer, with the restaurant it points at when the API
/// includes it.
#[derive(Clone, Debug)]
pub struct FavoriteResponse {
    pub id: i32,
    pub consumer_id: i32,
    pub restaurant_id: i32,
    pub restaurant: Option<Restaurant>,
}

/// What went wrong with an API call.
#[derive(Clone, Debug)]
pub enum ApiError {
    /// The server answered with an error status other than 401 and 403; the
    /// text is the transport's description of the failure.
    Http(String),
    Unauthorized,
    Forbidden,
    ValidationError(String),
    /// No usable answer: the server was not reached, the reply could not be
    /// read, or its status was neither a success nor an error.
    Network,
}

/// A 2xx status.
pub open spec fn is_success_status(status: u16) -> bool {
    200 <= status <= 299
}

/// A 4xx or 5xx status: one that the transport reports as an error.
pub open spec fn is_error_status(status: u16) -> bool {
    400 <= status <= 599
}

pub fn success_status(status: u16) -> (r: bool)
    ensures
        r == is_success_status(status),
{
    200 <= status && status <= 299
}

impl ApiError {
    /// The message shown for the error.
    pub open spec fn text(self) -> Seq<char> {
        match self {
            ApiError::Http(d) => "HTTP error: "@ + d@,
            ApiError::Unauthorized => "Incorrect username or password"@,
            ApiError::Forbidden => "Access denied: insufficient permissions"@,
            ApiError::ValidationError(m) => "Validation error: "@ + m@,
            ApiError::Network => "Network error: check connection"@,
        }
    }

    pub fn message(&self) -> (r: String)
        ensures
            r@ == self.text(),
    {
        match self {
            ApiError::Http(d) => {
                let mut s = "HTTP error: ".to_string();
                s.append(d.as_str());
                s
            },
            ApiError::Unauthorized => "Incorrect username or password".to_string(),
            ApiError::Forbidden => "Access denied: insufficient permissions".to_string(),
            ApiError::ValidationError(m) => {
                let mut s = "Validation error: ".to_string();
                s.append(m.as_str());
                s
            },
            ApiError::Network => "Network error: check connection".to_string(),
        }
    }

    /// The error for a failed transfer: by the status the server answered
    /// with, if any, and the transport's description of the failure.
    pub open spec fn from_failure_spec(status: Option<u16>, detail: String) -> ApiError {
        match status {
            Some(401) => ApiError::Unauthorized,
            Some(403) => ApiError::Forbidden,
            Some(_) => ApiError::Http(detail),
            None => ApiError::Network,
        }
    }

    pub fn from_failure(status: Option<u16>, detail: String) -> (r: ApiError)
        ensures
            r == Self::from_failure_spec(status, detail),
    {
        match status {
            Some(code) => {
                if code == 401 {
                    ApiError::Unauthorized
                } else if code == 403 {
                    ApiError::Forbidden
                } else {
                    ApiError::Http(detail)
                }
            },
            None => ApiError::Network,
        }
    }

    /// The error for a reply whose status is not a success: an error status
    /// fails as the transport reports it, any other status as `Network`.
    pub open spec fn for_status_spec(status: u16, detail: String) -> ApiError {
        if is_error_status(status) {
            Self::from_failure_spec(Some(status), detail)
        } else {
            ApiError::Network
        }
    }

    pub fn for_status(status: u16, detail: String) -> (r: ApiError)
        ensures
            r == Self::for_status_spec(status, detail),
    {
        if 400 <= status && status <= 599 {
            Self::from_failure(Some(status), detail)
        } else {
            ApiError::Network
        }
    }
}

/// A character that an HTTP header value may hold: its UTF-8 bytes are
/// tab, or at least 32 and not 127 (every byte of a non-ASCII character is
/// at least 128).
pub open spec fn is_header_char(c: char) -> bool {
    (c as u32 >= 32 && c as u32 != 127) || c as u32 == 9
}

/// `reqwest::header::HeaderValue::from_str` (the `http` crate's): it accepts
/// a string exactly when every byte is tab or at least 32 and not 127. On
/// characters that is `is_header_char` for each one. The contract claims
/// only whether the value is accepted.
#[verifier::external_body]
fn header_value_accepts(s: &str) -> (r: bool)
    ensures
        r == (forall|i: int| 0 <= i < s@.len() ==> is_header_char(#[trigger] s@[i])),
{
    reqwest::header::HeaderValue::from_str(s).is_ok()
}

/// `s` without its trailing slashes.
pub open spec fn trim_trailing_slashes(s: Seq<char>) -> Seq<char>
    decreases s.len(),
{
    if s.len() > 0 && s.last() == '/' {
        trim_trailing_slashes(s.drop_last())
    } else {
        s
    }
}

/// The client's session: where the API is, and who is signed in.
pub struct ApiClient {
    pub base_url: String,
    pub token: Option<String>,
    pub username: Option<String>,
    pub role: Option<UserRole>,
}

/// HTTP methods the API uses.
#[derive(Clone, Copy, Debug, PartialEq, Eq, Structural)]
pub enum HttpMethod {
    Get,
    Post,
    Put,
    Patch,
    Delete,
}

/// The JSON body of a request, as the values it is made of.
#[derive(Clone, Debug)]
pub enum RequestBody {
    Empty,
    Credentials { username: String, password: String },
    Registration { username: String, password: String, role: UserRole },
    PasswordReset { username: String, new_password: String },
    NewRestaurant(RestaurantCreate),
    RestaurantChanges(RestaurantUpdate),
    Status(RestaurantStatusUpdate),
    Approval(RestaurantApproval),
    Favorite(FavoriteCreate),
    NewMenuItem(MenuItemCreate),
    MenuItemChanges(MenuItemUpdate),
    SoldOut { is_sold_out: bool },
}

/// A request to send: method, full URL, the `Authorization` header value if
/// one is sent, and the body.
#[derive(Clone, Debug)]
pub struct HttpRequest {
    pub method: HttpMethod,
    pub url: String,
    pub authorization: Option<String>,
    pub body: RequestBody,
}

impl ApiClient {
    pub fn new(base_url: &str) -> (r: ApiClient)
        ensures
            r.base_url@ == trim_trailing_slashes(base_url@),
            r.token is None,
            r.username is None,
            r.role is None,
    {
        let n = base_url.unicode_len();
        let mut end: usize = n;
        assert(base_url@.subrange(0, n as int) =~= base_url@);
        while end > 0 && base_url.get_char(end - 1) == '/'
            invariant
                n == base_url@.len(),
                end <= n,
                trim_trailing_slashes(base_url@) == trim_trailing_slashes(base_url@.subrange(0, end as int)),
            decreases end,
        {
            assert(base_url@.subrange(0, end as int).drop_last() =~= base_url@.subrange(0, end - 1));
            end = end - 1;
        }
        let kept = base_url.substring_char(0, end);
        ApiClient { base_url: kept.to_string(), token: None, username: None, role: None }
    }

    /// Records the signed-in user.
    pub fn set_token(&mut self, token: String, username: String, role: UserRole)
        ensures
            final(self).base_url == old(self).base_url,
            final(self).token == Some(token),
            final(self).username == Some(username),
            final(self).role == Some(role),
    {
        self.token = Some(token);
        self.username = Some(username);
        self.role = Some(role);
    }

    /// Forgets the signed-in user.
    pub fn logout(&mut self)
        ensures
            final(self).base_url == old(self).base_url,
            final(self).token is None,
            final(self).username is None,
            final(self).role is None,
    {
        self.token = None;
        self.username = None;
        self.role = None;
    }

    /// The `Authorization` header sent with authenticated requests:
    /// `Bearer <token>` when there is a token that a header value can hold.
    pub open spec fn authorization_spec(self) -> Option<Seq<char>> {
        match self.token {
            Some(t) => {
                let v = "Bearer "@ + t@;
                if forall|i: int| 0 <= i < v.len() ==> is_header_char(#[trigger] v[i]) {
                    Some(v)
                } else {
                    None
                }
            },
            None => None,
        }
    }

    pub fn authorization(&self) -> (r: Option<String>)
        ensures
            opt_view(r) == self.authorization_spec(),
    {
        match &self.token {
            Some(t) => {
                let mut v = "Bearer ".to_string();
                v.append(t.as_str());
                if header_value_accepts(v.as_str()) {
                    Some(v)
                } else {
                    None
                }
            },
            None => None,
        }
    }

    /// The URL of `path` on this API.
    pub fn endpoint(&self, path: &str) -> (r: String)
        ensures
            r@ == self.base_url@ + path@,
    {
        let mut u = self.base_url.clone();
        u.append(path);
        u
    }

    /// The URL of `prefix`, a number and `suffix` on this API.
    pub fn endpoint_with_id(&self, prefix: &str, id: i64, suffix: &str) -> (r: String)
        ensures
            r@ == self.base_url@ + prefix@ + int_text(id as int) + suffix@,
    {
        let mut u = self.base_url.clone();
        u.append(prefix);
        append_int(&mut u, id);
        u.append(suffix);
        u
    }

    /// The URL of a menu entry (`/restaurants/<r>/menu-items/<i>`) followed
    /// by `suffix`.
    pub fn menu_item_endpoint(&self, restaurant_id: i32, item_id: i64, suffix: &str) -> (r: String)
        ensures
            r@ == self.base_url@ + "/restaurants/"@ + int_text(restaurant_id as int) + "/menu-items/"@
                + int_text(item_id as int) + suffix@,
    {
        let mut u = self.endpoint_with_id("/restaurants/", restaurant_id as i64, "/menu-items/");
        append_int(&mut u, item_id);
        u.append(suffix);
        u
    }
}


/// The requests of the API's endpoints. Sign-in, sign-up and password reset
/// go without an `Authorization` header; every other request carries the
/// session's one (`authorization_spec`).
impl ApiClient {
    pub fn login_request(&self, username: &str, password: &str) -> (r: HttpRequest)
        ensures
            r.method == HttpMethod::Post,
            r.url@ == self.base_url@ + "/auth/login"@,
            r.authorization is None,
            r.body matches RequestBody::Credentials { username: u, password: p } && u@ == username@
                && p@ == password@,
    {
        HttpRequest {
            method: HttpMethod::Post,
            url: self.endpoint("/auth/login"),
            authorization: None,
            body: RequestBody::Credentials { username: username.to_string(), password: password.to_string() },
        }
    }

    pub fn signup_request(&self, username: &str, password: &str, role: UserRole) -> (r: HttpRequest)
        ensures
            r.method == HttpMethod::Post,
            r.url@ == self.base_url@ + "/auth/signup"@,
            r.authorization is None,
            r.body matches RequestBody::Registration { username: u, password: p, role: ro } && u@ == username@
                && p@ == password@ && ro == role,
    {
        HttpRequest {
            method: HttpMethod::Post,
            url: self.endpoint("/auth/signup"),
            authorization: None,
            body: RequestBody::Registration {
                username: username.to_string(),
                password: password.to_string(),
                role,
            },
        }
    }

    pub fn reset_password_request(&self, username: &str, new_password: &str) -> (r: HttpRequest)
        ensures
            r.method == HttpMethod::Post,
            r.url@ == self.base_url@ + "/auth/reset-password"@,
            r.authorization is None,
            r.body matches RequestBody::PasswordReset { username: u, new_password: p } && u@ == username@
                && p@ == new_password@,
    {
        HttpRequest {
            method: HttpMethod::Post,
            url: self.endpoint("/auth/reset-password"),
            authorization: None,
            body: RequestBody::PasswordReset {
                username: username.to_string(),
                new_password: new_password.to_string(),
            },
        }
    }

    /// The URL of the restaurant list, filtered by name when a non-empty
    /// filter is given (the filter is appended as it is).
    pub open spec fn restaurants_url(self, name_filter: Option<Seq<char>>) -> Seq<char> {
        match name_filter {
            Some(n) => if n.len() > 0 {
                self.base_url@ + "/restaurants"@ + "?name="@ + n
            } else {
                self.base_url@ + "/restaurants"@
            },
            None => self.base_url@ + "/restaurants"@,
        }
    }

    pub fn get_restaurants_request(&self, name_filter: Option<&str>) -> (r: HttpRequest)
        ensures
            r.method == HttpMethod::Get,
            r.url@ == self.restaurants_url(
                match name_filter {
                    Some(n) => Some(n@),
                    None => None,
                },
            ),
            opt_view(r.authorization) == self.authorization_spec(),
            r.body is Empty,
    {
        let mut url = self.endpoint("/restaurants");
        match name_filter {
            Some(n) => {
                if !n.is_empty() {
                    url.append("?name=");
                    url.append(n);
                }
            },
            None => {},
        }
        HttpRequest { method: HttpMethod::Get, url, authorization: self.authorization(), body: RequestBody::Empty }
    }

    pub fn create_restaurant_request(&self, r: RestaurantCreate) -> (req: HttpRequest)
        ensures
            req.method == HttpMethod::Post,
            req.url@ == self.base_url@ + "/restaurants"@,
            opt_view(req.authorization) == self.authorization_spec(),
            req.body == RequestBody::NewRestaurant(r),
    {
        HttpRequest {
            method: HttpMethod::Post,
            url: self.endpoint("/restaurants"),
            authorization: self.authorization(),
            body: RequestBody::NewRestaurant(r),
        }
    }

    pub fn update_restaurant_request(&self, id: i32, r: RestaurantUpdate) -> (req: HttpRequest)
        ensures
            req.method == HttpMethod::Put,
            req.url@ == self.base_url@ + "/restaurants/"@ + int_text(id as int) + ""@,
            opt_view(req.authorization) == self.authorization_spec(),
            req.body == RequestBody::RestaurantChanges(r),
    {
        HttpRequest {
            method: HttpMethod::Put,
            url: self.endpoint_with_id("/restaurants/", id as i64, ""),
            authorization: self.authorization(),
            body: RequestBody::RestaurantChanges(r),
        }
    }

    pub fn update_restaurant_status_request(&self, id: i32, open_status: bool) -> (req: HttpRequest)
        ensures
            req.method == HttpMethod::Patch,
            req.url@ == self.base_url@ + "/restaurants/"@ + int_text(id as int) + "/status"@,
            opt_view(req.authorization) == self.authorization_spec(),
            req.body == RequestBody::Status(RestaurantStatusUpdate { open_status }),
    {
        HttpRequest {
            method: HttpMethod::Patch,
            url: self.endpoint_with_id("/restaurants/", id as i64, "/status"),
            authorization: self.authorization(),
            body: RequestBody::Status(RestaurantStatusUpdate { open_status }),
        }
    }

    pub fn delete_restaurant_request(&self, id: i32) -> (req: HttpRequest)
        ensures
            req.method == HttpMethod::Delete,
            req.url@ == self.base_url@ + "/restaurants/"@ + int_text(id as int) + ""@,
            opt_view(req.authorization) == self.authorization_spec(),
            req.body is Empty,
    {
        HttpRequest {
            method: HttpMethod::Delete,
            url: self.endpoint_with_id("/restaurants/", id as i64, ""),
            authorization: self.authorization(),
            body: RequestBody::Empty,
        }
    }

    pub fn submit_restaurant_request(&self, r: RestaurantCreate) -> (req: HttpRequest)
        ensures
            req.method == HttpMethod::Post,
            req.url@ == self.base_url@ + "/restaurants/submit"@,
            opt_view(req.authorization) == self.authorization_spec(),
            req.body == RequestBody::NewRestaurant(r),
    {
        HttpRequest {
            method: HttpMethod::Post,
            url: self.endpoint("/restaurants/submit"),
            authorization: self.authorization(),
            body: RequestBody::NewRestaurant(r),
        }
    }

    pub fn get_my_restaurants_request(&self) -> (req: HttpRequest)
        ensures
            req.method == HttpMethod::Get,
            req.url@ == self.base_url@ + "/me/restaurants"@,
            opt_view(req.authorization) == self.authorization_spec(),
            req.body is Empty,
    {
        HttpRequest {
            method: HttpMethod::Get,
            url: self.endpoint("/me/restaurants"),
            authorization: self.authorization(),
            body: RequestBody::Empty,
        }
    }

    pub fn approve_restaurant_request(&self, id: i32, is_approved: bool) -> (req: HttpRequest)
        ensures
            req.method == HttpMethod::Patch,
            req.url@ == self.base_url@ + "/restaurants/"@ + int_text(id as int) + "/approve"@,
            opt_view(req.authorization) == self.authorization_spec(),
            req.body == RequestBody::Approval(RestaurantApproval { is_approved }),
    {
        HttpRequest {
            method: HttpMethod::Patch,
            url: self.endpoint_with_id("/restaurants/", id as i64, "/approve"),
            authorization: self.authorization(),
            body: RequestBody::Approval(RestaurantApproval { is_approved }),
        }
    }

    pub fn add_favorite_request(&self, restaurant_id: i32) -> (req: HttpRequest)
        ensures
            req.method == HttpMethod::Post,
            req.url@ == self.base_url@ + "/favorites"@,
            opt_view(req.authorization) == self.authorization_spec(),
            req.body == RequestBody::Favorite(FavoriteCreate { restaurant_id }),
    {
        HttpRequest {
            method: HttpMethod::Post,
            url: self.endpoint("/favorites"),
            authorization: self.authorization(),
            body: RequestBody::Favorite(FavoriteCreate { restaurant_id }),
        }
    }

    pub fn remove_favorite_request(&self, favorite_id: i32) -> (req: HttpRequest)
        ensures
            req.method == HttpMethod::Delete,
            req.url@ == self.base_url@ + "/favorites/"@ + int_text(favorite_id as int) + ""@,
            opt_view(req.authorization) == self.authorization_spec(),
            req.body is Empty,
    {
        HttpRequest {
            method: HttpMethod::Delete,
            url: self.endpoint_with_id("/favorites/", favorite_id as i64, ""),
            authorization: self.authorization(),
            body: RequestBody::Empty,
        }
    }

    pub fn get_favorites_request(&self) -> (req: HttpRequest)
        ensures
            req.method == HttpMethod::Get,
            req.url@ == self.base_url@ + "/favorites"@,
            opt_view(req.authorization) == self.authorization_spec(),
            req.body is Empty,
    {
        HttpRequest {
            method: HttpMethod::Get,
            url: self.endpoint("/favorites"),
            authorization: self.authorization(),
            body: RequestBody::Empty,
        }
    }

    pub fn create_menu_item_request(&self, restaurant_id: i32, item: MenuItemCreate) -> (req: HttpRequest)
        ensures
            req.method == HttpMethod::Post,
            req.url@ == self.base_url@ + "/restaurants/"@ + int_text(restaurant_id as int) + "/menu-items"@,
            opt_view(req.authorization) == self.authorization_spec(),
            req.body == RequestBody::NewMenuItem(item),
    {
        HttpRequest {
            method: HttpMethod::Post,
            url: self.endpoint_with_id("/restaurants/", restaurant_id as i64, "/menu-items"),
            authorization: self.authorization(),
            body: RequestBody::NewMenuItem(item),
        }
    }

    pub fn get_menu_items_request(&self, restaurant_id: i32) -> (req: HttpRequest)
        ensures
            req.method == HttpMethod::Get,
            req.url@ == self.base_url@ + "/restaurants/"@ + int_text(restaurant_id as int) + "/menu-items"@,
            opt_view(req.authorization) == self.authorization_spec(),
            req.body is Empty,
    {
        HttpRequest {
            method: HttpMethod::Get,
            url: self.endpoint_with_id("/restaurants/", restaurant_id as i64, "/menu-items"),
            authorization: self.authorization(),
            body: RequestBody::Empty,
        }
    }

    pub fn update_menu_item_request(&self, restaurant_id: i32, item_id: i64, item: MenuItemUpdate) -> (req: HttpRequest)
        ensures
            req.method == HttpMethod::Put,
            req.url@ == self.base_url@ + "/restaurants/"@ + int_text(restaurant_id as int) + "/menu-items/"@
                + int_text(item_id as int) + ""@,
            opt_view(req.authorization) == self.authorization_spec(),
            req.body == RequestBody::MenuItemChanges(item),
    {
        HttpRequest {
            method: HttpMethod::Put,
            url: self.menu_item_endpoint(restaurant_id, item_id, ""),
            authorization: self.authorization(),
            body: RequestBody::MenuItemChanges(item),
        }
    }

    pub fn delete_menu_item_request(&self, restaurant_id: i32, item_id: i64) -> (req: HttpRequest)
        ensures
            req.method == HttpMethod::Delete,
            req.url@ == self.base_url@ + "/restaurants/"@ + int_text(restaurant_id as int) + "/menu-items/"@
                + int_text(item_id as int) + ""@,
            opt_view(req.authorization) == self.authorization_spec(),
            req.body is Empty,
    {
        HttpRequest {
            method: HttpMethod::Delete,
            url: self.menu_item_endpoint(restaurant_id, item_id, ""),
            authorization: self.authorization(),
            body: RequestBody::Empty,
        }
    }

    pub fn toggle_sold_out_request(&self, restaurant_id: i32, item_id: i64, is_sold_out: bool) -> (req: HttpRequest)
        ensures
            req.method == HttpMethod::Patch,
            req.url@ == self.base_url@ + "/restaurants/"@ + int_text(restaurant_id as int) + "/menu-items/"@
                + int_text(item_id as int) + "/sold-out"@,
            opt_view(req.authorization) == self.authorization_spec(),
            req.body == (RequestBody::SoldOut { is_sold_out }),
    {
        HttpRequest {
            method: HttpMethod::Patch,
            url: self.menu_item_endpoint(restaurant_id, item_id, "/sold-out"),
            authorization: self.authorization(),
            body: RequestBody::SoldOut { is_sold_out },
        }
    }
}

} // verus!
