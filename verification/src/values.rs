//! Validated session values: container images, lifetimes, resource
//! quantities, and routing selectors.

use vstd::prelude::*;
use crate::text::{push_str, string_of};
use crate::token::{
    alnum_boundary_text, header_name_check, header_value_check, image_ref_check,
    resource_quantity_check, route_host_check, shape_message, shape_text, time_to_live_check,
    validate_image_ref, validate_resource_quantity, validate_route_header_name,
    validate_route_header_value, validate_route_host, validate_time_to_live, ImageRefError,
    RouteHostError, ShapeError, TimeToLiveError,
};

verus! {

/// Error returned when a [`ResourceQuantity`] is not valid.
#[derive(Debug, Clone, Copy, PartialEq, Eq, Structural)]
pub enum ResourceQuantityError {
    /// Resource quantities cannot be empty.
    Empty,
    /// Resource quantities must stay bounded for stable reports and labels.
    TooLong { max_len: usize },
    /// Resource quantities must start and end with an ASCII letter or digit.
    InvalidBoundary,
    /// Resource quantities only allow ASCII letters, digits, dots, plus, minus, and underscores.
    InvalidCharacter { character: char },
}

impl ResourceQuantityError {
    /// The error for a token that failed with `e`.
    pub open spec fn of_shape(e: ShapeError) -> Self {
        match e {
            ShapeError::Empty => ResourceQuantityError::Empty,
            ShapeError::TooLong { max_len } => ResourceQuantityError::TooLong { max_len },
            ShapeError::InvalidBoundary => ResourceQuantityError::InvalidBoundary,
            ShapeError::InvalidCharacter { character } => ResourceQuantityError::InvalidCharacter { character },
        }
    }

    /// The token failure this error records.
    pub open spec fn shape(self) -> ShapeError {
        match self {
            ResourceQuantityError::Empty => ShapeError::Empty,
            ResourceQuantityError::TooLong { max_len } => ShapeError::TooLong { max_len },
            ResourceQuantityError::InvalidBoundary => ShapeError::InvalidBoundary,
            ResourceQuantityError::InvalidCharacter { character } => ShapeError::InvalidCharacter { character },
        }
    }

    /// Convert a token failure into this error.
    pub fn from_shape(e: ShapeError) -> (r: Self)
        ensures
            r == Self::of_shape(e),
            r.shape() == e,
    {
        match e {
            ShapeError::Empty => ResourceQuantityError::Empty,
            ShapeError::TooLong { max_len } => ResourceQuantityError::TooLong { max_len },
            ShapeError::InvalidBoundary => ResourceQuantityError::InvalidBoundary,
            ShapeError::InvalidCharacter { character } => ResourceQuantityError::InvalidCharacter { character },
        }
    }

    /// The human-readable message for this error.
    pub open spec fn text(self) -> Seq<char> {
        shape_text("resource quantity"@, alnum_boundary_text(), self.shape())
    }

    /// Render the human-readable message for this error.
    pub fn to_string(&self) -> (m: String)
        ensures
            m@ == self.text(),
    {
        let e = match *self {
            ResourceQuantityError::Empty => ShapeError::Empty,
            ResourceQuantityError::TooLong { max_len } => ShapeError::TooLong { max_len },
            ResourceQuantityError::InvalidBoundary => ShapeError::InvalidBoundary,
            ResourceQuantityError::InvalidCharacter { character } => ShapeError::InvalidCharacter { character },
        };
        shape_message("resource quantity", " must start and end with an ASCII letter or digit", e)
    }
}

/// Error returned when a route header name is not valid.
#[derive(Debug, Clone, Copy, PartialEq, Eq, Structural)]
pub enum RouteHeaderNameError {
    /// Header names cannot be empty.
    Empty,
    /// Header names must stay bounded for stable reports.
    TooLong { max_len: usize },
    /// Header names only allow ASCII HTTP token characters.
    InvalidCharacter { character: char },
}

impl RouteHeaderNameError {
    /// The error for a token that failed with `e`.
    pub open spec fn of_shape(e: ShapeError) -> Self {
        match e {
            ShapeError::Empty => RouteHeaderNameError::Empty,
            ShapeError::TooLong { max_len } => RouteHeaderNameError::TooLong { max_len },
            ShapeError::InvalidBoundary => RouteHeaderNameError::Empty,
            ShapeError::InvalidCharacter { character } => RouteHeaderNameError::InvalidCharacter { character },
        }
    }

    /// The token failure this error records.
    pub open spec fn shape(self) -> ShapeError {
        match self {
            RouteHeaderNameError::Empty => ShapeError::Empty,
            RouteHeaderNameError::TooLong { max_len } => ShapeError::TooLong { max_len },
            RouteHeaderNameError::InvalidCharacter { character } => ShapeError::InvalidCharacter { character },
        }
    }

    /// Convert a token failure into this error.
    pub fn from_shape(e: ShapeError) -> (r: Self)
        requires
            e != ShapeError::InvalidBoundary,
        ensures
            r == Self::of_shape(e),
            r.shape() == e,
    {
        match e {
            ShapeError::Empty => RouteHeaderNameError::Empty,
            ShapeError::TooLong { max_len } => RouteHeaderNameError::TooLong { max_len },
            ShapeError::InvalidBoundary => RouteHeaderNameError::Empty,
            ShapeError::InvalidCharacter { character } => RouteHeaderNameError::InvalidCharacter { character },
        }
    }

    /// The human-readable message for this error.
    pub open spec fn text(self) -> Seq<char> {
        shape_text("route header name"@, Seq::<char>::empty(), self.shape())
    }

    /// Render the human-readable message for this error.
    pub fn to_string(&self) -> (m: String)
        ensures
            m@ == self.text(),
    {
        let e = match *self {
            RouteHeaderNameError::Empty => ShapeError::Empty,
            RouteHeaderNameError::TooLong { max_len } => ShapeError::TooLong { max_len },
            RouteHeaderNameError::InvalidCharacter { character } => ShapeError::InvalidCharacter { character },
        };
        shape_message("route header name", "", e)
    }
}

/// Error returned when a route header value is not valid.
#[derive(Debug, Clone, Copy, PartialEq, Eq, Structural)]
pub enum RouteHeaderValueError {
    /// Header values cannot be empty.
    Empty,
    /// Header values must stay bounded for stable reports.
    TooLong { max_len: usize },
    /// Header values only allow visible ASCII characters.
    InvalidCharacter { character: char },
}

impl RouteHeaderValueError {
    /// The error for a token that failed with `e`.
    pub open spec fn of_shape(e: ShapeError) -> Self {
        match e {
            ShapeError::Empty => RouteHeaderValueError::Empty,
            ShapeError::TooLong { max_len } => RouteHeaderValueError::TooLong { max_len },
            ShapeError::InvalidBoundary => RouteHeaderValueError::Empty,
            ShapeError::InvalidCharacter { character } => RouteHeaderValueError::InvalidCharacter { character },
        }
    }

    /// The token failure this error records.
    pub open spec fn shape(self) -> ShapeError {
        match self {
            RouteHeaderValueError::Empty => ShapeError::Empty,
            RouteHeaderValueError::TooLong { max_len } => ShapeError::TooLong { max_len },
            RouteHeaderValueError::InvalidCharacter { character } => ShapeError::InvalidCharacter { character },
        }
    }

    /// Convert a token failure into this error.
    pub fn from_shape(e: ShapeError) -> (r: Self)
        requires
            e != ShapeError::InvalidBoundary,
        ensures
            r == Self::of_shape(e),
            r.shape() == e,
    {
        match e {
            ShapeError::Empty => RouteHeaderValueError::Empty,
            ShapeError::TooLong { max_len } => RouteHeaderValueError::TooLong { max_len },
            ShapeError::InvalidBoundary => RouteHeaderValueError::Empty,
            ShapeError::InvalidCharacter { character } => RouteHeaderValueError::InvalidCharacter { character },
        }
    }

    /// The human-readable message for this error.
    pub open spec fn text(self) -> Seq<char> {
        shape_text("route header value"@, Seq::<char>::empty(), self.shape())
    }

    /// Render the human-readable message for this error.
    pub fn to_string(&self) -> (m: String)
        ensures
            m@ == self.text(),
    {
        let e = match *self {
            RouteHeaderValueError::Empty => ShapeError::Empty,
            RouteHeaderValueError::TooLong { max_len } => ShapeError::TooLong { max_len },
            RouteHeaderValueError::InvalidCharacter { character } => ShapeError::InvalidCharacter { character },
        };
        shape_message("route header value", "", e)
    }
}

/// Container image reference proposed for a future sandbox workload.
#[derive(Debug, PartialEq, Eq, Hash, PartialOrd, Ord)]
pub struct ImageRef(String);

impl View for ImageRef {
    type V = Seq<char>;

    closed spec fn view(&self) -> Seq<char> {
        self.0@
    }
}

impl ImageRef {
    #[verifier::type_invariant]
    spec fn well_formed(self) -> bool {
        image_ref_check(self.0@) is Ok
    }

    /// Create a [`ImageRef`] from a validated string value.
    pub fn new(value: &str) -> (r: Result<Self, ImageRefError>)
        ensures
            match r {
                Ok(v) => image_ref_check(value@) is Ok && v@ == value@,
                Err(e) => image_ref_check(value@) == Err::<(), ImageRefError>(e),
            },
    {
        match validate_image_ref(value) {
            Ok(()) => Ok(ImageRef(string_of(value))),
            Err(e) => Err(e),
        }
    }

    /// Borrow the image reference as a string slice.
    pub fn as_str(&self) -> (r: &str)
        ensures
            r@ == self@,
            image_ref_check(r@) is Ok,
    {
        proof {
            use_type_invariant(self);
        }
        self.0.as_str()
    }

    /// The image reference as shown to users.
    pub fn to_string(&self) -> (r: String)
        ensures
            r@ == self@,
    {
        self.0.clone()
    }

    /// Give up the wrapper and keep the image reference.
    pub fn into_string(self) -> (r: String)
        ensures
            r@ == self@,
    {
        self.0
    }
}

impl Clone for ImageRef {
    fn clone(&self) -> (r: Self)
        ensures
            r@ == self@,
    {
        proof {
            use_type_invariant(self);
        }
        ImageRef(self.0.clone())
    }
}

/// Positive session lifetime using compact duration spelling.
#[derive(Debug, PartialEq, Eq, Hash, PartialOrd, Ord)]
pub struct TimeToLive(String);

impl View for TimeToLive {
    type V = Seq<char>;

    closed spec fn view(&self) -> Seq<char> {
        self.0@
    }
}

impl TimeToLive {
    #[verifier::type_invariant]
    spec fn well_formed(self) -> bool {
        time_to_live_check(self.0@) is Ok
    }

    /// Create a [`TimeToLive`] from a validated string value.
    pub fn new(value: &str) -> (r: Result<Self, TimeToLiveError>)
        ensures
            match r {
                Ok(v) => time_to_live_check(value@) is Ok && v@ == value@,
                Err(e) => time_to_live_check(value@) == Err::<(), TimeToLiveError>(e),
            },
    {
        match validate_time_to_live(value) {
            Ok(()) => Ok(TimeToLive(string_of(value))),
            Err(e) => Err(e),
        }
    }

    /// Borrow the duration value as a string slice.
    pub fn as_str(&self) -> (r: &str)
        ensures
            r@ == self@,
            time_to_live_check(r@) is Ok,
    {
        proof {
            use_type_invariant(self);
        }
        self.0.as_str()
    }

    /// The duration value as shown to users.
    pub fn to_string(&self) -> (r: String)
        ensures
            r@ == self@,
    {
        self.0.clone()
    }

    /// Give up the wrapper and keep the duration value.
    pub fn into_string(self) -> (r: String)
        ensures
            r@ == self@,
    {
        self.0
    }
}

impl Clone for TimeToLive {
    fn clone(&self) -> (r: Self)
        ensures
            r@ == self@,
    {
        proof {
            use_type_invariant(self);
        }
        TimeToLive(self.0.clone())
    }
}

/// Kubernetes resource quantity string.
#[derive(Debug, PartialEq, Eq, Hash, PartialOrd, Ord)]
pub struct ResourceQuantity(String);

impl View for ResourceQuantity {
    type V = Seq<char>;

    closed spec fn view(&self) -> Seq<char> {
        self.0@
    }
}

impl ResourceQuantity {
    #[verifier::type_invariant]
    spec fn well_formed(self) -> bool {
        resource_quantity_check(self.0@) is Ok
    }

    /// Create a [`ResourceQuantity`] from a validated string value.
    pub fn new(value: &str) -> (r: Result<Self, ResourceQuantityError>)
        ensures
            match r {
                Ok(v) => resource_quantity_check(value@) is Ok && v@ == value@,
                Err(e) => resource_quantity_check(value@) == Err::<(), ShapeError>(e.shape()),
            },
    {
        match validate_resource_quantity(value) {
            Ok(()) => Ok(ResourceQuantity(string_of(value))),
            Err(e) => Err(ResourceQuantityError::from_shape(e)),
        }
    }

    /// Borrow the resource quantity as a string slice.
    pub fn as_str(&self) -> (r: &str)
        ensures
            r@ == self@,
            resource_quantity_check(r@) is Ok,
    {
        proof {
            use_type_invariant(self);
        }
        self.0.as_str()
    }

    /// The resource quantity as shown to users.
    pub fn to_string(&self) -> (r: String)
        ensures
            r@ == self@,
    {
        self.0.clone()
    }

    /// Give up the wrapper and keep the resource quantity.
    pub fn into_string(self) -> (r: String)
        ensures
            r@ == self@,
    {
        self.0
    }
}

impl Clone for ResourceQuantity {
    fn clone(&self) -> (r: Self)
        ensures
            r@ == self@,
    {
        proof {
            use_type_invariant(self);
        }
        ResourceQuantity(self.0.clone())
    }
}

/// Error returned when a [`RouteSelector`] is not valid.
#[derive(Debug, Clone, Copy, PartialEq, Eq, Structural)]
pub enum RouteSelectorError {
    /// Header selector names must be valid HTTP field names.
    HeaderName(RouteHeaderNameError),
    /// Header selector values must be printable ASCII values.
    HeaderValue(RouteHeaderValueError),
    /// Host selectors must be lowercase DNS host names.
    Host(RouteHostError),
}

impl RouteSelectorError {
    /// The human-readable message for this error.
    pub open spec fn text(self) -> Seq<char> {
        match self {
            RouteSelectorError::HeaderName(e) => "invalid route header name: "@ + e.text(),
            RouteSelectorError::HeaderValue(e) => "invalid route header value: "@ + e.text(),
            RouteSelectorError::Host(e) => "invalid route host: "@ + e.text(),
        }
    }

    /// Render the human-readable message for this error.
    pub fn to_string(&self) -> (m: String)
        ensures
            m@ == self.text(),
    {
        match self {
            RouteSelectorError::HeaderName(e) => {
                let mut m = string_of("invalid route header name: ");
                let t = e.to_string();
                push_str(&mut m, t.as_str());
                m
            },
            RouteSelectorError::HeaderValue(e) => {
                let mut m = string_of("invalid route header value: ");
                let t = e.to_string();
                push_str(&mut m, t.as_str());
                m
            },
            RouteSelectorError::Host(e) => {
                let mut m = string_of("invalid route host: ");
                let t = e.to_string();
                push_str(&mut m, t.as_str());
                m
            },
        }
    }
}

/// Traffic selector for routing future test requests to a sandbox workload.
#[non_exhaustive]
#[derive(Debug, PartialEq, Eq, Hash, PartialOrd, Ord)]
pub enum RouteSelector {
    /// Match requests by HTTP header name and value.
    Header { name: String, value: String },
    /// Match requests by host name.
    Host { hostname: String },
}

/// The contents of a [`RouteSelector`].
pub enum SelectorModel {
    /// A header name and value.
    Header { name: Seq<char>, value: Seq<char> },
    /// A host name.
    Host { hostname: Seq<char> },
}

impl View for RouteSelector {
    type V = SelectorModel;

    open spec fn view(&self) -> SelectorModel {
        match self {
            RouteSelector::Header { name, value } => SelectorModel::Header { name: name@, value: value@ },
            RouteSelector::Host { hostname } => SelectorModel::Host { hostname: hostname@ },
        }
    }
}

/// The selector text for `m`: `header:NAME=VALUE` or `host:HOSTNAME`.
pub open spec fn selector_text(m: SelectorModel) -> Seq<char> {
    match m {
        SelectorModel::Header { name, value } => "header:"@ + name + "="@ + value,
        SelectorModel::Host { hostname } => "host:"@ + hostname,
    }
}

impl RouteSelector {
    /// Create a header-based [`RouteSelector`].
    pub fn header(name: &str, value: &str) -> (r: Result<Self, RouteSelectorError>)
        ensures
            match r {
                Ok(s) => header_name_check(name@) is Ok && header_value_check(value@) is Ok
                    && s@ == (SelectorModel::Header { name: name@, value: value@ }),
                Err(RouteSelectorError::HeaderName(e)) => header_name_check(name@) == Err::<
                    (),
                    ShapeError,
                >(e.shape()),
                Err(RouteSelectorError::HeaderValue(e)) => header_name_check(name@) is Ok
                    && header_value_check(value@) == Err::<(), ShapeError>(e.shape()),
                Err(RouteSelectorError::Host(_)) => false,
            },
    {
        if let Err(e) = validate_route_header_name(name) {
            return Err(RouteSelectorError::HeaderName(RouteHeaderNameError::from_shape(e)));
        }
        if let Err(e) = validate_route_header_value(value) {
            return Err(RouteSelectorError::HeaderValue(RouteHeaderValueError::from_shape(e)));
        }
        Ok(RouteSelector::Header { name: string_of(name), value: string_of(value) })
    }

    /// Create a host-based [`RouteSelector`].
    pub fn host(hostname: &str) -> (r: Result<Self, RouteSelectorError>)
        ensures
            match r {
                Ok(s) => route_host_check(hostname@) is Ok
                    && s@ == (SelectorModel::Host { hostname: hostname@ }),
                Err(RouteSelectorError::Host(e)) => route_host_check(hostname@) == Err::<
                    (),
                    RouteHostError,
                >(e),
                Err(_) => false,
            },
    {
        match validate_route_host(hostname) {
            Ok(()) => Ok(RouteSelector::Host { hostname: string_of(hostname) }),
            Err(e) => Err(RouteSelectorError::Host(e)),
        }
    }

    /// Return the stable selector kind used in agent-readable output.
    pub fn kind(&self) -> (r: &'static str)
        ensures
            r@ == (match self@ {
                SelectorModel::Header { .. } => "header"@,
                SelectorModel::Host { .. } => "host"@,
            }),
    {
        match self {
            RouteSelector::Header { .. } => "header",
            RouteSelector::Host { .. } => "host",
        }
    }

    /// Borrow the header selector parts when this selector matches by header.
    pub fn header_parts(&self) -> (r: Option<(&str, &str)>)
        ensures
            match self@ {
                SelectorModel::Header { name, value } => r matches Some((n, v)) && n@ == name && v@
                    == value,
                SelectorModel::Host { .. } => r is None,
            },
    {
        match self {
            RouteSelector::Header { name, value } => Some((name.as_str(), value.as_str())),
            RouteSelector::Host { .. } => None,
        }
    }

    /// Borrow the host name when this selector matches by host.
    pub fn hostname(&self) -> (r: Option<&str>)
        ensures
            match self@ {
                SelectorModel::Header { .. } => r is None,
                SelectorModel::Host { hostname } => r matches Some(h) && h@ == hostname,
            },
    {
        match self {
            RouteSelector::Header { .. } => None,
            RouteSelector::Host { hostname } => Some(hostname.as_str()),
        }
    }

    /// The selector as shown to users.
    pub fn to_string(&self) -> (r: String)
        ensures
            r@ == selector_text(self@),
    {
        match self {
            RouteSelector::Header { name, value } => {
                let mut r = string_of("header:");
                push_str(&mut r, name.as_str());
                push_str(&mut r, "=");
                push_str(&mut r, value.as_str());
                r
            },
            RouteSelector::Host { hostname } => {
                let mut r = string_of("host:");
                push_str(&mut r, hostname.as_str());
                r
            },
        }
    }
}

impl Clone for RouteSelector {
    fn clone(&self) -> (r: Self)
        ensures
            r@ == self@,
    {
        match self {
            RouteSelector::Header { name, value } => RouteSelector::Header {
                name: name.clone(),
                value: value.clone(),
            },
            RouteSelector::Host { hostname } => RouteSelector::Host { hostname: hostname.clone() },
        }
    }
}

} // verus!
