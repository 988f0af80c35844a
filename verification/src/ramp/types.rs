//! The data types sent to and returned from the card and expense API.
//!
//! The structs are plain records. The enums are open: besides their named
//! variants each has `Noop` for the absent value and `FallthroughString` for a
//! string that this library has no name for, so that a value the server adds
//! later still decodes and is written back unchanged.

use vstd::prelude::*;
use crate::text::str_eq;
use crate::wire;
use crate::wire::WireValue;

verus! {

/// An instant in UTC: the whole seconds since the start of 1970 and the
/// nanoseconds past them.
#[derive(Debug, Clone, Copy, PartialEq, Eq, Structural, Default)]
pub struct Timestamp {
    pub seconds: i64,
    pub nanoseconds: u32,
}

/// Extra facts about an error; what it holds depends on the kind of error.
#[derive(Debug, Clone, Default)]
pub struct Details {}

/// An error as the server describes it.
#[derive(Debug, Clone, Default)]
pub struct Error {
    pub details: Option<Details>,
    pub message: String,
}

/// The body of an answer that reports an error.
#[derive(Debug, Clone, Default)]
pub struct ErrorResponse {
    pub error: Option<Error>,
}

/// The answer to a request that started a deferred task.
#[derive(Debug, Clone, Default)]
pub struct TaskResponse {
    pub id: String,
}

/// The role of a user within the business.
#[derive(Debug, Clone)]
pub enum Role {
    /// Written as `BUSINESS_ADMIN`.
    BusinessAdmin,
    /// Written as `BUSINESS_BOOKKEEPER`.
    BusinessBookkeeper,
    /// Written as `BUSINESS_OWNER`.
    BusinessOwner,
    /// Written as `BUSINESS_USER`.
    BusinessUser,
    /// The absent value, written as the empty string.
    Noop,
    /// Any other string, kept as the server sent it.
    FallthroughString(String),
}

impl View for Role {
    type V = WireValue;

    open spec fn view(&self) -> WireValue {
        match self {
            Role::BusinessAdmin => WireValue::Known("BUSINESS_ADMIN"@),
            Role::BusinessBookkeeper => WireValue::Known("BUSINESS_BOOKKEEPER"@),
            Role::BusinessOwner => WireValue::Known("BUSINESS_OWNER"@),
            Role::BusinessUser => WireValue::Known("BUSINESS_USER"@),
            Role::Noop => WireValue::Empty,
            Role::FallthroughString(s) => WireValue::Unknown(s@),
        }
    }
}

impl Default for Role {
    fn default() -> (r: Role)
        ensures
            r is Noop,
    {
        Role::Noop
    }
}

impl Role {
    /// The literals of the named variants.
    pub open spec fn literals() -> Set<Seq<char>> {
        set![
            "BUSINESS_ADMIN"@,
            "BUSINESS_BOOKKEEPER"@,
            "BUSINESS_OWNER"@,
            "BUSINESS_USER"@,
        ]
    }

    /// Whether this is the absent value.
    pub fn is_noop(&self) -> (b: bool)
        ensures
            b == (self is Noop),
    {
        matches!(self, Role::Noop)
    }

    /// The string that this value is written as: the literal of a named
    /// variant, nothing for the absent value, and the kept string otherwise.
    pub fn to_string(&self) -> (s: String)
        ensures
            s@ == wire::encode(self@),
    {
        match self {
            Role::BusinessAdmin => "BUSINESS_ADMIN".to_owned(),
            Role::BusinessBookkeeper => "BUSINESS_BOOKKEEPER".to_owned(),
            Role::BusinessOwner => "BUSINESS_OWNER".to_owned(),
            Role::BusinessUser => "BUSINESS_USER".to_owned(),
            Role::Noop => String::new(),
            Role::FallthroughString(s) => s.clone(),
        }
    }

    /// The value that a string stands for: the named variant whose literal it
    /// is, the absent value for the empty string, and otherwise the string
    /// itself in the catch-all variant. Writing the value out again gives the
    /// string back.
    pub fn decode(s: &str) -> (r: Role)
        ensures
            r@ == wire::decode(Role::literals(), s@),
            wire::encode(r@) == s@,
    {
        proof {
            wire::lemma_decode_then_encode(Role::literals(), s@);
        }
        if s.is_empty() {
            Role::Noop
        } else if str_eq(s, "BUSINESS_ADMIN") {
            Role::BusinessAdmin
        } else if str_eq(s, "BUSINESS_BOOKKEEPER") {
            Role::BusinessBookkeeper
        } else if str_eq(s, "BUSINESS_OWNER") {
            Role::BusinessOwner
        } else if str_eq(s, "BUSINESS_USER") {
            Role::BusinessUser
        } else {
            Role::FallthroughString(s.to_owned())
        }
    }

    /// Every value but a hand-made catch-all is the one that decoding gives
    /// for its own string.
    pub proof fn lemma_named_is_canonical(v: Role)
        requires
            !(v is FallthroughString),
        ensures
            wire::canonical(Role::literals(), v@),
    {
        reveal_strlit("BUSINESS_ADMIN");
        reveal_strlit("BUSINESS_BOOKKEEPER");
        reveal_strlit("BUSINESS_OWNER");
        reveal_strlit("BUSINESS_USER");
    }

    /// The literals differ from each other, so two values that stand for the
    /// same thing are the same variant.
    pub proof fn lemma_view_tells_variants_apart(a: Role, b: Role)
        requires
            a@ == b@,
        ensures
            a is BusinessAdmin <==> b is BusinessAdmin,
            a is BusinessBookkeeper <==> b is BusinessBookkeeper,
            a is BusinessOwner <==> b is BusinessOwner,
            a is BusinessUser <==> b is BusinessUser,
            a is Noop <==> b is Noop,
            a is FallthroughString <==> b is FallthroughString,
    {
        reveal_strlit("BUSINESS_ADMIN");
        reveal_strlit("BUSINESS_BOOKKEEPER");
        reveal_strlit("BUSINESS_OWNER");
        reveal_strlit("BUSINESS_USER");
        assert("BUSINESS_ADMIN"@.len() == 14);
        assert("BUSINESS_BOOKKEEPER"@.len() == 19);
        assert("BUSINESS_OWNER"@.len() == 14);
        assert("BUSINESS_USER"@.len() == 13);
        assert("BUSINESS_ADMIN"@[9] != "BUSINESS_OWNER"@[9]);
    }
}

/// A user of the business.
#[derive(Debug, Clone, Default)]
pub struct User {
    pub amount_limit: String,
    pub business_id: String,
    pub department_id: String,
    pub email: String,
    pub first_name: String,
    pub id: String,
    pub last_name: String,
    pub location_id: String,
    pub manager_id: String,
    pub phone: String,
    pub role: Role,
}

/// The fields of a user that can be changed.
#[derive(Debug, Clone, Default)]
pub struct PatchUsersRequest {
    pub department_id: String,
    pub direct_manager_id: String,
    pub location_id: String,
    pub role: Option<Role>,
}

/// Where a list goes on: the address of the next page, empty on the last one.
#[derive(Debug, Clone, Default)]
pub struct Page {
    pub next: String,
}

/// The holder of a card and where they belong.
#[derive(Debug, Clone, Default)]
pub struct CardHolder {
    pub department_id: String,
    pub department_name: String,
    pub first_name: String,
    pub last_name: String,
    pub location_id: String,
    pub location_name: String,
}

/// An accounting category that a transaction is booked under.
#[derive(Debug, Clone, Default)]
pub struct AccountingCategories {
    pub category_id: String,
    pub category_name: String,
}

/// Who raised a policy violation.
#[derive(Debug, Clone)]
pub enum Type {
    /// Written as `POLICY_VIOLATION_FROM_ADMIN`.
    PolicyViolationFromAdmin,
    /// Written as `POLICY_VIOLATION_FROM_USER`.
    PolicyViolationFromUser,
    /// The absent value, written as the empty string.
    Noop,
    /// Any other string, kept as the server sent it.
    FallthroughString(String),
}

impl View for Type {
    type V = WireValue;

    open spec fn view(&self) -> WireValue {
        match self {
            Type::PolicyViolationFromAdmin => WireValue::Known("POLICY_VIOLATION_FROM_ADMIN"@),
            Type::PolicyViolationFromUser => WireValue::Known("POLICY_VIOLATION_FROM_USER"@),
            Type::Noop => WireValue::Empty,
            Type::FallthroughString(s) => WireValue::Unknown(s@),
        }
    }
}

impl Default for Type {
    fn default() -> (r: Type)
        ensures
            r is Noop,
    {
        Type::Noop
    }
}

impl Type {
    /// The literals of the named variants.
    pub open spec fn literals() -> Set<Seq<char>> {
        set!["POLICY_VIOLATION_FROM_ADMIN"@, "POLICY_VIOLATION_FROM_USER"@]
    }

    /// Whether this is the absent value.
    pub fn is_noop(&self) -> (b: bool)
        ensures
            b == (self is Noop),
    {
        matches!(self, Type::Noop)
    }

    /// The string that this value is written as: the literal of a named
    /// variant, nothing for the absent value, and the kept string otherwise.
    pub fn to_string(&self) -> (s: String)
        ensures
            s@ == wire::encode(self@),
    {
        match self {
            Type::PolicyViolationFromAdmin => "POLICY_VIOLATION_FROM_ADMIN".to_owned(),
            Type::PolicyViolationFromUser => "POLICY_VIOLATION_FROM_USER".to_owned(),
            Type::Noop => String::new(),
            Type::FallthroughString(s) => s.clone(),
        }
    }

    /// The value that a string stands for: the named variant whose literal it
    /// is, the absent value for the empty string, and otherwise the string
    /// itself in the catch-all variant. Writing the value out again gives the
    /// string back.
    pub fn decode(s: &str) -> (r: Type)
        ensures
            r@ == wire::decode(Type::literals(), s@),
            wire::encode(r@) == s@,
    {
        proof {
            wire::lemma_decode_then_encode(Type::literals(), s@);
        }
        if s.is_empty() {
            Type::Noop
        } else if str_eq(s, "POLICY_VIOLATION_FROM_ADMIN") {
            Type::PolicyViolationFromAdmin
        } else if str_eq(s, "POLICY_VIOLATION_FROM_USER") {
            Type::PolicyViolationFromUser
        } else {
            Type::FallthroughString(s.to_owned())
        }
    }

    /// Every value but a hand-made catch-all is the one that decoding gives
    /// for its own string.
    pub proof fn lemma_named_is_canonical(v: Type)
        requires
            !(v is FallthroughString),
        ensures
            wire::canonical(Type::literals(), v@),
    {
        reveal_strlit("POLICY_VIOLATION_FROM_ADMIN");
        reveal_strlit("POLICY_VIOLATION_FROM_USER");
    }

    /// The literals differ from each other, so two values that stand for the
    /// same thing are the same variant.
    pub proof fn lemma_view_tells_variants_apart(a: Type, b: Type)
        requires
            a@ == b@,
        ensures
            a is PolicyViolationFromAdmin <==> b is PolicyViolationFromAdmin,
            a is PolicyViolationFromUser <==> b is PolicyViolationFromUser,
            a is Noop <==> b is Noop,
            a is FallthroughString <==> b is FallthroughString,
    {
        reveal_strlit("POLICY_VIOLATION_FROM_ADMIN");
        reveal_strlit("POLICY_VIOLATION_FROM_USER");
        assert("POLICY_VIOLATION_FROM_ADMIN"@.len() == 27);
        assert("POLICY_VIOLATION_FROM_USER"@.len() == 26);
    }
}

/// A breach of the spending policy noted on a transaction.
#[derive(Debug, Clone, Default)]
pub struct PolicyViolations {
    pub created_at: Option<Timestamp>,
    pub id: String,
    pub memo: String,
    pub type_: Option<Type>,
}

/// Why a transaction is disputed.
#[derive(Debug, Clone)]
pub enum GetTransactionResponseDataDisputesType {
    /// Written as `DISPUTE_CANCELLED`.
    DisputeCancelled,
    /// Written as `MERCHANT_ERROR`.
    MerchantError,
    /// Written as `UNKNOWN`.
    Unknown,
    /// Written as `UNRECOGNIZED_CHARGE`.
    UnrecognizedCharge,
    /// The absent value, written as the empty string.
    Noop,
    /// Any other string, kept as the server sent it.
    FallthroughString(String),
}

impl View for GetTransactionResponseDataDisputesType {
    type V = WireValue;

    open spec fn view(&self) -> WireValue {
        match self {
            GetTransactionResponseDataDisputesType::DisputeCancelled => WireValue::Known("DISPUTE_CANCELLED"@),
            GetTransactionResponseDataDisputesType::MerchantError => WireValue::Known("MERCHANT_ERROR"@),
            GetTransactionResponseDataDisputesType::Unknown => WireValue::Known("UNKNOWN"@),
            GetTransactionResponseDataDisputesType::UnrecognizedCharge => WireValue::Known("UNRECOGNIZED_CHARGE"@),
            GetTransactionResponseDataDisputesType::Noop => WireValue::Empty,
            GetTransactionResponseDataDisputesType::FallthroughString(s) => WireValue::Unknown(s@),
        }
    }
}

impl Default for GetTransactionResponseDataDisputesType {
    fn default() -> (r: GetTransactionResponseDataDisputesType)
        ensures
            r is Noop,
    {
        GetTransactionResponseDataDisputesType::Noop
    }
}

impl GetTransactionResponseDataDisputesType {
    /// The literals of the named variants.
    pub open spec fn literals() -> Set<Seq<char>> {
        set![
            "DISPUTE_CANCELLED"@,
            "MERCHANT_ERROR"@,
            "UNKNOWN"@,
            "UNRECOGNIZED_CHARGE"@,
        ]
    }

    /// Whether this is the absent value.
    pub fn is_noop(&self) -> (b: bool)
        ensures
            b == (self is Noop),
    {
        matches!(self, GetTransactionResponseDataDisputesType::Noop)
    }

    /// The string that this value is written as: the literal of a named
    /// variant, nothing for the absent value, and the kept string otherwise.
    pub fn to_string(&self) -> (s: String)
        ensures
            s@ == wire::encode(self@),
    {
        match self {
            GetTransactionResponseDataDisputesType::DisputeCancelled => "DISPUTE_CANCELLED".to_owned(),
            GetTransactionResponseDataDisputesType::MerchantError => "MERCHANT_ERROR".to_owned(),
            GetTransactionResponseDataDisputesType::Unknown => "UNKNOWN".to_owned(),
            GetTransactionResponseDataDisputesType::UnrecognizedCharge => "UNRECOGNIZED_CHARGE".to_owned(),
            GetTransactionResponseDataDisputesType::Noop => String::new(),
            GetTransactionResponseDataDisputesType::FallthroughString(s) => s.clone(),
        }
    }

    /// The value that a string stands for: the named variant whose literal it
    /// is, the absent value for the empty string, and otherwise the string
    /// itself in the catch-all variant. Writing the value out again gives the
    /// string back.
    pub fn decode(s: &str) -> (r: GetTransactionResponseDataDisputesType)
        ensures
            r@ == wire::decode(GetTransactionResponseDataDisputesType::literals(), s@),
            wire::encode(r@) == s@,
    {
        proof {
            wire::lemma_decode_then_encode(GetTransactionResponseDataDisputesType::literals(), s@);
        }
        if s.is_empty() {
            GetTransactionResponseDataDisputesType::Noop
        } else if str_eq(s, "DISPUTE_CANCELLED") {
            GetTransactionResponseDataDisputesType::DisputeCancelled
        } else if str_eq(s, "MERCHANT_ERROR") {
            GetTransactionResponseDataDisputesType::MerchantError
        } else if str_eq(s, "UNKNOWN") {
            GetTransactionResponseDataDisputesType::Unknown
        } else if str_eq(s, "UNRECOGNIZED_CHARGE") {
            GetTransactionResponseDataDisputesType::UnrecognizedCharge
        } else {
            GetTransactionResponseDataDisputesType::FallthroughString(s.to_owned())
        }
    }

    /// Every value but a hand-made catch-all is the one that decoding gives
    /// for its own string.
    pub proof fn lemma_named_is_canonical(v: GetTransactionResponseDataDisputesType)
        requires
            !(v is FallthroughString),
        ensures
            wire::canonical(GetTransactionResponseDataDisputesType::literals(), v@),
    {
        reveal_strlit("DISPUTE_CANCELLED");
        reveal_strlit("MERCHANT_ERROR");
        reveal_strlit("UNKNOWN");
        reveal_strlit("UNRECOGNIZED_CHARGE");
    }

    /// The literals differ from each other, so two values that stand for the
    /// same thing are the same variant.
    pub proof fn lemma_view_tells_variants_apart(a: GetTransactionResponseDataDisputesType, b: GetTransactionResponseDataDisputesType)
        requires
            a@ == b@,
        ensures
            a is DisputeCancelled <==> b is DisputeCancelled,
            a is MerchantError <==> b is MerchantError,
            a is Unknown <==> b is Unknown,
            a is UnrecognizedCharge <==> b is UnrecognizedCharge,
            a is Noop <==> b is Noop,
            a is FallthroughString <==> b is FallthroughString,
    {
        reveal_strlit("DISPUTE_CANCELLED");
        reveal_strlit("MERCHANT_ERROR");
        reveal_strlit("UNKNOWN");
        reveal_strlit("UNRECOGNIZED_CHARGE");
        assert("DISPUTE_CANCELLED"@.len() == 17);
        assert("MERCHANT_ERROR"@.len() == 14);
        assert("UNKNOWN"@.len() == 7);
        assert("UNRECOGNIZED_CHARGE"@.len() == 19);
    }
}

/// A dispute raised on a transaction.
#[derive(Debug, Clone, Default)]
pub struct Disputes {
    pub created_at: Option<Timestamp>,
    pub id: String,
    pub memo: String,
    pub type_: Option<GetTransactionResponseDataDisputesType>,
}

/// A location of the business.
#[derive(Debug, Clone, Default)]
pub struct Location {
    pub id: String,
    pub name: String,
}

/// One page of the list of locations.
#[derive(Debug, Clone, Default)]
pub struct GetLocationResponse {
    pub data: Vec<Location>,
    pub page: Page,
}

/// The fields of a new location.
#[derive(Debug, Clone, Default)]
pub struct PostLocationRequest {
    pub name: String,
}

/// One page of the list of users.
#[derive(Debug, Clone, Default)]
pub struct GetUsersResponse {
    pub data: Vec<User>,
    pub page: Page,
}

/// The fields of a location that can be changed.
#[derive(Debug, Clone, Default)]
pub struct PatchLocationRequest {
    pub name: String,
}

/// A department of the business.
#[derive(Debug, Clone, Default)]
pub struct Department {
    pub id: String,
    pub name: String,
}

/// One page of the list of departments.
#[derive(Debug, Clone, Default)]
pub struct GetDepartmentsResponse {
    pub data: Vec<Department>,
    pub page: Page,
}

/// The fields of a department that can be changed.
#[derive(Debug, Clone, Default)]
pub struct PatchDepartmentRequest {
    pub name: String,
}

/// The postal address that a physical card is sent to.
#[derive(Debug, Clone, Default)]
pub struct RecipientAddress {
    pub address_1: String,
    pub city: String,
    pub country: String,
    pub first_name: String,
    pub last_name: String,
    pub postal_code: String,
    pub state: String,
}

/// How a physical card is shipped.
#[derive(Debug, Clone, Default)]
pub struct Shipping {
    pub recipient_address: Option<RecipientAddress>,
}

/// How a physical card reaches its holder.
#[derive(Debug, Clone, Default)]
pub struct Fulfillment {
    pub shipping: Option<Shipping>,
}

/// The time span over which a spending limit is counted.
#[derive(Debug, Clone)]
pub enum Interval {
    /// Written as `DAILY`.
    Daily,
    /// Written as `MONTHLY`.
    Monthly,
    /// Written as `TOTAL`.
    Total,
    /// Written as `YEARLY`.
    Yearly,
    /// The absent value, written as the empty string.
    Noop,
    /// Any other string, kept as the server sent it.
    FallthroughString(String),
}

impl View for Interval {
    type V = WireValue;

    open spec fn view(&self) -> WireValue {
        match self {
            Interval::Daily => WireValue::Known("DAILY"@),
            Interval::Monthly => WireValue::Known("MONTHLY"@),
            Interval::Total => WireValue::Known("TOTAL"@),
            Interval::Yearly => WireValue::Known("YEARLY"@),
            Interval::Noop => WireValue::Empty,
            Interval::FallthroughString(s) => WireValue::Unknown(s@),
        }
    }
}

impl Default for Interval {
    fn default() -> (r: Interval)
        ensures
            r is Noop,
    {
        Interval::Noop
    }
}

impl Interval {
    /// The literals of the named variants.
    pub open spec fn literals() -> Set<Seq<char>> {
        set!["DAILY"@, "MONTHLY"@, "TOTAL"@, "YEARLY"@]
    }

    /// Whether this is the absent value.
    pub fn is_noop(&self) -> (b: bool)
        ensures
            b == (self is Noop),
    {
        matches!(self, Interval::Noop)
    }

    /// The string that this value is written as: the literal of a named
    /// variant, nothing for the absent value, and the kept string otherwise.
    pub fn to_string(&self) -> (s: String)
        ensures
            s@ == wire::encode(self@),
    {
        match self {
            Interval::Daily => "DAILY".to_owned(),
            Interval::Monthly => "MONTHLY".to_owned(),
            Interval::Total => "TOTAL".to_owned(),
            Interval::Yearly => "YEARLY".to_owned(),
            Interval::Noop => String::new(),
            Interval::FallthroughString(s) => s.clone(),
        }
    }

    /// The value that a string stands for: the named variant whose literal it
    /// is, the absent value for the empty string, and otherwise the string
    /// itself in the catch-all variant. Writing the value out again gives the
    /// string back.
    pub fn decode(s: &str) -> (r: Interval)
        ensures
            r@ == wire::decode(Interval::literals(), s@),
            wire::encode(r@) == s@,
    {
        proof {
            wire::lemma_decode_then_encode(Interval::literals(), s@);
        }
        if s.is_empty() {
            Interval::Noop
        } else if str_eq(s, "DAILY") {
            Interval::Daily
        } else if str_eq(s, "MONTHLY") {
            Interval::Monthly
        } else if str_eq(s, "TOTAL") {
            Interval::Total
        } else if str_eq(s, "YEARLY") {
            Interval::Yearly
        } else {
            Interval::FallthroughString(s.to_owned())
        }
    }

    /// Every value but a hand-made catch-all is the one that decoding gives
    /// for its own string.
    pub proof fn lemma_named_is_canonical(v: Interval)
        requires
            !(v is FallthroughString),
        ensures
            wire::canonical(Interval::literals(), v@),
    {
        reveal_strlit("DAILY");
        reveal_strlit("MONTHLY");
        reveal_strlit("TOTAL");
        reveal_strlit("YEARLY");
    }

    /// The literals differ from each other, so two values that stand for the
    /// same thing are the same variant.
    pub proof fn lemma_view_tells_variants_apart(a: Interval, b: Interval)
        requires
            a@ == b@,
        ensures
            a is Daily <==> b is Daily,
            a is Monthly <==> b is Monthly,
            a is Total <==> b is Total,
            a is Yearly <==> b is Yearly,
            a is Noop <==> b is Noop,
            a is FallthroughString <==> b is FallthroughString,
    {
        reveal_strlit("DAILY");
        reveal_strlit("MONTHLY");
        reveal_strlit("TOTAL");
        reveal_strlit("YEARLY");
        assert("DAILY"@.len() == 5);
        assert("MONTHLY"@.len() == 7);
        assert("TOTAL"@.len() == 5);
        assert("YEARLY"@.len() == 6);
        assert("DAILY"@[0] != "TOTAL"@[0]);
    }
}

/// The custom id provider of the business.
#[derive(Debug, Clone, Default)]
pub struct GetCustomProviderResponse {
    pub custom_id_provider: String,
}

/// The answer to registering a custom id provider.
#[derive(Debug, Clone, Default)]
pub struct PostcustomProviderResponse {
    pub provider_id: String,
}

/// The billing address of the business.
#[derive(Debug, Clone, Default)]
pub struct BillingAddress {
    pub address_1: String,
    pub city: String,
    pub country: String,
    pub postal_code: String,
    pub state: String,
}

/// The kind of an OAuth2 token.
#[derive(Debug, Clone)]
pub enum TokenType {
    /// Written as `Bearer`.
    Bearer,
    /// The absent value, written as the empty string.
    Noop,
    /// Any other string, kept as the server sent it.
    FallthroughString(String),
}

impl View for TokenType {
    type V = WireValue;

    open spec fn view(&self) -> WireValue {
        match self {
            TokenType::Bearer => WireValue::Known("Bearer"@),
            TokenType::Noop => WireValue::Empty,
            TokenType::FallthroughString(s) => WireValue::Unknown(s@),
        }
    }
}

impl Default for TokenType {
    fn default() -> (r: TokenType)
        ensures
            r is Noop,
    {
        TokenType::Noop
    }
}

impl TokenType {
    /// The literals of the named variants.
    pub open spec fn literals() -> Set<Seq<char>> {
        set!["Bearer"@]
    }

    /// Whether this is the absent value.
    pub fn is_noop(&self) -> (b: bool)
        ensures
            b == (self is Noop),
    {
        matches!(self, TokenType::Noop)
    }

    /// The string that this value is written as: the literal of a named
    /// variant, nothing for the absent value, and the kept string otherwise.
    pub fn to_string(&self) -> (s: String)
        ensures
            s@ == wire::encode(self@),
    {
        match self {
            TokenType::Bearer => "Bearer".to_owned(),
            TokenType::Noop => String::new(),
            TokenType::FallthroughString(s) => s.clone(),
        }
    }

    /// The value that a string stands for: the named variant whose literal it
    /// is, the absent value for the empty string, and otherwise the string
    /// itself in the catch-all variant. Writing the value out again gives the
    /// string back.
    pub fn decode(s: &str) -> (r: TokenType)
        ensures
            r@ == wire::decode(TokenType::literals(), s@),
            wire::encode(r@) == s@,
    {
        proof {
            wire::lemma_decode_then_encode(TokenType::literals(), s@);
        }
        if s.is_empty() {
            TokenType::Noop
        } else if str_eq(s, "Bearer") {
            TokenType::Bearer
        } else {
            TokenType::FallthroughString(s.to_owned())
        }
    }

    /// Every value but a hand-made catch-all is the one that decoding gives
    /// for its own string.
    pub proof fn lemma_named_is_canonical(v: TokenType)
        requires
            !(v is FallthroughString),
        ensures
            wire::canonical(TokenType::literals(), v@),
    {
        reveal_strlit("Bearer");
    }

    /// The literals differ from each other, so two values that stand for the
    /// same thing are the same variant.
    pub proof fn lemma_view_tells_variants_apart(a: TokenType, b: TokenType)
        requires
            a@ == b@,
        ensures
            a is Bearer <==> b is Bearer,
            a is Noop <==> b is Noop,
            a is FallthroughString <==> b is FallthroughString,
    {
        reveal_strlit("Bearer");
        assert("Bearer"@.len() == 6);
    }
}

/// An access token with its refresh token and their lifetimes in seconds.
#[derive(Debug, Clone, Default)]
pub struct OAuth2Token {
    pub access_token: String,
    pub expires_in: i64,
    pub refresh_token: String,
    pub refresh_token_expires_in: i64,
    pub scope: String,
    pub token_type: TokenType,
}

/// A request to suspend a card or to end its suspension.
#[derive(Debug, Clone, Default)]
pub struct PostResourcesCardsCardSuspensionRequest {
    pub idempotency_key: String,
}

/// The native id that a custom id is linked to.
#[derive(Debug, Clone, Default)]
pub struct GetEntityTypeCustomRampResponse {
    pub ramp_id: String,
}

/// The custom id that a native id is linked to.
#[derive(Debug, Clone, Default)]
pub struct GetEntityTypeRampCustomResponse {
    pub custom_id: String,
}

/// What a deferred card task has produced so far.
#[derive(Debug, Clone, Default)]
pub struct GetResourcesCardsDeferredResponseData {
    pub card_id: String,
    pub error: String,
    pub id: String,
    pub misc: String,
}

/// How far a deferred card task has come.
#[derive(Debug, Clone)]
pub enum GetResourcesCardsDeferredResponseStatus {
    /// Written as `ERROR`.
    Error,
    /// Written as `IN_PROGRESS`.
    InProgress,
    /// Written as `STARTED`.
    Started,
    /// Written as `SUCCESS`.
    Success,
    /// The absent value, written as the empty string.
    Noop,
    /// Any other string, kept as the server sent it.
    FallthroughString(String),
}

impl View for GetResourcesCardsDeferredResponseStatus {
    type V = WireValue;

    open spec fn view(&self) -> WireValue {
        match self {
            GetResourcesCardsDeferredResponseStatus::Error => WireValue::Known("ERROR"@),
            GetResourcesCardsDeferredResponseStatus::InProgress => WireValue::Known("IN_PROGRESS"@),
            GetResourcesCardsDeferredResponseStatus::Started => WireValue::Known("STARTED"@),
            GetResourcesCardsDeferredResponseStatus::Success => WireValue::Known("SUCCESS"@),
            GetResourcesCardsDeferredResponseStatus::Noop => WireValue::Empty,
            GetResourcesCardsDeferredResponseStatus::FallthroughString(s) => WireValue::Unknown(s@),
        }
    }
}

impl Default for GetResourcesCardsDeferredResponseStatus {
    fn default() -> (r: GetResourcesCardsDeferredResponseStatus)
        ensures
            r is Noop,
    {
        GetResourcesCardsDeferredResponseStatus::Noop
    }
}

impl GetResourcesCardsDeferredResponseStatus {
    /// The literals of the named variants.
    pub open spec fn literals() -> Set<Seq<char>> {
        set!["ERROR"@, "IN_PROGRESS"@, "STARTED"@, "SUCCESS"@]
    }

    /// Whether this is the absent value.
    pub fn is_noop(&self) -> (b: bool)
        ensures
            b == (self is Noop),
    {
        matches!(self, GetResourcesCardsDeferredResponseStatus::Noop)
    }

    /// The string that this value is written as: the literal of a named
    /// variant, nothing for the absent value, and the kept string otherwise.
    pub fn to_string(&self) -> (s: String)
        ensures
            s@ == wire::encode(self@),
    {
        match self {
            GetResourcesCardsDeferredResponseStatus::Error => "ERROR".to_owned(),
            GetResourcesCardsDeferredResponseStatus::InProgress => "IN_PROGRESS".to_owned(),
            GetResourcesCardsDeferredResponseStatus::Started => "STARTED".to_owned(),
            GetResourcesCardsDeferredResponseStatus::Success => "SUCCESS".to_owned(),
            GetResourcesCardsDeferredResponseStatus::Noop => String::new(),
            GetResourcesCardsDeferredResponseStatus::FallthroughString(s) => s.clone(),
        }
    }

    /// The value that a string stands for: the named variant whose literal it
    /// is, the absent value for the empty string, and otherwise the string
    /// itself in the catch-all variant. Writing the value out again gives the
    /// string back.
    pub fn decode(s: &str) -> (r: GetResourcesCardsDeferredResponseStatus)
        ensures
            r@ == wire::decode(GetResourcesCardsDeferredResponseStatus::literals(), s@),
            wire::encode(r@) == s@,
    {
        proof {
            wire::lemma_decode_then_encode(GetResourcesCardsDeferredResponseStatus::literals(), s@);
        }
        if s.is_empty() {
            GetResourcesCardsDeferredResponseStatus::Noop
        } else if str_eq(s, "ERROR") {
            GetResourcesCardsDeferredResponseStatus::Error
        } else if str_eq(s, "IN_PROGRESS") {
            GetResourcesCardsDeferredResponseStatus::InProgress
        } else if str_eq(s, "STARTED") {
            GetResourcesCardsDeferredResponseStatus::Started
        } else if str_eq(s, "SUCCESS") {
            GetResourcesCardsDeferredResponseStatus::Success
        } else {
            GetResourcesCardsDeferredResponseStatus::FallthroughString(s.to_owned())
        }
    }

    /// Every value but a hand-made catch-all is the one that decoding gives
    /// for its own string.
    pub proof fn lemma_named_is_canonical(v: GetResourcesCardsDeferredResponseStatus)
        requires
            !(v is FallthroughString),
        ensures
            wire::canonical(GetResourcesCardsDeferredResponseStatus::literals(), v@),
    {
        reveal_strlit("ERROR");
        reveal_strlit("IN_PROGRESS");
        reveal_strlit("STARTED");
        reveal_strlit("SUCCESS");
    }

    /// The literals differ from each other, so two values that stand for the
    /// same thing are the same variant.
    pub proof fn lemma_view_tells_variants_apart(a: GetResourcesCardsDeferredResponseStatus, b: GetResourcesCardsDeferredResponseStatus)
        requires
            a@ == b@,
        ensures
            a is Error <==> b is Error,
            a is InProgress <==> b is InProgress,
            a is Started <==> b is Started,
            a is Success <==> b is Success,
            a is Noop <==> b is Noop,
            a is FallthroughString <==> b is FallthroughString,
    {
        reveal_strlit("ERROR");
        reveal_strlit("IN_PROGRESS");
        reveal_strlit("STARTED");
        reveal_strlit("SUCCESS");
        assert("ERROR"@.len() == 5);
        assert("IN_PROGRESS"@.len() == 11);
        assert("STARTED"@.len() == 7);
        assert("SUCCESS"@.len() == 7);
        assert("STARTED"@[1] != "SUCCESS"@[1]);
    }
}

/// The state of a deferred card task.
#[derive(Debug, Clone, Default)]
pub struct GetResourcesCardsDeferredResponse {
    pub data: Option<GetResourcesCardsDeferredResponseData>,
    pub id: String,
    pub status: Option<GetResourcesCardsDeferredResponseStatus>,
}

/// The icon shown for a card program.
#[derive(Debug, Clone)]
pub enum Icon {
    /// Written as `AdvertisingIcon`.
    AdvertisingIcon,
    /// Written as `CardIcon`.
    CardIcon,
    /// Written as `EducationStipendIcon`.
    EducationStipendIcon,
    /// Written as `LunchOrderingIcon`.
    LunchOrderingIcon,
    /// Written as `OnboardingIcon`.
    OnboardingIcon,
    /// Written as `PerDiemCardIcon`.
    PerDiemCardIcon,
    /// Written as `SaasSubscriptionIcon`.
    SaasSubscriptionIcon,
    /// Written as `SoftwareTrialIcon`.
    SoftwareTrialIcon,
    /// Written as `TravelExpensesIcon`.
    TravelExpensesIcon,
    /// Written as `WellnessIcon`.
    WellnessIcon,
    /// The absent value, written as the empty string.
    Noop,
    /// Any other string, kept as the server sent it.
    FallthroughString(String),
}

impl View for Icon {
    type V = WireValue;

    open spec fn view(&self) -> WireValue {
        match self {
            Icon::AdvertisingIcon => WireValue::Known("AdvertisingIcon"@),
            Icon::CardIcon => WireValue::Known("CardIcon"@),
            Icon::EducationStipendIcon => WireValue::Known("EducationStipendIcon"@),
            Icon::LunchOrderingIcon => WireValue::Known("LunchOrderingIcon"@),
            Icon::OnboardingIcon => WireValue::Known("OnboardingIcon"@),
            Icon::PerDiemCardIcon => WireValue::Known("PerDiemCardIcon"@),
            Icon::SaasSubscriptionIcon => WireValue::Known("SaasSubscriptionIcon"@),
            Icon::SoftwareTrialIcon => WireValue::Known("SoftwareTrialIcon"@),
            Icon::TravelExpensesIcon => WireValue::Known("TravelExpensesIcon"@),
            Icon::WellnessIcon => WireValue::Known("WellnessIcon"@),
            Icon::Noop => WireValue::Empty,
            Icon::FallthroughString(s) => WireValue::Unknown(s@),
        }
    }
}

impl Default for Icon {
    fn default() -> (r: Icon)
        ensures
            r is Noop,
    {
        Icon::Noop
    }
}

impl Icon {
    /// The literals of the named variants.
    pub open spec fn literals() -> Set<Seq<char>> {
        set![
            "AdvertisingIcon"@,
            "CardIcon"@,
            "EducationStipendIcon"@,
            "LunchOrderingIcon"@,
            "OnboardingIcon"@,
            "PerDiemCardIcon"@,
            "SaasSubscriptionIcon"@,
            "SoftwareTrialIcon"@,
            "TravelExpensesIcon"@,
            "WellnessIcon"@,
        ]
    }

    /// Whether this is the absent value.
    pub fn is_noop(&self) -> (b: bool)
        ensures
            b == (self is Noop),
    {
        matches!(self, Icon::Noop)
    }

    /// The string that this value is written as: the literal of a named
    /// variant, nothing for the absent value, and the kept string otherwise.
    pub fn to_string(&self) -> (s: String)
        ensures
            s@ == wire::encode(self@),
    {
        match self {
            Icon::AdvertisingIcon => "AdvertisingIcon".to_owned(),
            Icon::CardIcon => "CardIcon".to_owned(),
            Icon::EducationStipendIcon => "EducationStipendIcon".to_owned(),
            Icon::LunchOrderingIcon => "LunchOrderingIcon".to_owned(),
            Icon::OnboardingIcon => "OnboardingIcon".to_owned(),
            Icon::PerDiemCardIcon => "PerDiemCardIcon".to_owned(),
            Icon::SaasSubscriptionIcon => "SaasSubscriptionIcon".to_owned(),
            Icon::SoftwareTrialIcon => "SoftwareTrialIcon".to_owned(),
            Icon::TravelExpensesIcon => "TravelExpensesIcon".to_owned(),
            Icon::WellnessIcon => "WellnessIcon".to_owned(),
            Icon::Noop => String::new(),
            Icon::FallthroughString(s) => s.clone(),
        }
    }

    /// The value that a string stands for: the named variant whose literal it
    /// is, the absent value for the empty string, and otherwise the string
    /// itself in the catch-all variant. Writing the value out again gives the
    /// string back.
    pub fn decode(s: &str) -> (r: Icon)
        ensures
            r@ == wire::decode(Icon::literals(), s@),
            wire::encode(r@) == s@,
    {
        proof {
            wire::lemma_decode_then_encode(Icon::literals(), s@);
        }
        if s.is_empty() {
            Icon::Noop
        } else if str_eq(s, "AdvertisingIcon") {
            Icon::AdvertisingIcon
        } else if str_eq(s, "CardIcon") {
            Icon::CardIcon
        } else if str_eq(s, "EducationStipendIcon") {
            Icon::EducationStipendIcon
        } else if str_eq(s, "LunchOrderingIcon") {
            Icon::LunchOrderingIcon
        } else if str_eq(s, "OnboardingIcon") {
            Icon::OnboardingIcon
        } else if str_eq(s, "PerDiemCardIcon") {
            Icon::PerDiemCardIcon
        } else if str_eq(s, "SaasSubscriptionIcon") {
            Icon::SaasSubscriptionIcon
        } else if str_eq(s, "SoftwareTrialIcon") {
            Icon::SoftwareTrialIcon
        } else if str_eq(s, "TravelExpensesIcon") {
            Icon::TravelExpensesIcon
        } else if str_eq(s, "WellnessIcon") {
            Icon::WellnessIcon
        } else {
            Icon::FallthroughString(s.to_owned())
        }
    }

    /// Every value but a hand-made catch-all is the one that decoding gives
    /// for its own string.
    pub proof fn lemma_named_is_canonical(v: Icon)
        requires
            !(v is FallthroughString),
        ensures
            wire::canonical(Icon::literals(), v@),
    {
        reveal_strlit("AdvertisingIcon");
        reveal_strlit("CardIcon");
        reveal_strlit("EducationStipendIcon");
        reveal_strlit("LunchOrderingIcon");
        reveal_strlit("OnboardingIcon");
        reveal_strlit("PerDiemCardIcon");
        reveal_strlit("SaasSubscriptionIcon");
        reveal_strlit("SoftwareTrialIcon");
        reveal_strlit("TravelExpensesIcon");
        reveal_strlit("WellnessIcon");
    }

    /// The literals differ from each other, so two values that stand for the
    /// same thing are the same variant.
    pub proof fn lemma_view_tells_variants_apart(a: Icon, b: Icon)
        requires
            a@ == b@,
        ensures
            a is AdvertisingIcon <==> b is AdvertisingIcon,
            a is CardIcon <==> b is CardIcon,
            a is EducationStipendIcon <==> b is EducationStipendIcon,
            a is LunchOrderingIcon <==> b is LunchOrderingIcon,
            a is OnboardingIcon <==> b is OnboardingIcon,
            a is PerDiemCardIcon <==> b is PerDiemCardIcon,
            a is SaasSubscriptionIcon <==> b is SaasSubscriptionIcon,
            a is SoftwareTrialIcon <==> b is SoftwareTrialIcon,
            a is TravelExpensesIcon <==> b is TravelExpensesIcon,
            a is WellnessIcon <==> b is WellnessIcon,
            a is Noop <==> b is Noop,
            a is FallthroughString <==> b is FallthroughString,
    {
        reveal_strlit("AdvertisingIcon");
        reveal_strlit("CardIcon");
        reveal_strlit("EducationStipendIcon");
        reveal_strlit("LunchOrderingIcon");
        reveal_strlit("OnboardingIcon");
        reveal_strlit("PerDiemCardIcon");
        reveal_strlit("SaasSubscriptionIcon");
        reveal_strlit("SoftwareTrialIcon");
        reveal_strlit("TravelExpensesIcon");
        reveal_strlit("WellnessIcon");
        assert("AdvertisingIcon"@.len() == 15);
        assert("CardIcon"@.len() == 8);
        assert("EducationStipendIcon"@.len() == 20);
        assert("LunchOrderingIcon"@.len() == 17);
        assert("OnboardingIcon"@.len() == 14);
        assert("PerDiemCardIcon"@.len() == 15);
        assert("SaasSubscriptionIcon"@.len() == 20);
        assert("SoftwareTrialIcon"@.len() == 17);
        assert("TravelExpensesIcon"@.len() == 18);
        assert("WellnessIcon"@.len() == 12);
        assert("AdvertisingIcon"@[0] != "PerDiemCardIcon"@[0]);
        assert("EducationStipendIcon"@[0] != "SaasSubscriptionIcon"@[0]);
        assert("LunchOrderingIcon"@[0] != "SoftwareTrialIcon"@[0]);
    }
}

/// The fields of a user to invite.
#[derive(Debug, Clone, Default)]
pub struct PostUsersDeferredRequest {
    pub department_id: String,
    pub direct_manager_id: String,
    pub email: String,
    pub first_name: String,
    pub last_name: String,
    pub location_id: String,
    pub phone: String,
    pub role: Role,
}

/// What a deferred user task has produced so far.
#[derive(Debug, Clone, Default)]
pub struct GetUsersDeferredStatusResponseData {
    pub error: String,
    pub id: String,
    pub misc: String,
    pub user_id: String,
}

/// The state of a deferred user task.
#[derive(Debug, Clone, Default)]
pub struct GetUsersDeferredStatusResponse {
    pub data: Option<GetUsersDeferredStatusResponseData>,
    pub id: String,
    pub status: String,
}

/// The error of a deferred user task, if it failed.
#[derive(Debug, Clone, Default)]
pub struct GetUsersDeferredStatusResponseDataType {
    pub error: Option<Error>,
}

/// A receipt attached to a transaction.
#[derive(Debug, Clone, Default)]
pub struct Receipt {
    pub created_at: Option<Timestamp>,
    pub id: String,
    pub receipt_url: String,
    pub transaction_id: String,
    pub user_id: String,
}

/// One page of the list of receipts.
#[derive(Debug, Clone, Default)]
pub struct GetReceiptsResponse {
    pub data: Vec<Receipt>,
    pub page: Page,
}

/// A link between a custom id and a native id.
#[derive(Debug, Clone, Default)]
pub struct PostCustomProviderEntityTypeLinkRequest {
    pub custom_id: String,
    pub ramp_id: String,
}

} // verus!
