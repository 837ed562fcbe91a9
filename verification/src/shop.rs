//! The typed tree that a decode produces, and the decode error taxonomy.

use vstd::prelude::*;

verus! {

/// A position in the expected document shape, named by the field that holds
/// it (or `Root` for the top-level document). Errors carry one of these so a
/// caller can see which field was violated.
#[derive(Debug, Clone, Copy, PartialEq, Eq, Structural)]
pub enum Field {
    Root,
    Cart,
    Cost,
    TotalAmount,
    Amount,
    DeliveryGroups,
    DeliveryGroup,
    DeliveryAddress,
    City,
    CountryCode,
    ProvinceCode,
    Zip,
    BuyerIdentity,
    Customer,
    Email,
}

/// Why a decode failed. A decode aborts at the first violation and returns
/// exactly one of these; no partial tree is ever produced.
#[derive(Debug, Clone, Copy, PartialEq, Eq, Structural)]
pub enum DecodeError {
    /// The input is not well-formed JSON.
    SyntaxError,
    /// The input ended before the document was complete.
    UnexpectedEndOfInput,
    /// A required key is absent from the named object.
    MissingFieldError(Field),
    /// A field's JSON type is not accepted at that position.
    TypeMismatchError(Field),
    /// A coercible field held a string that does not read as the target
    /// number, or a number outside the target's range.
    CoercionError(Field),
}

/// The monetary amount, kept as its decimal text (digits, an optional sign,
/// fraction and exponent). The text is exactly what the document carried: the
/// string's own characters, or the number's canonical rendering. A caller
/// that wants the floating-point value parses this text; the decoder itself
/// guarantees the text reads as a floating-point literal.
#[derive(Debug, Clone, PartialEq)]
pub struct CostAmount {
    pub amount: String,
}

#[derive(Debug, Clone, PartialEq)]
pub struct Cost {
    pub total_amount: CostAmount,
}

#[derive(Debug, Clone, PartialEq)]
pub struct DeliveryAddress {
    pub city: String,
    pub country_code: String,
    pub province_code: String,
    pub zip: u32,
}

#[derive(Debug, Clone, PartialEq)]
pub struct DeliveryGroup {
    pub delivery_address: DeliveryAddress,
}

#[derive(Debug, Clone, PartialEq)]
pub struct Customer {
    pub email: String,
}

#[derive(Debug, Clone, PartialEq)]
pub struct Identity {
    pub customer: Customer,
}

#[derive(Debug, Clone, PartialEq)]
pub struct Cart {
    pub cost: Cost,
    pub delivery_groups: Vec<DeliveryGroup>,
    pub buyer_identity: Identity,
}

#[derive(Debug, Clone, PartialEq)]
pub struct Shop {
    pub cart: Cart,
}

/// Mathematical views of the tree, with text as `Seq<char>` and the group
/// vector as a `Seq`. Contracts speak of these.
pub struct CostAmountV {
    pub amount: Seq<char>,
}

pub struct CostV {
    pub total_amount: CostAmountV,
}

pub struct DeliveryAddressV {
    pub city: Seq<char>,
    pub country_code: Seq<char>,
    pub province_code: Seq<char>,
    pub zip: u32,
}

pub struct DeliveryGroupV {
    pub delivery_address: DeliveryAddressV,
}

pub struct CustomerV {
    pub email: Seq<char>,
}

pub struct IdentityV {
    pub customer: CustomerV,
}

pub struct CartV {
    pub cost: CostV,
    pub delivery_groups: Seq<DeliveryGroupV>,
    pub buyer_identity: IdentityV,
}

pub struct ShopV {
    pub cart: CartV,
}

impl View for CostAmount {
    type V = CostAmountV;

    open spec fn view(&self) -> CostAmountV {
        CostAmountV { amount: self.amount@ }
    }
}

impl View for Cost {
    type V = CostV;

    open spec fn view(&self) -> CostV {
        CostV { total_amount: self.total_amount@ }
    }
}

impl View for DeliveryAddress {
    type V = DeliveryAddressV;

    open spec fn view(&self) -> DeliveryAddressV {
        DeliveryAddressV {
            city: self.city@,
            country_code: self.country_code@,
            province_code: self.province_code@,
            zip: self.zip,
        }
    }
}

impl View for DeliveryGroup {
    type V = DeliveryGroupV;

    open spec fn view(&self) -> DeliveryGroupV {
        DeliveryGroupV { delivery_address: self.delivery_address@ }
    }
}

impl View for Customer {
    type V = CustomerV;

    open spec fn view(&self) -> CustomerV {
        CustomerV { email: self.email@ }
    }
}

impl View for Identity {
    type V = IdentityV;

    open spec fn view(&self) -> IdentityV {
        IdentityV { customer: self.customer@ }
    }
}

/// The view of a group vector: each group's own view, in the same order.
pub open spec fn groups_view(gs: Seq<DeliveryGroup>) -> Seq<DeliveryGroupV> {
    Seq::new(gs.len(), |i: int| gs[i]@)
}

impl View for Cart {
    type V = CartV;

    open spec fn view(&self) -> CartV {
        CartV {
            cost: self.cost@,
            delivery_groups: groups_view(self.delivery_groups@),
            buyer_identity: self.buyer_identity@,
        }
    }
}

impl View for Shop {
    type V = ShopV;

    open spec fn view(&self) -> ShopV {
        ShopV { cart: self.cart@ }
    }
}

} // verus!
