//! The decode itself: the meaning of each position in the document shape as a
//! spec function over `JsonData`, and the executable decoder proved to match
//! it.
//!
//! Key names in the document differ from field names in the tree through a
//! fixed rename table (`totalAmount` to `total_amount`, `deliveryGroups` to
//! `delivery_groups`, and so on); the keys below are the document's spelling.

use vstd::prelude::*;
use vstd::slice::slice_index_get;

use serde_json::Value;

use crate::jsonval::{
    arr_items, jmodel, json_kind, json_parse, num_text, num_u64, obj_get, parse_document,
    str_value, JsonData, JsonKind, ParseOutcome,
};
use crate::numtext::{is_amount_text, is_float_text, parse_u32_text, spec_u32_text, spec_u64_digits};
use crate::shop::{
    groups_view, Cart, CartV, Cost, CostAmount, CostAmountV, CostV, Customer, CustomerV,
    DecodeError, DeliveryAddress, DeliveryAddressV, DeliveryGroup, DeliveryGroupV, Field, Identity,
    IdentityV, Shop, ShopV,
};

verus! {

/// An executable decode result matches its specified counterpart: same
/// success or failure, the same error, and on success the same view.
pub open spec fn result_matches<T: View>(
    r: Result<T, DecodeError>,
    s: Result<<T as View>::V, DecodeError>,
) -> bool {
    match s {
        Ok(sv) => r is Ok && r->Ok_0@ == sv,
        Err(e) => r is Err && r->Err_0 == e,
    }
}

/// Looking a required key up in the value standing at `at`: the value must be
/// an object, and the key must be present.
pub open spec fn spec_field(d: JsonData, key: Seq<char>, at: Field, name: Field) -> Result<
    JsonData,
    DecodeError,
> {
    if !(d is Obj) {
        Err(DecodeError::TypeMismatchError(at))
    } else if d->Obj_0.contains_key(key) {
        Ok(d->Obj_0[key])
    } else {
        Err(DecodeError::MissingFieldError(name))
    }
}

/// A strict text field accepts exactly a JSON string.
pub open spec fn spec_text_field(d: JsonData, name: Field) -> Result<Seq<char>, DecodeError> {
    match d {
        JsonData::Str(s) => Ok(s),
        _ => Err(DecodeError::TypeMismatchError(name)),
    }
}

/// The amount accepts a JSON string that reads as a floating-point literal,
/// or any JSON number; the decoded amount is the literal's text. Any other
/// JSON type is a type mismatch; a string that does not read as a number is a
/// coercion failure.
pub open spec fn spec_de_amount(d: JsonData) -> Result<Seq<char>, DecodeError> {
    match d {
        JsonData::Str(s) => if is_float_text(s) {
            Ok(s)
        } else {
            Err(DecodeError::CoercionError(Field::Amount))
        },
        JsonData::Num(t) => Ok(t),
        _ => Err(DecodeError::TypeMismatchError(Field::Amount)),
    }
}

/// The postal code accepts a JSON string that reads as a `u32`, or a JSON
/// number that is an integer within `u32` range. Any other JSON type is a
/// type mismatch; a failed reading or an out-of-range value is a coercion
/// failure.
pub open spec fn spec_de_zip(d: JsonData) -> Result<u32, DecodeError> {
    match d {
        JsonData::Str(s) => match spec_u32_text(s) {
            Some(z) => Ok(z),
            None => Err(DecodeError::CoercionError(Field::Zip)),
        },
        JsonData::Num(t) => match spec_u64_digits(t) {
            Some(u) => if u <= u32::MAX as u64 {
                Ok(u as u32)
            } else {
                Err(DecodeError::CoercionError(Field::Zip))
            },
            None => Err(DecodeError::CoercionError(Field::Zip)),
        },
        _ => Err(DecodeError::TypeMismatchError(Field::Zip)),
    }
}

pub open spec fn spec_decode_cost_amount(d: JsonData) -> Result<CostAmountV, DecodeError> {
    match spec_field(d, "amount"@, Field::TotalAmount, Field::Amount) {
        Ok(av) => match spec_de_amount(av) {
            Ok(t) => Ok(CostAmountV { amount: t }),
            Err(e) => Err(e),
        },
        Err(e) => Err(e),
    }
}

pub open spec fn spec_decode_cost(d: JsonData) -> Result<CostV, DecodeError> {
    match spec_field(d, "totalAmount"@, Field::Cost, Field::TotalAmount) {
        Ok(tv) => match spec_decode_cost_amount(tv) {
            Ok(ta) => Ok(CostV { total_amount: ta }),
            Err(e) => Err(e),
        },
        Err(e) => Err(e),
    }
}

pub open spec fn spec_decode_address(d: JsonData) -> Result<DeliveryAddressV, DecodeError> {
    match spec_field(d, "city"@, Field::DeliveryAddress, Field::City) {
        Ok(cv) => match spec_text_field(cv, Field::City) {
            Ok(city) => match spec_field(d, "countryCode"@, Field::DeliveryAddress, Field::CountryCode) {
                Ok(ccv) => match spec_text_field(ccv, Field::CountryCode) {
                    Ok(country) => match spec_field(
                        d,
                        "provinceCode"@,
                        Field::DeliveryAddress,
                        Field::ProvinceCode,
                    ) {
                        Ok(pcv) => match spec_text_field(pcv, Field::ProvinceCode) {
                            Ok(province) => match spec_field(
                                d,
                                "zip"@,
                                Field::DeliveryAddress,
                                Field::Zip,
                            ) {
                                Ok(zv) => match spec_de_zip(zv) {
                                    Ok(zip) => Ok(
                                        DeliveryAddressV {
                                            city: city,
                                            country_code: country,
                                            province_code: province,
                                            zip: zip,
                                        },
                                    ),
                                    Err(e) => Err(e),
                                },
                                Err(e) => Err(e),
                            },
                            Err(e) => Err(e),
                        },
                        Err(e) => Err(e),
                    },
                    Err(e) => Err(e),
                },
                Err(e) => Err(e),
            },
            Err(e) => Err(e),
        },
        Err(e) => Err(e),
    }
}

pub open spec fn spec_decode_group(d: JsonData) -> Result<DeliveryGroupV, DecodeError> {
    match spec_field(d, "deliveryAddress"@, Field::DeliveryGroup, Field::DeliveryAddress) {
        Ok(av) => match spec_decode_address(av) {
            Ok(addr) => Ok(DeliveryGroupV { delivery_address: addr }),
            Err(e) => Err(e),
        },
        Err(e) => Err(e),
    }
}

/// Decoding the elements of the group array, in order; the first failing
/// element aborts the whole decode with its own error.
pub open spec fn spec_decode_items(items: Seq<JsonData>) -> Result<Seq<DeliveryGroupV>, DecodeError>
    decreases items.len(),
{
    if items.len() == 0 {
        Ok(Seq::empty())
    } else {
        match spec_decode_group(items[0]) {
            Ok(g) => match spec_decode_items(items.skip(1)) {
                Ok(rest) => Ok(seq![g] + rest),
                Err(e) => Err(e),
            },
            Err(e) => Err(e),
        }
    }
}

pub open spec fn spec_decode_groups(d: JsonData) -> Result<Seq<DeliveryGroupV>, DecodeError> {
    if !(d is Arr) {
        Err(DecodeError::TypeMismatchError(Field::DeliveryGroups))
    } else {
        spec_decode_items(d->Arr_0)
    }
}

pub open spec fn spec_decode_customer(d: JsonData) -> Result<CustomerV, DecodeError> {
    match spec_field(d, "email"@, Field::Customer, Field::Email) {
        Ok(ev) => match spec_text_field(ev, Field::Email) {
            Ok(email) => Ok(CustomerV { email: email }),
            Err(e) => Err(e),
        },
        Err(e) => Err(e),
    }
}

pub open spec fn spec_decode_identity(d: JsonData) -> Result<IdentityV, DecodeError> {
    match spec_field(d, "customer"@, Field::BuyerIdentity, Field::Customer) {
        Ok(cv) => match spec_decode_customer(cv) {
            Ok(c) => Ok(IdentityV { customer: c }),
            Err(e) => Err(e),
        },
        Err(e) => Err(e),
    }
}

pub open spec fn spec_decode_cart(d: JsonData) -> Result<CartV, DecodeError> {
    match spec_field(d, "cost"@, Field::Cart, Field::Cost) {
        Ok(cv) => match spec_decode_cost(cv) {
            Ok(cost) => match spec_field(d, "deliveryGroups"@, Field::Cart, Field::DeliveryGroups) {
                Ok(gv) => match spec_decode_groups(gv) {
                    Ok(groups) => match spec_field(
                        d,
                        "buyerIdentity"@,
                        Field::Cart,
                        Field::BuyerIdentity,
                    ) {
                        Ok(bv) => match spec_decode_identity(bv) {
                            Ok(ident) => Ok(
                                CartV {
                                    cost: cost,
                                    delivery_groups: groups,
                                    buyer_identity: ident,
                                },
                            ),
                            Err(e) => Err(e),
                        },
                        Err(e) => Err(e),
                    },
                    Err(e) => Err(e),
                },
                Err(e) => Err(e),
            },
            Err(e) => Err(e),
        },
        Err(e) => Err(e),
    }
}

pub open spec fn spec_decode_shop(d: JsonData) -> Result<ShopV, DecodeError> {
    match spec_field(d, "cart"@, Field::Root, Field::Cart) {
        Ok(cv) => match spec_decode_cart(cv) {
            Ok(cart) => Ok(ShopV { cart: cart }),
            Err(e) => Err(e),
        },
        Err(e) => Err(e),
    }
}

/// What `parse_to_shop` promises of its result for the given input bytes.
pub open spec fn decode_post(bytes: Seq<u8>, r: Result<Shop, DecodeError>) -> bool {
    match json_parse(bytes) {
        ParseOutcome::Doc(d) => result_matches(r, spec_decode_shop(d)),
        ParseOutcome::BadSyntax => r == Err::<Shop, DecodeError>(DecodeError::SyntaxError),
        ParseOutcome::EarlyEnd => r == Err::<Shop, DecodeError>(DecodeError::UnexpectedEndOfInput),
    }
}

/// Coerces one JSON value into the amount text, exactly as `spec_de_amount`
/// states it.
pub fn de_amount(v: &Value) -> (r: Result<String, DecodeError>)
    ensures
        result_matches(r, spec_de_amount(jmodel(*v))),
{
    match str_value(v) {
        Some(s) => {
            if is_amount_text(s.as_str()) {
                Ok(s)
            } else {
                Err(DecodeError::CoercionError(Field::Amount))
            }
        },
        None => match num_text(v) {
            Some(t) => Ok(t),
            None => Err(DecodeError::TypeMismatchError(Field::Amount)),
        },
    }
}

/// Coerces one JSON value into the postal code, exactly as `spec_de_zip`
/// states it.
pub fn de_zip_code(v: &Value) -> (r: Result<u32, DecodeError>)
    ensures
        r == spec_de_zip(jmodel(*v)),
{
    match str_value(v) {
        Some(s) => match parse_u32_text(s.as_str()) {
            Some(z) => Ok(z),
            None => Err(DecodeError::CoercionError(Field::Zip)),
        },
        None => {
            if json_kind(v) != JsonKind::Number {
                return Err(DecodeError::TypeMismatchError(Field::Zip));
            }
            match num_u64(v) {
                Some(u) => {
                    if u <= 0xFFFF_FFFFu64 {
                        Ok(u as u32)
                    } else {
                        Err(DecodeError::CoercionError(Field::Zip))
                    }
                },
                None => Err(DecodeError::CoercionError(Field::Zip)),
            }
        },
    }
}

/// A required member of the object standing at `at`.
fn get_field<'a>(v: &'a Value, key: &str, at: Field, name: Field) -> (r: Result<
    &'a Value,
    DecodeError,
>)
    ensures
        spec_field(jmodel(*v), key@, at, name) is Ok ==> r is Ok && jmodel(*r->Ok_0) == spec_field(
            jmodel(*v),
            key@,
            at,
            name,
        )->Ok_0,
        spec_field(jmodel(*v), key@, at, name) is Err ==> r is Err && r->Err_0 == spec_field(
            jmodel(*v),
            key@,
            at,
            name,
        )->Err_0,
{
    if json_kind(v) != JsonKind::Object {
        return Err(DecodeError::TypeMismatchError(at));
    }
    match obj_get(v, key) {
        Some(m) => Ok(m),
        None => Err(DecodeError::MissingFieldError(name)),
    }
}

/// A strict text field.
fn get_text(v: &Value, name: Field) -> (r: Result<String, DecodeError>)
    ensures
        result_matches(r, spec_text_field(jmodel(*v), name)),
{
    match str_value(v) {
        Some(s) => Ok(s),
        None => Err(DecodeError::TypeMismatchError(name)),
    }
}

fn decode_cost_amount(v: &Value) -> (r: Result<CostAmount, DecodeError>)
    ensures
        result_matches(r, spec_decode_cost_amount(jmodel(*v))),
{
    let av = match get_field(v, "amount", Field::TotalAmount, Field::Amount) {
        Ok(m) => m,
        Err(e) => return Err(e),
    };
    match de_amount(av) {
        Ok(t) => Ok(CostAmount { amount: t }),
        Err(e) => Err(e),
    }
}

fn decode_cost(v: &Value) -> (r: Result<Cost, DecodeError>)
    ensures
        result_matches(r, spec_decode_cost(jmodel(*v))),
{
    let tv = match get_field(v, "totalAmount", Field::Cost, Field::TotalAmount) {
        Ok(m) => m,
        Err(e) => return Err(e),
    };
    match decode_cost_amount(tv) {
        Ok(ta) => Ok(Cost { total_amount: ta }),
        Err(e) => Err(e),
    }
}

fn decode_address(v: &Value) -> (r: Result<DeliveryAddress, DecodeError>)
    ensures
        result_matches(r, spec_decode_address(jmodel(*v))),
{
    let cv = match get_field(v, "city", Field::DeliveryAddress, Field::City) {
        Ok(m) => m,
        Err(e) => return Err(e),
    };
    let city = match get_text(cv, Field::City) {
        Ok(s) => s,
        Err(e) => return Err(e),
    };
    let ccv = match get_field(v, "countryCode", Field::DeliveryAddress, Field::CountryCode) {
        Ok(m) => m,
        Err(e) => return Err(e),
    };
    let country_code = match get_text(ccv, Field::CountryCode) {
        Ok(s) => s,
        Err(e) => return Err(e),
    };
    let pcv = match get_field(v, "provinceCode", Field::DeliveryAddress, Field::ProvinceCode) {
        Ok(m) => m,
        Err(e) => return Err(e),
    };
    let province_code = match get_text(pcv, Field::ProvinceCode) {
        Ok(s) => s,
        Err(e) => return Err(e),
    };
    let zv = match get_field(v, "zip", Field::DeliveryAddress, Field::Zip) {
        Ok(m) => m,
        Err(e) => return Err(e),
    };
    match de_zip_code(zv) {
        Ok(zip) => Ok(
            DeliveryAddress {
                city: city,
                country_code: country_code,
                province_code: province_code,
                zip: zip,
            },
        ),
        Err(e) => Err(e),
    }
}

fn decode_group(v: &Value) -> (r: Result<DeliveryGroup, DecodeError>)
    ensures
        result_matches(r, spec_decode_group(jmodel(*v))),
{
    let av = match get_field(v, "deliveryAddress", Field::DeliveryGroup, Field::DeliveryAddress) {
        Ok(m) => m,
        Err(e) => return Err(e),
    };
    match decode_address(av) {
        Ok(addr) => Ok(DeliveryGroup { delivery_address: addr }),
        Err(e) => Err(e),
    }
}

/// When every element decodes, the whole array decodes to the elements'
/// results, in order.
proof fn lemma_items_ok(items: Seq<JsonData>)
    requires
        forall|j: int| 0 <= j < items.len() ==> (#[trigger] spec_decode_group(items[j])) is Ok,
    ensures
        spec_decode_items(items) is Ok,
        spec_decode_items(items)->Ok_0 == Seq::new(
            items.len(),
            |j: int| spec_decode_group(items[j])->Ok_0,
        ),
    decreases items.len(),
{
    if items.len() == 0 {
        assert(spec_decode_items(items)->Ok_0 =~= Seq::new(
            items.len(),
            |j: int| spec_decode_group(items[j])->Ok_0,
        ));
    } else {
        assert(forall|j: int|
            0 <= j < items.skip(1).len() ==> (#[trigger] spec_decode_group(items.skip(1)[j]))
                is Ok) by {
            assert(forall|j: int|
                0 <= j < items.skip(1).len() ==> items.skip(1)[j] == items[j + 1]);
        }
        lemma_items_ok(items.skip(1));
        assert(spec_decode_items(items)->Ok_0 =~= Seq::new(
            items.len(),
            |j: int| spec_decode_group(items[j])->Ok_0,
        )) by {
            assert(forall|j: int|
                0 <= j < items.skip(1).len() ==> items.skip(1)[j] == items[j + 1]);
        }
    }
}

/// When a prefix decodes and the next element fails, the whole array fails
/// with that element's error.
proof fn lemma_items_err(items: Seq<JsonData>, i: int)
    requires
        0 <= i < items.len(),
        forall|j: int| 0 <= j < i ==> (#[trigger] spec_decode_group(items[j])) is Ok,
        spec_decode_group(items[i]) is Err,
    ensures
        spec_decode_items(items) == Err::<Seq<DeliveryGroupV>, DecodeError>(
            spec_decode_group(items[i])->Err_0,
        ),
    decreases i,
{
    if i == 0 {
    } else {
        assert(forall|j: int| 0 <= j < items.skip(1).len() ==> items.skip(1)[j] == items[j + 1]);
        lemma_items_err(items.skip(1), i - 1);
    }
}

fn decode_groups(v: &Value) -> (r: Result<Vec<DeliveryGroup>, DecodeError>)
    ensures
        spec_decode_groups(jmodel(*v)) is Ok ==> r is Ok && groups_view(r->Ok_0@)
            == spec_decode_groups(jmodel(*v))->Ok_0,
        spec_decode_groups(jmodel(*v)) is Err ==> r is Err && r->Err_0 == spec_decode_groups(
            jmodel(*v),
        )->Err_0,
{
    let items = match arr_items(v) {
        Some(it) => it,
        None => return Err(DecodeError::TypeMismatchError(Field::DeliveryGroups)),
    };
    let ghost ms = jmodel(*v)->Arr_0;
    let s = items.as_slice();
    let n: usize = s.len();
    let mut out: Vec<DeliveryGroup> = Vec::new();
    let mut i: usize = 0;
    while i < n
        invariant
            0 <= i <= n,
            n == s@.len(),
            s@ == items@,
            jmodel(*v) is Arr,
            ms == jmodel(*v)->Arr_0,
            ms.len() == n,
            forall|j: int| 0 <= j < n ==> jmodel(#[trigger] s@[j]) == ms[j],
            out@.len() == i,
            forall|j: int| 0 <= j < i ==> (#[trigger] spec_decode_group(ms[j])) is Ok,
            forall|j: int| 0 <= j < i ==> #[trigger] out@[j]@ == spec_decode_group(ms[j])->Ok_0,
        decreases n - i,
    {
        let elem = slice_index_get(s, i);
        match decode_group(elem) {
            Ok(g) => {
                out.push(g);
            },
            Err(e) => {
                proof {
                    lemma_items_err(ms, i as int);
                }
                return Err(e);
            },
        }
        i = i + 1;
    }
    proof {
        lemma_items_ok(ms);
        assert(groups_view(out@) =~= spec_decode_items(ms)->Ok_0);
    }
    Ok(out)
}

fn decode_customer(v: &Value) -> (r: Result<Customer, DecodeError>)
    ensures
        result_matches(r, spec_decode_customer(jmodel(*v))),
{
    let ev = match get_field(v, "email", Field::Customer, Field::Email) {
        Ok(m) => m,
        Err(e) => return Err(e),
    };
    match get_text(ev, Field::Email) {
        Ok(email) => Ok(Customer { email: email }),
        Err(e) => Err(e),
    }
}

fn decode_identity(v: &Value) -> (r: Result<Identity, DecodeError>)
    ensures
        result_matches(r, spec_decode_identity(jmodel(*v))),
{
    let cv = match get_field(v, "customer", Field::BuyerIdentity, Field::Customer) {
        Ok(m) => m,
        Err(e) => return Err(e),
    };
    match decode_customer(cv) {
        Ok(c) => Ok(Identity { customer: c }),
        Err(e) => Err(e),
    }
}

fn decode_cart(v: &Value) -> (r: Result<Cart, DecodeError>)
    ensures
        result_matches(r, spec_decode_cart(jmodel(*v))),
{
    let cv = match get_field(v, "cost", Field::Cart, Field::Cost) {
        Ok(m) => m,
        Err(e) => return Err(e),
    };
    let cost = match decode_cost(cv) {
        Ok(c) => c,
        Err(e) => return Err(e),
    };
    let gv = match get_field(v, "deliveryGroups", Field::Cart, Field::DeliveryGroups) {
        Ok(m) => m,
        Err(e) => return Err(e),
    };
    let groups = match decode_groups(gv) {
        Ok(g) => g,
        Err(e) => return Err(e),
    };
    let bv = match get_field(v, "buyerIdentity", Field::Cart, Field::BuyerIdentity) {
        Ok(m) => m,
        Err(e) => return Err(e),
    };
    match decode_identity(bv) {
        Ok(ident) => Ok(Cart { cost: cost, delivery_groups: groups, buyer_identity: ident }),
        Err(e) => Err(e),
    }
}

fn decode_shop(v: &Value) -> (r: Result<Shop, DecodeError>)
    ensures
        result_matches(r, spec_decode_shop(jmodel(*v))),
{
    let cv = match get_field(v, "cart", Field::Root, Field::Cart) {
        Ok(m) => m,
        Err(e) => return Err(e),
    };
    match decode_cart(cv) {
        Ok(cart) => Ok(Shop { cart: cart }),
        Err(e) => Err(e),
    }
}

/// Decodes one JSON document into the typed tree, or reports the first
/// violation. The outcome is exactly what `decode_post` states of the bytes:
/// a syntax failure or a premature end from the parser, or the shape decode
/// of the parsed document as `spec_decode_shop` defines it.
pub fn parse_to_shop(bytes: &[u8]) -> (r: Result<Shop, DecodeError>)
    ensures
        decode_post(bytes@, r),
{
    let v = match parse_document(bytes) {
        Ok(v) => v,
        Err(e) => return Err(e),
    };
    decode_shop(&v)
}

} // verus!
