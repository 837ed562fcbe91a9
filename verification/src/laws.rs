//! Laws of the decode: properties that hold of every input, stated over the
//! spec functions of `decode` and proved once and for all.

use vstd::prelude::*;

use crate::decode::{
    spec_de_amount, spec_de_zip, spec_decode_cart, spec_decode_cost, spec_decode_cost_amount,
    spec_decode_address, spec_decode_customer, spec_decode_group, spec_decode_groups,
    spec_decode_identity, spec_decode_items, spec_decode_shop, decode_post,
};
use crate::jsonval::JsonData;
use crate::numtext::{all_digits, digits_val, is_float_text, spec_u32_text, spec_u64_digits};
use crate::shop::{DecodeError, DeliveryGroupV, Field, Shop};

verus! {

/// Whether the document has, at each position its shape requires, an object
/// that holds the required key: the root holds `cart`, the cart holds `cost`,
/// `deliveryGroups` and `buyerIdentity`, and so on down to every leaf.
pub open spec fn complete_shape(d: JsonData) -> bool {
    &&& has_member(d, "cart"@)
    &&& {
        let cart = member(d, "cart"@);
        &&& has_member(cart, "cost"@)
        &&& has_member(cart, "deliveryGroups"@)
        &&& has_member(cart, "buyerIdentity"@)
        &&& has_member(member(cart, "cost"@), "totalAmount"@)
        &&& has_member(member(member(cart, "cost"@), "totalAmount"@), "amount"@)
        &&& member(cart, "deliveryGroups"@) is Arr
        &&& (forall|i: int|
            0 <= i < member(cart, "deliveryGroups"@)->Arr_0.len() ==> group_shape(
                #[trigger] member(cart, "deliveryGroups"@)->Arr_0[i],
            ))
        &&& has_member(member(cart, "buyerIdentity"@), "customer"@)
        &&& has_member(member(member(cart, "buyerIdentity"@), "customer"@), "email"@)
    }
}

pub open spec fn group_shape(g: JsonData) -> bool {
    &&& has_member(g, "deliveryAddress"@)
    &&& has_member(member(g, "deliveryAddress"@), "city"@)
    &&& has_member(member(g, "deliveryAddress"@), "countryCode"@)
    &&& has_member(member(g, "deliveryAddress"@), "provinceCode"@)
    &&& has_member(member(g, "deliveryAddress"@), "zip"@)
}

pub open spec fn has_member(d: JsonData, key: Seq<char>) -> bool {
    d is Obj && d->Obj_0.contains_key(key)
}

pub open spec fn member(d: JsonData, key: Seq<char>) -> JsonData {
    d->Obj_0[key]
}

proof fn lemma_items_ok_each(items: Seq<JsonData>)
    requires
        spec_decode_items(items) is Ok,
    ensures
        forall|i: int| 0 <= i < items.len() ==> (#[trigger] spec_decode_group(items[i])) is Ok,
    decreases items.len(),
{
    if items.len() > 0 {
        lemma_items_ok_each(items.skip(1));
        assert forall|i: int| 0 <= i < items.len() implies (#[trigger] spec_decode_group(items[i]))
            is Ok by {
            if i > 0 {
                assert(items.skip(1)[i - 1] == items[i]);
                assert(spec_decode_group(items.skip(1)[i - 1]) is Ok);
            }
        }
    }
}

/// A decode never succeeds on a document that omits a required key: a `Shop`
/// comes out only of a document whose whole required shape is present.
pub proof fn law_ok_needs_complete_shape(d: JsonData)
    requires
        spec_decode_shop(d) is Ok,
    ensures
        complete_shape(d),
{
    let cart = member(d, "cart"@);
    assert(spec_decode_cart(cart) is Ok);
    let groups = member(cart, "deliveryGroups"@);
    assert(spec_decode_groups(groups) is Ok);
    lemma_items_ok_each(groups->Arr_0);
    assert forall|i: int| 0 <= i < groups->Arr_0.len() implies group_shape(
        #[trigger] groups->Arr_0[i],
    ) by {
        assert(spec_decode_group(groups->Arr_0[i]) is Ok);
        assert(spec_decode_address(member(groups->Arr_0[i], "deliveryAddress"@)) is Ok);
    }
}

/// When the document reaches its customer object but that object omits the
/// required `email` key, the decode fails exactly with the missing-field
/// error naming `email` — never with a `Shop` and never with another error.
pub proof fn law_missing_email_is_missing_field_error(d: JsonData)
    requires
        has_member(d, "cart"@),
        spec_decode_cost(member(member(d, "cart"@), "cost"@)) is Ok,
        has_member(member(d, "cart"@), "cost"@),
        has_member(member(d, "cart"@), "deliveryGroups"@),
        spec_decode_groups(member(member(d, "cart"@), "deliveryGroups"@)) is Ok,
        has_member(member(d, "cart"@), "buyerIdentity"@),
        has_member(member(member(d, "cart"@), "buyerIdentity"@), "customer"@),
        member(member(member(d, "cart"@), "buyerIdentity"@), "customer"@) is Obj,
        !member(member(member(d, "cart"@), "buyerIdentity"@), "customer"@)->Obj_0.contains_key(
            "email"@,
        ),
    ensures
        spec_decode_shop(d) == Err::<crate::shop::ShopV, DecodeError>(
            DecodeError::MissingFieldError(Field::Email),
        ),
{
}

/// The amount coercion accepts a floating-point text equally as a JSON string
/// and as a JSON number, and decodes both to the same amount: the text
/// itself.
pub proof fn law_amount_string_number_agree(t: Seq<char>)
    requires
        is_float_text(t),
    ensures
        spec_de_amount(JsonData::Str(t)) == Ok::<Seq<char>, DecodeError>(t),
        spec_de_amount(JsonData::Num(t)) == Ok::<Seq<char>, DecodeError>(t),
{
}

/// The zip coercion accepts a plain digit run within `u32` range equally as a
/// JSON string and as a JSON number, and decodes both to the same integer.
pub proof fn law_zip_string_number_agree(t: Seq<char>)
    requires
        t.len() >= 1,
        all_digits(t),
        digits_val(t) <= u32::MAX,
    ensures
        spec_de_zip(JsonData::Str(t)) == Ok::<u32, DecodeError>(digits_val(t) as u32),
        spec_de_zip(JsonData::Num(t)) == Ok::<u32, DecodeError>(digits_val(t) as u32),
{
    assert(t[0] != '+');
    assert(spec_u32_text(t) == Some(digits_val(t) as u32));
    assert(spec_u64_digits(t) == Some(digits_val(t) as u64));
}

/// A string that does not read as a floating-point literal fails the amount
/// coercion, and with a coercion error, never another kind.
pub proof fn law_amount_bad_text_is_coercion_error(t: Seq<char>)
    requires
        !is_float_text(t),
    ensures
        spec_de_amount(JsonData::Str(t)) == Err::<Seq<char>, DecodeError>(
            DecodeError::CoercionError(Field::Amount),
        ),
{
}

/// Any JSON type other than string or number fails both coercible fields,
/// and with a type mismatch, never another kind.
pub proof fn law_coercion_rejects_other_types(d: JsonData)
    requires
        !(d is Str),
        !(d is Num),
    ensures
        spec_de_amount(d) == Err::<Seq<char>, DecodeError>(
            DecodeError::TypeMismatchError(Field::Amount),
        ),
        spec_de_zip(d) == Err::<u32, DecodeError>(DecodeError::TypeMismatchError(Field::Zip)),
{
}

/// An empty group array decodes, to an empty group sequence.
pub proof fn law_empty_groups_decode(d: JsonData)
    requires
        d is Arr,
        d->Arr_0.len() == 0,
    ensures
        spec_decode_groups(d) == Ok::<Seq<DeliveryGroupV>, DecodeError>(Seq::empty()),
{
}

/// When every element of the group array decodes, the array decodes to the
/// elements' groups in the same order and number: position `j` of the result
/// is the decode of position `j` of the input.
pub proof fn law_groups_preserve_order(items: Seq<JsonData>)
    requires
        forall|j: int| 0 <= j < items.len() ==> (#[trigger] spec_decode_group(items[j])) is Ok,
    ensures
        spec_decode_items(items) is Ok,
        spec_decode_items(items)->Ok_0.len() == items.len(),
        forall|j: int|
            0 <= j < items.len() ==> spec_decode_items(items)->Ok_0[j] == (
            #[trigger] spec_decode_group(items[j]))->Ok_0,
    decreases items.len(),
{
    if items.len() > 0 {
        assert(forall|j: int| 0 <= j < items.skip(1).len() ==> items.skip(1)[j] == items[j + 1]);
        law_groups_preserve_order(items.skip(1));
        let rest = spec_decode_items(items.skip(1))->Ok_0;
        assert(spec_decode_items(items)->Ok_0 == seq![spec_decode_group(items[0])->Ok_0] + rest);
        assert forall|j: int|
            0 <= j < items.len() implies spec_decode_items(items)->Ok_0[j] == (
        #[trigger] spec_decode_group(items[j]))->Ok_0 by {
            if j > 0 {
                assert(items.skip(1)[j - 1] == items[j]);
                assert(rest[j - 1] == spec_decode_group(items.skip(1)[j - 1])->Ok_0);
                assert((seq![spec_decode_group(items[0])->Ok_0] + rest)[j] == rest[j - 1]);
            }
        }
    }
}

/// Decoding is a function of the input bytes alone: two results that both
/// satisfy the decode's contract for the same bytes agree — same success or
/// failure, the same error, and value-equal trees.
pub proof fn law_decode_deterministic(
    bytes: Seq<u8>,
    r1: Result<Shop, DecodeError>,
    r2: Result<Shop, DecodeError>,
)
    requires
        decode_post(bytes, r1),
        decode_post(bytes, r2),
    ensures
        r1 is Ok <==> r2 is Ok,
        r1 is Ok ==> r1->Ok_0@ == r2->Ok_0@,
        r1 is Err ==> r1 == r2,
{
}

} // verus!
