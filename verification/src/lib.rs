//! Decoder for a fixed-shape JSON "cart" document.
//!
//! One decode pass turns a byte slice holding a single JSON document into the
//! typed [`Shop`] tree, or into a [`DecodeError`] naming the first violation.
//! Two fields are coercible (they accept a JSON string or a JSON number):
//! the monetary amount and the postal code. Everything else is matched
//! strictly by type, with a fixed rename table from JSON keys to field names.

mod decode;
mod jsonval;
mod laws;
mod numtext;
mod shop;

pub use decode::{
    de_amount, de_zip_code, decode_post, parse_to_shop, result_matches, spec_de_amount,
    spec_de_zip, spec_decode_address, spec_decode_cart, spec_decode_cost, spec_decode_cost_amount,
    spec_decode_customer, spec_decode_group, spec_decode_groups, spec_decode_identity,
    spec_decode_items, spec_decode_shop, spec_field, spec_text_field,
};
pub use jsonval::{jmodel, json_parse, JsonData, JsonKind, ParseOutcome};
pub use laws::{law_missing_email_is_missing_field_error, 
    complete_shape, group_shape, has_member, law_amount_bad_text_is_coercion_error,
    law_amount_string_number_agree, law_coercion_rejects_other_types, law_decode_deterministic,
    law_empty_groups_decode, law_groups_preserve_order, law_ok_needs_complete_shape,
    law_zip_string_number_agree, member,
};
pub use numtext::{
    all_digits, digits_val, is_amount_text, is_float_text, parse_u32_text, spec_u32_text,
    spec_u64_digits,
};
pub use shop::{
    groups_view, Cart, CartV, Cost, CostAmount, CostAmountV, CostV, Customer, CustomerV,
    DecodeError, DeliveryAddress, DeliveryAddressV, DeliveryGroup, DeliveryGroupV, Field, Identity,
    IdentityV, Shop, ShopV,
};
