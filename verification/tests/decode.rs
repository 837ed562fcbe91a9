use cart_decode::{parse_to_shop, DecodeError, Field};

/// The full well-formed document, with `amount` and `zip` spelled as given.
fn doc(amount: &str, zip: &str) -> String {
    let mut s = String::new();
    s.push_str("{\"cart\":{\"cost\":{\"totalAmount\":{\"amount\":");
    s.push_str(amount);
    s.push_str("}},\"deliveryGroups\":[{\"deliveryAddress\":{\"city\":\"Sr\",");
    s.push_str("\"countryCode\":\"IN\",\"provinceCode\":\"GJ\",\"zip\":");
    s.push_str(zip);
    s.push_str("}}],\"buyerIdentity\":{\"customer\":{\"email\":\"helo@gmail.com\"}}}}");
    s
}

#[test]
fn parsing_hardcoded_json() {
    let json = doc("\"123.0\"", "\"123123\"");
    let shop = parse_to_shop(json.as_bytes()).expect("Failed to parse hardcoded json.");
    assert_eq!(shop.cart.cost.total_amount.amount.parse::<f32>().unwrap(), 123.0);
    assert_eq!(shop.cart.delivery_groups.len(), 1);
    assert_eq!(shop.cart.buyer_identity.customer.email, "helo@gmail.com");
}

#[test]
fn end_to_end_scenario() {
    let json = doc("\"123.0\"", "\"123123\"");
    let shop = parse_to_shop(json.as_bytes()).unwrap();
    assert_eq!(shop.cart.cost.total_amount.amount.parse::<f32>().unwrap(), 123.0);
    assert_eq!(shop.cart.delivery_groups.len(), 1);
    assert_eq!(shop.cart.delivery_groups[0].delivery_address.zip, 123123);
    assert_eq!(shop.cart.buyer_identity.customer.email, "helo@gmail.com");
}

#[test]
fn missing_email_is_missing_field() {
    let json = "{\"cart\":{\"cost\":{\"totalAmount\":{\"amount\":\"123.0\"}},\
                 \"deliveryGroups\":[],\
                 \"buyerIdentity\":{\"customer\":{}}}}";
    let r = parse_to_shop(json.as_bytes());
    assert_eq!(r.unwrap_err(), DecodeError::MissingFieldError(Field::Email));
}

#[test]
fn missing_cart_is_missing_field() {
    let r = parse_to_shop(b"{}");
    assert_eq!(r.unwrap_err(), DecodeError::MissingFieldError(Field::Cart));
}

#[test]
fn non_object_root_is_type_mismatch() {
    let r = parse_to_shop(b"5");
    assert_eq!(r.unwrap_err(), DecodeError::TypeMismatchError(Field::Root));
}

#[test]
fn amount_string_and_number_agree() {
    let a = parse_to_shop(doc("\"123.0\"", "123123").as_bytes()).unwrap();
    let b = parse_to_shop(doc("123.0", "123123").as_bytes()).unwrap();
    assert_eq!(a.cart.cost.total_amount.amount.parse::<f32>().unwrap(), 123.0);
    assert_eq!(b.cart.cost.total_amount.amount.parse::<f32>().unwrap(), 123.0);
    assert_eq!(a, b);
}

#[test]
fn zip_string_and_number_agree() {
    let a = parse_to_shop(doc("123.0", "\"123123\"").as_bytes()).unwrap();
    let b = parse_to_shop(doc("123.0", "123123").as_bytes()).unwrap();
    assert_eq!(a.cart.delivery_groups[0].delivery_address.zip, 123123);
    assert_eq!(b.cart.delivery_groups[0].delivery_address.zip, 123123);
    assert_eq!(a, b);
}

#[test]
fn amount_bad_text_is_coercion_error() {
    let r = parse_to_shop(doc("\"abc\"", "123123").as_bytes());
    assert_eq!(r.unwrap_err(), DecodeError::CoercionError(Field::Amount));
}

#[test]
fn amount_wrong_types_are_type_mismatch() {
    for bad in ["true", "null", "[]", "{}"] {
        let r = parse_to_shop(doc(bad, "123123").as_bytes());
        assert_eq!(r.unwrap_err(), DecodeError::TypeMismatchError(Field::Amount));
    }
}

#[test]
fn zip_wrong_types_are_type_mismatch() {
    for bad in ["true", "null", "[]", "{}"] {
        let r = parse_to_shop(doc("123.0", bad).as_bytes());
        assert_eq!(r.unwrap_err(), DecodeError::TypeMismatchError(Field::Zip));
    }
}

#[test]
fn zip_bad_text_is_coercion_error() {
    let r = parse_to_shop(doc("123.0", "\"12ab\"").as_bytes());
    assert_eq!(r.unwrap_err(), DecodeError::CoercionError(Field::Zip));
}

#[test]
fn zip_out_of_range_is_coercion_error() {
    let r = parse_to_shop(doc("123.0", "5000000000").as_bytes());
    assert_eq!(r.unwrap_err(), DecodeError::CoercionError(Field::Zip));
    let r = parse_to_shop(doc("123.0", "\"5000000000\"").as_bytes());
    assert_eq!(r.unwrap_err(), DecodeError::CoercionError(Field::Zip));
    let r = parse_to_shop(doc("123.0", "-1").as_bytes());
    assert_eq!(r.unwrap_err(), DecodeError::CoercionError(Field::Zip));
    let r = parse_to_shop(doc("123.0", "12.5").as_bytes());
    assert_eq!(r.unwrap_err(), DecodeError::CoercionError(Field::Zip));
}

#[test]
fn zip_at_range_edge() {
    let shop = parse_to_shop(doc("123.0", "4294967295").as_bytes()).unwrap();
    assert_eq!(shop.cart.delivery_groups[0].delivery_address.zip, u32::MAX);
    let r = parse_to_shop(doc("123.0", "4294967296").as_bytes());
    assert_eq!(r.unwrap_err(), DecodeError::CoercionError(Field::Zip));
}

#[test]
fn amount_from_integer_number() {
    let shop = parse_to_shop(doc("123", "123123").as_bytes()).unwrap();
    assert_eq!(shop.cart.cost.total_amount.amount.parse::<f32>().unwrap(), 123.0);
}

#[test]
fn amount_from_exponent_number() {
    let shop = parse_to_shop(doc("1e3", "123123").as_bytes()).unwrap();
    assert_eq!(shop.cart.cost.total_amount.amount.parse::<f32>().unwrap(), 1000.0);
}

#[test]
fn empty_delivery_groups_decode() {
    let json = "{\"cart\":{\"cost\":{\"totalAmount\":{\"amount\":\"123.0\"}},\
                 \"deliveryGroups\":[],\
                 \"buyerIdentity\":{\"customer\":{\"email\":\"helo@gmail.com\"}}}}";
    let shop = parse_to_shop(json.as_bytes()).unwrap();
    assert_eq!(shop.cart.delivery_groups.len(), 0);
}

#[test]
fn two_delivery_groups_preserve_order() {
    let json = "{\"cart\":{\"cost\":{\"totalAmount\":{\"amount\":\"123.0\"}},\
                 \"deliveryGroups\":[\
                 {\"deliveryAddress\":{\"city\":\"Ahm\",\"countryCode\":\"IN\",\
                 \"provinceCode\":\"GJ\",\"zip\":1}},\
                 {\"deliveryAddress\":{\"city\":\"Srt\",\"countryCode\":\"IN\",\
                 \"provinceCode\":\"GJ\",\"zip\":2}}],\
                 \"buyerIdentity\":{\"customer\":{\"email\":\"helo@gmail.com\"}}}}";
    let shop = parse_to_shop(json.as_bytes()).unwrap();
    assert_eq!(shop.cart.delivery_groups.len(), 2);
    assert_eq!(shop.cart.delivery_groups[0].delivery_address.city, "Ahm");
    assert_eq!(shop.cart.delivery_groups[0].delivery_address.zip, 1);
    assert_eq!(shop.cart.delivery_groups[1].delivery_address.city, "Srt");
    assert_eq!(shop.cart.delivery_groups[1].delivery_address.zip, 2);
}

#[test]
fn bad_group_aborts_whole_decode() {
    let json = "{\"cart\":{\"cost\":{\"totalAmount\":{\"amount\":\"123.0\"}},\
                 \"deliveryGroups\":[\
                 {\"deliveryAddress\":{\"city\":\"Ahm\",\"countryCode\":\"IN\",\
                 \"provinceCode\":\"GJ\",\"zip\":1}},\
                 {\"deliveryAddress\":{\"city\":\"Srt\",\"countryCode\":\"IN\",\
                 \"provinceCode\":\"GJ\"}}],\
                 \"buyerIdentity\":{\"customer\":{\"email\":\"helo@gmail.com\"}}}}";
    let r = parse_to_shop(json.as_bytes());
    assert_eq!(r.unwrap_err(), DecodeError::MissingFieldError(Field::Zip));
}

#[test]
fn malformed_json_is_syntax_error() {
    let r = parse_to_shop(b"xyz");
    assert_eq!(r.unwrap_err(), DecodeError::SyntaxError);
}

#[test]
fn trailing_garbage_is_syntax_error() {
    let mut json = doc("123.0", "123123");
    json.push_str("x");
    let r = parse_to_shop(json.as_bytes());
    assert_eq!(r.unwrap_err(), DecodeError::SyntaxError);
}

#[test]
fn truncated_json_is_unexpected_end() {
    let r = parse_to_shop(b"{\"cart\":");
    assert_eq!(r.unwrap_err(), DecodeError::UnexpectedEndOfInput);
}

#[test]
fn duplicate_keys_last_one_wins() {
    let json = "{\"cart\":{\"cost\":{\"totalAmount\":{\"amount\":\"abc\",\"amount\":\"123.0\"}},\
                 \"deliveryGroups\":[],\
                 \"buyerIdentity\":{\"customer\":{\"email\":\"helo@gmail.com\"}}}}";
    let shop = parse_to_shop(json.as_bytes()).unwrap();
    assert_eq!(shop.cart.cost.total_amount.amount, "123.0");
}

#[test]
fn decode_twice_yields_equal_trees() {
    let json = doc("\"123.0\"", "\"123123\"");
    let a = parse_to_shop(json.as_bytes()).unwrap();
    let b = parse_to_shop(json.as_bytes()).unwrap();
    assert_eq!(a, b);
}
