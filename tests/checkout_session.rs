use stripe_checkout::checkout_session::{
    CheckoutSession, CheckoutSessionLineItem, CheckoutSessionLineItemPriceData,
    CheckoutSessionLineItemPriceDataProductData, CreateCheckoutSession,
};
use stripe_checkout::form::decimal_string;
use stripe_checkout::values::{
    CheckoutSessionLocale, CheckoutSessionMode, CheckoutSessionSubmitType, Currency, CustomerId,
};

fn base<'a>() -> CreateCheckoutSession<'a> {
    CreateCheckoutSession {
        cancel_url: "https://a/x",
        payment_method_types: vec!["card"],
        success_url: "https://a/y",
        client_reference_id: None,
        customer: None,
        customer_email: None,
        billing_address_collection: None,
        line_items: None,
        locale: None,
        mode: None,
        submit_type: None,
    }
}

fn pairs(v: &[(&str, &str)]) -> Vec<(String, String)> {
    v.iter().map(|(k, x)| (k.to_string(), x.to_string())).collect()
}

fn field(key: &str) -> &str {
    match key.find('[') {
        Some(i) => &key[..i],
        None => key,
    }
}

fn shirt<'a>() -> CheckoutSessionLineItem<'a> {
    CheckoutSessionLineItem {
        quantity: 3,
        price_data: CheckoutSessionLineItemPriceData {
            unit_amount: 1250,
            currency: Currency::new("usd"),
            product_data: CheckoutSessionLineItemPriceDataProductData {
                name: "T-shirt",
                description: None,
            },
        },
        description: None,
        images: None,
        dynamic_tax_rates: None,
    }
}

#[test]
fn mandatory_fields_only() {
    let form = base().to_form();
    assert_eq!(
        form,
        pairs(&[
            ("cancel_url", "https://a/x"),
            ("payment_method_types[0]", "card"),
            ("success_url", "https://a/y"),
        ])
    );
    let fields: Vec<&str> = form.iter().map(|(k, _)| field(k)).collect();
    assert_eq!(fields, vec!["cancel_url", "payment_method_types", "success_url"]);
}

#[test]
fn customer_email_adds_one_key() {
    let before = base().to_form();
    let mut req = base();
    req.customer_email = Some("a@b.com");
    let after = req.to_form();
    assert_eq!(after.len(), before.len() + 1);
    let added: Vec<&(String, String)> = after.iter().filter(|p| !before.contains(p)).collect();
    assert_eq!(added, vec![&("customer_email".to_string(), "a@b.com".to_string())]);
    for p in &before {
        assert!(after.contains(p));
    }
}

#[test]
fn each_optional_field_is_encoded_with_its_value() {
    let mut req = base();
    req.client_reference_id = Some("cart-7");
    req.customer = Some(CustomerId::new("cus_123"));
    req.customer_email = Some("a@b.com");
    req.billing_address_collection = Some("required");
    req.locale = Some(CheckoutSessionLocale::Fr);
    req.mode = Some(CheckoutSessionMode::Subscription);
    req.submit_type = Some(CheckoutSessionSubmitType::Donate);
    assert_eq!(
        req.to_form(),
        pairs(&[
            ("cancel_url", "https://a/x"),
            ("payment_method_types[0]", "card"),
            ("success_url", "https://a/y"),
            ("client_reference_id", "cart-7"),
            ("customer", "cus_123"),
            ("customer_email", "a@b.com"),
            ("billing_address_collection", "required"),
            ("locale", "fr"),
            ("mode", "subscription"),
            ("submit_type", "donate"),
        ])
    );
}

#[test]
fn fields_match_the_schema() {
    let mut req = base();
    req.mode = Some(CheckoutSessionMode::Payment);
    req.line_items = Some(vec![shirt(), shirt()]);
    let form = req.to_form();
    let mut fields: Vec<&str> = form.iter().map(|(k, _)| field(k)).collect();
    fields.dedup();
    assert_eq!(
        fields,
        vec!["cancel_url", "payment_method_types", "success_url", "line_items", "mode"]
    );
}

#[test]
fn line_items_are_nested() {
    let mut item = shirt();
    item.price_data.product_data.description = Some("Blue");
    item.description = Some("Gift");
    item.images = Some(vec!["https://img/1".to_string(), "https://img/2".to_string()]);
    item.dynamic_tax_rates = Some(vec!["txr_1"]);
    let mut req = base();
    req.line_items = Some(vec![shirt(), item]);
    assert_eq!(
        req.to_form(),
        pairs(&[
            ("cancel_url", "https://a/x"),
            ("payment_method_types[0]", "card"),
            ("success_url", "https://a/y"),
            ("line_items[0][quantity]", "3"),
            ("line_items[0][price_data][unit_amount]", "1250"),
            ("line_items[0][price_data][currency]", "usd"),
            ("line_items[0][price_data][product_data][name]", "T-shirt"),
            ("line_items[1][quantity]", "3"),
            ("line_items[1][price_data][unit_amount]", "1250"),
            ("line_items[1][price_data][currency]", "usd"),
            ("line_items[1][price_data][product_data][name]", "T-shirt"),
            ("line_items[1][price_data][product_data][description]", "Blue"),
            ("line_items[1][description]", "Gift"),
            ("line_items[1][images][0]", "https://img/1"),
            ("line_items[1][images][1]", "https://img/2"),
            ("line_items[1][dynamic_tax_rates][0]", "txr_1"),
        ])
    );
}

#[test]
fn empty_lists_leave_no_key() {
    let mut req = base();
    req.payment_method_types = vec![];
    req.line_items = Some(vec![]);
    assert_eq!(
        req.to_form(),
        pairs(&[("cancel_url", "https://a/x"), ("success_url", "https://a/y")])
    );
}

#[test]
fn list_indexes_past_nine() {
    let mut req = base();
    req.payment_method_types = vec!["card"; 12];
    let form = req.to_form();
    assert_eq!(form.len(), 14);
    assert_eq!(form[11], ("payment_method_types[10]".to_string(), "card".to_string()));
    assert_eq!(form[12], ("payment_method_types[11]".to_string(), "card".to_string()));
}

#[test]
fn decimal_text() {
    assert_eq!(decimal_string(0), "0");
    assert_eq!(decimal_string(7), "7");
    assert_eq!(decimal_string(10), "10");
    assert_eq!(decimal_string(1234567890), "1234567890");
    assert_eq!(decimal_string(u64::MAX), "18446744073709551615");
}

#[test]
fn largest_amounts() {
    let mut item = shirt();
    item.quantity = u64::MAX;
    item.price_data.unit_amount = usize::MAX;
    let mut req = base();
    req.line_items = Some(vec![item]);
    let form = req.to_form();
    assert_eq!(form[3].1, "18446744073709551615");
    assert_eq!(form[4].1, usize::MAX.to_string());
}

#[test]
fn create_posts_to_the_sessions_path() {
    let mut req = base();
    req.submit_type = Some(CheckoutSessionSubmitType::Pay);
    let expected = req.to_form();
    let post = CheckoutSession::create(req);
    assert_eq!(post.path, "/checkout/sessions");
    assert_eq!(post.form, expected);
}

#[test]
fn wire_names_of_enums() {
    assert_eq!(CheckoutSessionLocale::Auto.as_str(), "auto");
    assert_eq!(CheckoutSessionLocale::Zh.as_str(), "zh");
    assert_eq!(CheckoutSessionMode::Setup.as_str(), "setup");
    assert_eq!(CheckoutSessionSubmitType::Book.as_str(), "book");
    assert_eq!(CustomerId::new("cus_9").as_str(), "cus_9");
    assert_eq!(Currency::new("eur").as_str(), "eur");
}
