//! The parameters for creating a checkout session, and their form payload.
use vstd::prelude::*;
use vstd::string::StringExecFns;

use crate::form::{
    all_in_field, decimal, has_field, lemma_contains_concat, lemma_field_of_sub,
    lemma_field_of_sub_sub, lemma_has_field_concat, lemma_has_field_uniform,
    lemma_list_entries_field, lemma_nested_list_field, lemma_opt_entry_field, list_entries,
    no_bracket, opt_entry, opt_list_entries, opt_view, pairs_view, push_decimal, push_opt,
    push_pair, push_str_list, push_string_list, strings_view, strs_view, sub_key, sub_key_string,
    FormPair,
};
use crate::values::{
    CheckoutSessionLocale, CheckoutSessionMode, CheckoutSessionSubmitType, Currency, CustomerId,
};

verus! {

/// The parameters for `CheckoutSession::create`.
#[derive(Clone, Debug)]
pub struct CreateCheckoutSession<'a> {
    /// The URL the customer is sent to when they cancel payment.
    pub cancel_url: &'a str,
    /// The kinds of payment method (such as `card`) the session accepts.
    pub payment_method_types: Vec<&'a str>,
    /// The URL the customer is sent to once payment or subscription succeeds.
    pub success_url: &'a str,
    /// A string of the caller's own to reconcile the session with.
    pub client_reference_id: Option<&'a str>,
    /// An existing customer for this session.
    pub customer: Option<CustomerId>,
    /// An email address to prefill for a new customer.
    pub customer_email: Option<&'a str>,
    /// Whether to collect the billing address: `auto` or `required`.
    pub billing_address_collection: Option<&'a str>,
    /// The items purchased.
    pub line_items: Option<Vec<CheckoutSessionLineItem<'a>>>,
    /// The language Checkout is displayed in.
    pub locale: Option<CheckoutSessionLocale>,
    /// Whether the session is for a payment, a setup or a subscription.
    pub mode: Option<CheckoutSessionMode>,
    /// The kind of transaction, for the text of the submit button.
    pub submit_type: Option<CheckoutSessionSubmitType>,
}

/// One purchased item of a session.
#[derive(Clone, Debug)]
pub struct CheckoutSessionLineItem<'a> {
    /// How many units are bought.
    pub quantity: u64,
    /// The price, defined inline.
    pub price_data: CheckoutSessionLineItemPriceData<'a>,
    /// The text shown for the item.
    pub description: Option<&'a str>,
    /// URLs of images of the item.
    pub images: Option<Vec<String>>,
    /// IDs of the tax rates that may apply, by the customer's address.
    pub dynamic_tax_rates: Option<Vec<&'a str>>,
}

/// A price defined inline for a line item.
#[derive(Clone, Debug)]
pub struct CheckoutSessionLineItemPriceData<'a> {
    /// The amount per unit, in the currency's smallest unit.
    pub unit_amount: usize,
    /// The currency of the amount.
    pub currency: Currency,
    /// What is sold.
    pub product_data: CheckoutSessionLineItemPriceDataProductData<'a>,
}

/// The product a price is for.
#[derive(Clone, Debug)]
pub struct CheckoutSessionLineItemPriceDataProductData<'a> {
    /// The product's name.
    pub name: &'a str,
    /// The product's description.
    pub description: Option<&'a str>,
}

/// The key of the price data of a line item with key `p`.
pub open spec fn price_key(p: Seq<char>) -> Seq<char> {
    sub_key(p, "price_data"@)
}

/// The key of the product data of a line item with key `p`.
pub open spec fn product_key(p: Seq<char>) -> Seq<char> {
    sub_key(price_key(p), "product_data"@)
}

impl<'a> CheckoutSessionLineItem<'a> {
    /// The pairs of this item, whose key is `p`.
    pub open spec fn spec_pairs(self, p: Seq<char>) -> Seq<(Seq<char>, Seq<char>)> {
        seq![
            (sub_key(p, "quantity"@), decimal(self.quantity as nat)),
            (sub_key(price_key(p), "unit_amount"@), decimal(self.price_data.unit_amount as nat)),
            (sub_key(price_key(p), "currency"@), self.price_data.currency.code@),
            (sub_key(product_key(p), "name"@), self.price_data.product_data.name@),
        ]
        + opt_entry(sub_key(product_key(p), "description"@), opt_view(self.price_data.product_data.description))
        + opt_entry(sub_key(p, "description"@), opt_view(self.description))
        + opt_list_entries(sub_key(p, "images"@), match self.images {
            Some(v) => Some(strings_view(v@)),
            None => None,
        })
        + opt_list_entries(sub_key(p, "dynamic_tax_rates"@), match self.dynamic_tax_rates {
            Some(v) => Some(strs_view(v@)),
            None => None,
        })
    }

    /// Appends the pairs of this item, whose key is `p`.
    pub fn push_pairs(&self, out: &mut Vec<FormPair>, p: &str)
        ensures
            pairs_view(final(out)@) == pairs_view(old(out)@) + self.spec_pairs(p@),
    {
        let ghost start = pairs_view(out@);
        let price = sub_key_string(p, "price_data");
        let product = sub_key_string(price.as_str(), "product_data");
        let mut amount = String::new();
        push_decimal(&mut amount, self.price_data.unit_amount as u64);
        let mut quantity = String::new();
        push_decimal(&mut quantity, self.quantity);
        push_pair(out, sub_key_string(p, "quantity"), quantity);
        push_pair(out, sub_key_string(price.as_str(), "unit_amount"), amount);
        push_pair(out, sub_key_string(price.as_str(), "currency"), self.price_data.currency.code.clone());
        push_pair(out, sub_key_string(product.as_str(), "name"), String::from_str(self.price_data.product_data.name));
        push_opt(out, sub_key_string(product.as_str(), "description").as_str(), self.price_data.product_data.description);
        push_opt(out, sub_key_string(p, "description").as_str(), self.description);
        match &self.images {
            Some(v) => push_string_list(out, sub_key_string(p, "images").as_str(), v),
            None => {},
        }
        match &self.dynamic_tax_rates {
            Some(v) => push_str_list(out, sub_key_string(p, "dynamic_tax_rates").as_str(), v),
            None => {},
        }
        proof {
            assert(pairs_view(out@) =~= start + self.spec_pairs(p@));
        }
    }
}

/// The pairs of a list of line items, each under the key `line_items[i]`.
pub open spec fn line_items_pairs(items: Seq<CheckoutSessionLineItem>) -> Seq<(Seq<char>, Seq<char>)>
    decreases items.len(),
{
    if items.len() == 0 {
        seq![]
    } else {
        line_items_pairs(items.drop_last())
            + items.last().spec_pairs(sub_key("line_items"@, decimal((items.len() - 1) as nat)))
    }
}

impl<'a> CreateCheckoutSession<'a> {
    /// The form payload of the request: its fields in order, each optional one
    /// only when it is set.
    #[verifier::opaque]
    pub open spec fn spec_pairs(self) -> Seq<(Seq<char>, Seq<char>)> {
        seq![("cancel_url"@, self.cancel_url@)]
        + list_entries("payment_method_types"@, strs_view(self.payment_method_types@))
        + seq![("success_url"@, self.success_url@)]
        + opt_entry("client_reference_id"@, opt_view(self.client_reference_id))
        + opt_entry("customer"@, match self.customer {
            Some(c) => Some(c.id@),
            None => None,
        })
        + opt_entry("customer_email"@, opt_view(self.customer_email))
        + opt_entry("billing_address_collection"@, opt_view(self.billing_address_collection))
        + match self.line_items {
            Some(v) => line_items_pairs(v@),
            None => seq![],
        }
        + opt_entry("locale"@, match self.locale {
            Some(l) => Some(l.wire()),
            None => None,
        })
        + opt_entry("mode"@, match self.mode {
            Some(m) => Some(m.wire()),
            None => None,
        })
        + opt_entry("submit_type"@, match self.submit_type {
            Some(t) => Some(t.wire()),
            None => None,
        })
    }

    /// Encodes the request as the pairs of a form payload. A field that is not
    /// set is left out entirely.
    pub fn to_form(&self) -> (r: Vec<FormPair>)
        ensures
            pairs_view(r@) == self.spec_pairs(),
    {
        let mut out: Vec<FormPair> = Vec::new();
        push_pair(&mut out, String::from_str("cancel_url"), String::from_str(self.cancel_url));
        push_str_list(&mut out, "payment_method_types", &self.payment_method_types);
        push_pair(&mut out, String::from_str("success_url"), String::from_str(self.success_url));
        push_opt(&mut out, "client_reference_id", self.client_reference_id);
        match &self.customer {
            Some(c) => push_opt(&mut out, "customer", Some(c.as_str())),
            None => push_opt(&mut out, "customer", None),
        }
        push_opt(&mut out, "customer_email", self.customer_email);
        push_opt(&mut out, "billing_address_collection", self.billing_address_collection);
        let ghost before_items = pairs_view(out@);
        match &self.line_items {
            Some(v) => push_line_items(&mut out, v),
            None => {},
        }
        proof {
            assert(pairs_view(out@) =~= before_items + match self.line_items {
                Some(v) => line_items_pairs(v@),
                None => seq![],
            });
        }
        match self.locale {
            Some(l) => push_opt(&mut out, "locale", Some(l.as_str())),
            None => push_opt(&mut out, "locale", None),
        }
        match self.mode {
            Some(m) => push_opt(&mut out, "mode", Some(m.as_str())),
            None => push_opt(&mut out, "mode", None),
        }
        match self.submit_type {
            Some(t) => push_opt(&mut out, "submit_type", Some(t.as_str())),
            None => push_opt(&mut out, "submit_type", None),
        }
        proof {
            reveal(CreateCheckoutSession::spec_pairs);
            assert(pairs_view(out@) =~= self.spec_pairs());
        }
        out
    }
}

/// Appends the pairs of each line item, under the key `line_items[i]`.
pub fn push_line_items(out: &mut Vec<FormPair>, items: &Vec<CheckoutSessionLineItem>)
    ensures
        pairs_view(final(out)@) == pairs_view(old(out)@) + line_items_pairs(items@),
{
    let ghost start = pairs_view(out@);
    let mut i: usize = 0;
    while i < items.len()
        invariant
            i <= items@.len(),
            pairs_view(out@) == start + line_items_pairs(items@.subrange(0, i as int)),
        decreases items@.len() - i,
    {
        let mut index = String::new();
        push_decimal(&mut index, i as u64);
        let key = sub_key_string("line_items", index.as_str());
        let ghost prev = pairs_view(out@);
        items[i].push_pairs(out, key.as_str());
        proof {
            let s = items@.subrange(0, i + 1);
            assert(s.drop_last() =~= items@.subrange(0, i as int));
            assert(s.last() == items@[i as int]);
            assert(index@ =~= decimal(i as nat));
        }
        i = i + 1;
        proof {
            assert(pairs_view(out@) =~= start + line_items_pairs(items@.subrange(0, i as int)));
        }
    }
    proof {
        assert(items@.subrange(0, i as int) =~= items@);
    }
}

/// A request ready to be sent: a form-encoded POST of `form` to `path`.
#[derive(Clone, Debug)]
pub struct FormPost {
    pub path: String,
    pub form: Vec<FormPair>,
}

/// The checkout session resource. The session itself is created and kept by
/// the remote service.
pub struct CheckoutSession;

impl CheckoutSession {
    /// The path of the endpoint that creates a checkout session.
    pub open spec fn create_path() -> Seq<char> {
        "/checkout/sessions"@
    }

    /// The POST that creates a checkout session with the given parameters.
    /// Sending it, and reading the created session from the answer, is up to
    /// the HTTP client.
    pub fn create(params: CreateCheckoutSession) -> (r: FormPost)
        ensures
            r.path@ == Self::create_path(),
            pairs_view(r.form@) == params.spec_pairs(),
    {
        FormPost { path: String::from_str("/checkout/sessions"), form: params.to_form() }
    }
}


/// The keys of a line item under `n[i]` all lie under the field `n`.
pub proof fn lemma_line_item_field(it: CheckoutSessionLineItem, n: Seq<char>, i: nat)
    requires
        no_bracket(n),
    ensures
        all_in_field(it.spec_pairs(sub_key(n, decimal(i))), n),
{
    let p = sub_key(n, decimal(i));
    lemma_field_of_sub(n, decimal(i));
    lemma_field_of_sub_sub(n, decimal(i), "quantity"@);
    lemma_field_of_sub_sub(n, decimal(i), "price_data"@);
    lemma_field_of_sub_sub(n, decimal(i), "description"@);
    lemma_field_of_sub_sub(n, decimal(i), "images"@);
    lemma_field_of_sub_sub(n, decimal(i), "dynamic_tax_rates"@);
    lemma_field_of_sub_sub(p, "price_data"@, "unit_amount"@);
    lemma_field_of_sub_sub(p, "price_data"@, "currency"@);
    lemma_field_of_sub_sub(p, "price_data"@, "product_data"@);
    lemma_field_of_sub_sub(price_key(p), "product_data"@, "name"@);
    lemma_field_of_sub_sub(price_key(p), "product_data"@, "description"@);
    lemma_nested_list_field(p, "images"@, match it.images {
        Some(v) => Some(strings_view(v@)),
        None => None,
    }, n);
    lemma_nested_list_field(p, "dynamic_tax_rates"@, match it.dynamic_tax_rates {
        Some(v) => Some(strs_view(v@)),
        None => None,
    }, n);
}

/// The keys of the line items all lie under `line_items`, and there is at
/// least one pair for each item.
pub proof fn lemma_line_items_field(items: Seq<CheckoutSessionLineItem>)
    ensures
        all_in_field(line_items_pairs(items), "line_items"@),
        line_items_pairs(items).len() >= items.len(),
    decreases items.len(),
{
    reveal_strlit("line_items");
    if items.len() > 0 {
        lemma_line_items_field(items.drop_last());
        lemma_line_item_field(items.last(), "line_items"@, (items.len() - 1) as nat);
    }
}

/// Whether `f` is one of the fields the payload of `r` has by the request's
/// schema: every mandatory field, and each optional field that is set.
pub open spec fn schema_field(r: CreateCheckoutSession, f: Seq<char>) -> bool {
    ||| f == "cancel_url"@
    ||| f == "payment_method_types"@
    ||| f == "success_url"@
    ||| (f == "client_reference_id"@ && r.client_reference_id is Some)
    ||| (f == "customer"@ && r.customer is Some)
    ||| (f == "customer_email"@ && r.customer_email is Some)
    ||| (f == "billing_address_collection"@ && r.billing_address_collection is Some)
    ||| (f == "line_items"@ && r.line_items is Some)
    ||| (f == "locale"@ && r.locale is Some)
    ||| (f == "mode"@ && r.mode is Some)
    ||| (f == "submit_type"@ && r.submit_type is Some)
}

/// Read back by the schema, the payload of a request holds exactly the
/// mandatory fields and the optional fields that are set: none missing, none
/// extra. A list field is present when it has an item, so the law asks for at
/// least one payment method type, and at least one line item when line items
/// are given.
pub proof fn lemma_payload_fields(r: CreateCheckoutSession, f: Seq<char>)
    requires
        r.payment_method_types@.len() > 0,
        r.line_items is Some ==> r.line_items->0@.len() > 0,
    ensures
        has_field(r.spec_pairs(), f) <==> schema_field(r, f),
{
    reveal(CreateCheckoutSession::spec_pairs);
    reveal_strlit("cancel_url");
    reveal_strlit("payment_method_types");
    reveal_strlit("success_url");
    reveal_strlit("client_reference_id");
    reveal_strlit("customer");
    reveal_strlit("customer_email");
    reveal_strlit("billing_address_collection");
    reveal_strlit("locale");
    reveal_strlit("mode");
    reveal_strlit("submit_type");
    let s1 = seq![("cancel_url"@, r.cancel_url@)];
    let s2 = list_entries("payment_method_types"@, strs_view(r.payment_method_types@));
    let s3 = seq![("success_url"@, r.success_url@)];
    let s4 = opt_entry("client_reference_id"@, opt_view(r.client_reference_id));
    let o5 = match r.customer {
        Some(c) => Some(c.id@),
        None => None,
    };
    let s5 = opt_entry("customer"@, o5);
    let s6 = opt_entry("customer_email"@, opt_view(r.customer_email));
    let s7 = opt_entry("billing_address_collection"@, opt_view(r.billing_address_collection));
    let s8 = match r.line_items {
        Some(v) => line_items_pairs(v@),
        None => seq![],
    };
    let o9 = match r.locale {
        Some(l) => Some(l.wire()),
        None => None,
    };
    let s9 = opt_entry("locale"@, o9);
    let o10 = match r.mode {
        Some(m) => Some(m.wire()),
        None => None,
    };
    let s10 = opt_entry("mode"@, o10);
    let o11 = match r.submit_type {
        Some(t) => Some(t.wire()),
        None => None,
    };
    let s11 = opt_entry("submit_type"@, o11);
    lemma_opt_entry_field("cancel_url"@, Some(r.cancel_url@));
    lemma_list_entries_field("payment_method_types"@, strs_view(r.payment_method_types@));
    lemma_opt_entry_field("success_url"@, Some(r.success_url@));
    lemma_opt_entry_field("client_reference_id"@, opt_view(r.client_reference_id));
    lemma_opt_entry_field("customer"@, o5);
    lemma_opt_entry_field("customer_email"@, opt_view(r.customer_email));
    lemma_opt_entry_field("billing_address_collection"@, opt_view(r.billing_address_collection));
    match r.line_items {
        Some(v) => lemma_line_items_field(v@),
        None => {},
    }
    lemma_opt_entry_field("locale"@, o9);
    lemma_opt_entry_field("mode"@, o10);
    lemma_opt_entry_field("submit_type"@, o11);
    lemma_has_field_uniform(s1, "cancel_url"@, f);
    lemma_has_field_uniform(s2, "payment_method_types"@, f);
    lemma_has_field_uniform(s3, "success_url"@, f);
    lemma_has_field_uniform(s4, "client_reference_id"@, f);
    lemma_has_field_uniform(s5, "customer"@, f);
    lemma_has_field_uniform(s6, "customer_email"@, f);
    lemma_has_field_uniform(s7, "billing_address_collection"@, f);
    lemma_has_field_uniform(s8, "line_items"@, f);
    lemma_has_field_uniform(s9, "locale"@, f);
    lemma_has_field_uniform(s10, "mode"@, f);
    lemma_has_field_uniform(s11, "submit_type"@, f);
    let a2 = s1 + s2;
    let a3 = a2 + s3;
    let a4 = a3 + s4;
    let a5 = a4 + s5;
    let a6 = a5 + s6;
    let a7 = a6 + s7;
    let a8 = a7 + s8;
    let a9 = a8 + s9;
    let a10 = a9 + s10;
    let a11 = a10 + s11;
    lemma_has_field_concat(s1, s2, f);
    lemma_has_field_concat(a2, s3, f);
    lemma_has_field_concat(a3, s4, f);
    lemma_has_field_concat(a4, s5, f);
    lemma_has_field_concat(a5, s6, f);
    lemma_has_field_concat(a6, s7, f);
    lemma_has_field_concat(a7, s8, f);
    lemma_has_field_concat(a8, s9, f);
    lemma_has_field_concat(a9, s10, f);
    lemma_has_field_concat(a10, s11, f);
    assert(a11 == r.spec_pairs());
}


/// A request with only its mandatory fields set is encoded as exactly those
/// fields, in order, and its payload has no optional field.
pub proof fn lemma_mandatory_only(r: CreateCheckoutSession, f: Seq<char>)
    requires
        r.payment_method_types@.len() > 0,
        r.client_reference_id is None,
        r.customer is None,
        r.customer_email is None,
        r.billing_address_collection is None,
        r.line_items is None,
        r.locale is None,
        r.mode is None,
        r.submit_type is None,
    ensures
        r.spec_pairs() == seq![("cancel_url"@, r.cancel_url@)]
            + list_entries("payment_method_types"@, strs_view(r.payment_method_types@))
            + seq![("success_url"@, r.success_url@)],
        has_field(r.spec_pairs(), f) <==> (f == "cancel_url"@ || f == "payment_method_types"@
            || f == "success_url"@),
{
    reveal(CreateCheckoutSession::spec_pairs);
    lemma_payload_fields(r, f);
    assert(r.spec_pairs() =~= seq![("cancel_url"@, r.cancel_url@)]
        + list_entries("payment_method_types"@, strs_view(r.payment_method_types@))
        + seq![("success_url"@, r.success_url@)]);
}

/// The pairs of each line item appear in the payload of the list.
pub proof fn lemma_line_items_contain(items: Seq<CheckoutSessionLineItem>, i: int, j: int)
    requires
        0 <= i < items.len(),
        0 <= j < items[i].spec_pairs(sub_key("line_items"@, decimal(i as nat))).len(),
    ensures
        line_items_pairs(items).contains(items[i].spec_pairs(sub_key("line_items"@, decimal(i as nat)))[j]),
    decreases items.len(),
{
    let x = items[i].spec_pairs(sub_key("line_items"@, decimal(i as nat)))[j];
    let rest = items.drop_last();
    let last = items.last().spec_pairs(sub_key("line_items"@, decimal((items.len() - 1) as nat)));
    if i == items.len() - 1 {
        assert(last[j] == x);
        lemma_contains_concat(line_items_pairs(rest), last, x);
    } else {
        assert(rest[i] == items[i]);
        lemma_line_items_contain(rest, i, j);
        lemma_contains_concat(line_items_pairs(rest), last, x);
    }
}

/// The parts the payload of `r` is joined from, field by field.
pub open spec fn payload_parts(r: CreateCheckoutSession) -> Seq<Seq<(Seq<char>, Seq<char>)>> {
    seq![
        seq![("cancel_url"@, r.cancel_url@)],
        list_entries("payment_method_types"@, strs_view(r.payment_method_types@)),
        seq![("success_url"@, r.success_url@)],
        opt_entry("client_reference_id"@, opt_view(r.client_reference_id)),
        opt_entry("customer"@, match r.customer {
            Some(c) => Some(c.id@),
            None => None,
        }),
        opt_entry("customer_email"@, opt_view(r.customer_email)),
        opt_entry("billing_address_collection"@, opt_view(r.billing_address_collection)),
        match r.line_items {
            Some(v) => line_items_pairs(v@),
            None => seq![],
        },
        opt_entry("locale"@, match r.locale {
            Some(l) => Some(l.wire()),
            None => None,
        }),
        opt_entry("mode"@, match r.mode {
            Some(m) => Some(m.wire()),
            None => None,
        }),
        opt_entry("submit_type"@, match r.submit_type {
            Some(t) => Some(t.wire()),
            None => None,
        }),
    ]
}

/// A pair of one part of the payload is a pair of the payload.
pub proof fn lemma_part_in_payload(r: CreateCheckoutSession, k: int, x: (Seq<char>, Seq<char>))
    requires
        0 <= k < 11,
        payload_parts(r)[k].contains(x),
    ensures
        r.spec_pairs().contains(x),
{
    reveal(CreateCheckoutSession::spec_pairs);
    let p = payload_parts(r);
    let a1 = p[0];
    let a2 = a1 + p[1];
    let a3 = a2 + p[2];
    let a4 = a3 + p[3];
    let a5 = a4 + p[4];
    let a6 = a5 + p[5];
    let a7 = a6 + p[6];
    let a8 = a7 + p[7];
    let a9 = a8 + p[8];
    let a10 = a9 + p[9];
    let a11 = a10 + p[10];
    lemma_contains_concat(a1, p[1], x);
    lemma_contains_concat(a2, p[2], x);
    lemma_contains_concat(a3, p[3], x);
    lemma_contains_concat(a4, p[4], x);
    lemma_contains_concat(a5, p[5], x);
    lemma_contains_concat(a6, p[6], x);
    lemma_contains_concat(a7, p[7], x);
    lemma_contains_concat(a8, p[8], x);
    lemma_contains_concat(a9, p[9], x);
    lemma_contains_concat(a10, p[10], x);
    assert(a11 == r.spec_pairs());
}

/// An optional field that is set, and is part `k` of the payload, appears
/// in the payload with its value.
pub proof fn lemma_opt_in_payload(r: CreateCheckoutSession, k: int, key: Seq<char>, o: Option<Seq<char>>)
    requires
        0 <= k < 11,
        payload_parts(r)[k] == opt_entry(key, o),
    ensures
        o matches Some(v) ==> r.spec_pairs().contains((key, v)),
{
    if let Some(v) = o {
        assert(opt_entry(key, o)[0] == (key, v));
        lemma_part_in_payload(r, k, (key, v));
    }
}

/// Each line item appears in the payload with all its pairs.
pub proof fn lemma_line_items_in_payload(r: CreateCheckoutSession)
    ensures
        r.line_items matches Some(v) ==> forall|i: int, j: int|
            0 <= i < v@.len() && 0 <= j < v@[i].spec_pairs(sub_key("line_items"@, decimal(i as nat))).len()
                ==> r.spec_pairs().contains(
                #[trigger] v@[i].spec_pairs(sub_key("line_items"@, decimal(i as nat)))[j],
            ),
{
    let p = payload_parts(r);
    if let Some(v) = r.line_items {
        assert forall|i: int, j: int|
            0 <= i < v@.len() && 0 <= j < v@[i].spec_pairs(sub_key("line_items"@, decimal(i as nat))).len()
                implies r.spec_pairs().contains(
                #[trigger] v@[i].spec_pairs(sub_key("line_items"@, decimal(i as nat)))[j],
            ) by {
            let x = v@[i].spec_pairs(sub_key("line_items"@, decimal(i as nat)))[j];
            lemma_line_items_contain(v@, i, j);
            assert(p[7] == line_items_pairs(v@));
            lemma_part_in_payload(r, 7, x);
        }
    }
}

/// Each optional field that is set appears in the payload with its value,
/// written in the field's wire form.
pub proof fn lemma_set_field_value(r: CreateCheckoutSession)
    ensures
        r.client_reference_id matches Some(v) ==> r.spec_pairs().contains(("client_reference_id"@, v@)),
        r.customer matches Some(c) ==> r.spec_pairs().contains(("customer"@, c.id@)),
        r.customer_email matches Some(v) ==> r.spec_pairs().contains(("customer_email"@, v@)),
        r.billing_address_collection matches Some(v) ==> r.spec_pairs().contains(
            ("billing_address_collection"@, v@),
        ),
        r.locale matches Some(l) ==> r.spec_pairs().contains(("locale"@, l.wire())),
        r.mode matches Some(m) ==> r.spec_pairs().contains(("mode"@, m.wire())),
        r.submit_type matches Some(t) ==> r.spec_pairs().contains(("submit_type"@, t.wire())),
{
    assert(r.client_reference_id matches Some(v) ==> r.spec_pairs().contains(("client_reference_id"@, v@))) by {
        lemma_opt_in_payload(r, 3, "client_reference_id"@, opt_view(r.client_reference_id));
    }
    assert(r.customer matches Some(c) ==> r.spec_pairs().contains(("customer"@, c.id@))) by {
        lemma_opt_in_payload(r, 4, "customer"@, match r.customer {
            Some(c) => Some(c.id@),
            None => None,
        });
    }
    assert(r.customer_email matches Some(v) ==> r.spec_pairs().contains(("customer_email"@, v@))) by {
        lemma_opt_in_payload(r, 5, "customer_email"@, opt_view(r.customer_email));
    }
    assert(r.billing_address_collection matches Some(v) ==> r.spec_pairs().contains(("billing_address_collection"@, v@))) by {
        lemma_opt_in_payload(r, 6, "billing_address_collection"@, opt_view(r.billing_address_collection));
    }
    assert(r.locale matches Some(l) ==> r.spec_pairs().contains(("locale"@, l.wire()))) by {
        lemma_opt_in_payload(r, 8, "locale"@, match r.locale {
            Some(l) => Some(l.wire()),
            None => None,
        });
    }
    assert(r.mode matches Some(m) ==> r.spec_pairs().contains(("mode"@, m.wire()))) by {
        lemma_opt_in_payload(r, 9, "mode"@, match r.mode {
            Some(m) => Some(m.wire()),
            None => None,
        });
    }
    assert(r.submit_type matches Some(t) ==> r.spec_pairs().contains(("submit_type"@, t.wire()))) by {
        lemma_opt_in_payload(r, 10, "submit_type"@, match r.submit_type {
            Some(t) => Some(t.wire()),
            None => None,
        });
    }
}

} // verus!

