//! The value types that a checkout session request refers to.
use vstd::prelude::*;
use vstd::string::StringExecFns;

verus! {

/// The ID of a customer, such as `cus_123`.
#[derive(Clone, Debug)]
pub struct CustomerId {
    pub id: String,
}

impl CustomerId {
    pub fn new(id: &str) -> (r: CustomerId)
        ensures
            r.id@ == id@,
    {
        CustomerId { id: String::from_str(id) }
    }

    pub fn as_str(&self) -> (r: &str)
        ensures
            r@ == self.id@,
    {
        self.id.as_str()
    }
}

/// A three-letter ISO currency code, in lowercase (such as `usd`).
///
/// The code is not checked here; the remote service rejects unknown ones.
#[derive(Clone, Debug)]
pub struct Currency {
    pub code: String,
}

impl Currency {
    pub fn new(code: &str) -> (r: Currency)
        ensures
            r.code@ == code@,
    {
        Currency { code: String::from_str(code) }
    }

    pub fn as_str(&self) -> (r: &str)
        ensures
            r@ == self.code@,
    {
        self.code.as_str()
    }
}

/// The language Checkout is displayed in; `Auto` uses the browser's locale.
#[derive(Clone, Copy, Debug, PartialEq, Eq, Structural)]
pub enum CheckoutSessionLocale {
    Auto,
    Da,
    De,
    En,
    Es,
    Fi,
    Fr,
    It,
    Ja,
    Ms,
    Nb,
    Nl,
    Pl,
    Pt,
    Sv,
    Zh,
}

impl CheckoutSessionLocale {
    /// The wire form of the locale.
    pub open spec fn wire(self) -> Seq<char> {
        match self {
            CheckoutSessionLocale::Auto => "auto"@,
            CheckoutSessionLocale::Da => "da"@,
            CheckoutSessionLocale::De => "de"@,
            CheckoutSessionLocale::En => "en"@,
            CheckoutSessionLocale::Es => "es"@,
            CheckoutSessionLocale::Fi => "fi"@,
            CheckoutSessionLocale::Fr => "fr"@,
            CheckoutSessionLocale::It => "it"@,
            CheckoutSessionLocale::Ja => "ja"@,
            CheckoutSessionLocale::Ms => "ms"@,
            CheckoutSessionLocale::Nb => "nb"@,
            CheckoutSessionLocale::Nl => "nl"@,
            CheckoutSessionLocale::Pl => "pl"@,
            CheckoutSessionLocale::Pt => "pt"@,
            CheckoutSessionLocale::Sv => "sv"@,
            CheckoutSessionLocale::Zh => "zh"@,
        }
    }

    pub fn as_str(&self) -> (r: &'static str)
        ensures
            r@ == self.wire(),
    {
        match self {
            CheckoutSessionLocale::Auto => "auto",
            CheckoutSessionLocale::Da => "da",
            CheckoutSessionLocale::De => "de",
            CheckoutSessionLocale::En => "en",
            CheckoutSessionLocale::Es => "es",
            CheckoutSessionLocale::Fi => "fi",
            CheckoutSessionLocale::Fr => "fr",
            CheckoutSessionLocale::It => "it",
            CheckoutSessionLocale::Ja => "ja",
            CheckoutSessionLocale::Ms => "ms",
            CheckoutSessionLocale::Nb => "nb",
            CheckoutSessionLocale::Nl => "nl",
            CheckoutSessionLocale::Pl => "pl",
            CheckoutSessionLocale::Pt => "pt",
            CheckoutSessionLocale::Sv => "sv",
            CheckoutSessionLocale::Zh => "zh",
        }
    }
}

/// What the session is for.
#[derive(Clone, Copy, Debug, PartialEq, Eq, Structural)]
pub enum CheckoutSessionMode {
    Payment,
    Setup,
    Subscription,
}

impl CheckoutSessionMode {
    /// The wire form of the mode.
    pub open spec fn wire(self) -> Seq<char> {
        match self {
            CheckoutSessionMode::Payment => "payment"@,
            CheckoutSessionMode::Setup => "setup"@,
            CheckoutSessionMode::Subscription => "subscription"@,
        }
    }

    pub fn as_str(&self) -> (r: &'static str)
        ensures
            r@ == self.wire(),
    {
        match self {
            CheckoutSessionMode::Payment => "payment",
            CheckoutSessionMode::Setup => "setup",
            CheckoutSessionMode::Subscription => "subscription",
        }
    }
}

/// The kind of transaction, which sets the text of the submit button.
#[derive(Clone, Copy, Debug, PartialEq, Eq, Structural)]
pub enum CheckoutSessionSubmitType {
    Auto,
    Book,
    Donate,
    Pay,
}

impl CheckoutSessionSubmitType {
    /// The wire form of the submit type.
    pub open spec fn wire(self) -> Seq<char> {
        match self {
            CheckoutSessionSubmitType::Auto => "auto"@,
            CheckoutSessionSubmitType::Book => "book"@,
            CheckoutSessionSubmitType::Donate => "donate"@,
            CheckoutSessionSubmitType::Pay => "pay"@,
        }
    }

    pub fn as_str(&self) -> (r: &'static str)
        ensures
            r@ == self.wire(),
    {
        match self {
            CheckoutSessionSubmitType::Auto => "auto",
            CheckoutSessionSubmitType::Book => "book",
            CheckoutSessionSubmitType::Donate => "donate",
            CheckoutSessionSubmitType::Pay => "pay",
        }
    }
}

} // verus!
