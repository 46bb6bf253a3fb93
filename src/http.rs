//! The HTTP shape of each request: method, path, form body and headers.

use crate::mix::RequestData;
use crate::payload::Catalog;
use crate::random::{decimal_string, signed_decimal};
use vstd::prelude::*;

verus! {

/// The virtual host that every request names in its `Host` header.
pub const HOST: &'static str = "onlineboutique.serviceweaver.dev";

#[derive(Debug, Clone, Copy, PartialEq, Eq, Structural)]
pub enum Method {
    Get,
    Post,
}

/// A request ready to be sent: the full URL, an optional form body of
/// name/value pairs, and whether an explicit zero `Content-Length` header goes
/// with it.
#[derive(Debug, Clone)]
pub struct HttpRequest {
    pub method: Method,
    pub url: String,
    pub form: Option<Vec<(String, String)>>,
    pub zero_content_length: bool,
}

/// The mathematical form of a list of form fields.
pub open spec fn fields_view(v: Seq<(String, String)>) -> Seq<(Seq<char>, Seq<char>)> {
    v.map_values(|p: (String, String)| (p.0@, p.1@))
}

impl HttpRequest {
    /// The form fields as text pairs, when the request has a form body.
    pub open spec fn form_view(&self) -> Option<Seq<(Seq<char>, Seq<char>)>> {
        match self.form {
            Some(v) => Some(fields_view(v@)),
            None => None,
        }
    }
}

impl RequestData {
    pub open spec fn method(&self) -> Method {
        match self {
            RequestData::AddToCart(_) | RequestData::EmptyCart(_) | RequestData::SetCurrency(_)
            | RequestData::PlaceOrder(_) => Method::Post,
            _ => Method::Get,
        }
    }

    /// The path below the base URL.
    pub open spec fn path_suffix(&self) -> Seq<char> {
        match self {
            RequestData::Home(_) => Seq::empty(),
            RequestData::Product(p) => p.id@,
            RequestData::ViewCart(_) => "cart"@,
            RequestData::AddToCart(_) => "cart"@,
            RequestData::EmptyCart(_) => "cart/empty"@,
            RequestData::SetCurrency(_) => "setCurrency"@,
            RequestData::Logout(_) => "logout"@,
            RequestData::PlaceOrder(_) => "cart/checkout"@,
        }
    }

    /// The form body; a product page has none, and kinds without fields send
    /// an empty form.
    pub open spec fn form_fields(&self) -> Option<Seq<(Seq<char>, Seq<char>)>> {
        match self {
            RequestData::Product(_) => None,
            RequestData::AddToCart(a) => Some(
                seq![
                    ("product_id"@, a.product_id@),
                    ("quantity"@, signed_decimal(a.quantity as int)),
                ],
            ),
            RequestData::SetCurrency(s) => Some(seq![("currency_code"@, s.currency_code@)]),
            RequestData::PlaceOrder(o) => Some(
                seq![
                    ("email"@, o.email@),
                    ("street_address"@, o.street_address@),
                    ("zip_code"@, o.zip_code@),
                    ("city"@, o.city@),
                    ("state"@, o.state@),
                    ("country"@, o.country@),
                    ("credit_card_number"@, o.cc_number@),
                    ("credit_card_expiration_month"@, o.cc_month@),
                    ("credit_card_expiration_year"@, o.cc_year@),
                    ("credit_card_cvv"@, signed_decimal(o.cc_cvv as int)),
                ],
            ),
            _ => Some(Seq::empty()),
        }
    }

    /// The request to send for this payload against a base URL.
    pub fn to_http(&self, base_url: &String) -> (r: HttpRequest)
        ensures
            r.method == self.method(),
            r.url@ == base_url@ + self.path_suffix(),
            r.form_view() == self.form_fields(),
            r.zero_content_length == (self.kind() == crate::mix::RequestKind::EmptyCart),
    {
        let base = base_url.clone();
        match self {
            RequestData::Home(_) => {
                let form: Vec<(String, String)> = Vec::new();
                assert(fields_view(form@) =~= Seq::empty());
                assert(base@ =~= base_url@ + Seq::empty());
                HttpRequest { method: Method::Get, url: base, form: Some(form), zero_content_length: false }
            },
            RequestData::Product(p) => {
                let url = base.concat(p.id.as_str());
                HttpRequest { method: Method::Get, url, form: None, zero_content_length: false }
            },
            RequestData::ViewCart(_) => {
                let form: Vec<(String, String)> = Vec::new();
                assert(fields_view(form@) =~= Seq::empty());
                let url = base.concat("cart");
                HttpRequest { method: Method::Get, url, form: Some(form), zero_content_length: false }
            },
            RequestData::AddToCart(a) => {
                let form = vec![
                    (String::from_str("product_id"), a.product_id.clone()),
                    (String::from_str("quantity"), decimal_string(a.quantity as i64)),
                ];
                assert(fields_view(form@) =~= seq![
                    ("product_id"@, a.product_id@),
                    ("quantity"@, signed_decimal(a.quantity as int)),
                ]);
                let url = base.concat("cart");
                HttpRequest { method: Method::Post, url, form: Some(form), zero_content_length: false }
            },
            RequestData::EmptyCart(_) => {
                let form: Vec<(String, String)> = Vec::new();
                assert(fields_view(form@) =~= Seq::empty());
                let url = base.concat("cart/empty");
                HttpRequest { method: Method::Post, url, form: Some(form), zero_content_length: true }
            },
            RequestData::SetCurrency(s) => {
                let form = vec![(String::from_str("currency_code"), s.currency_code.clone())];
                assert(fields_view(form@) =~= seq![("currency_code"@, s.currency_code@)]);
                let url = base.concat("setCurrency");
                HttpRequest { method: Method::Post, url, form: Some(form), zero_content_length: false }
            },
            RequestData::Logout(_) => {
                let form: Vec<(String, String)> = Vec::new();
                assert(fields_view(form@) =~= Seq::empty());
                let url = base.concat("logout");
                HttpRequest { method: Method::Get, url, form: Some(form), zero_content_length: false }
            },
            RequestData::PlaceOrder(o) => {
                let form = vec![
                    (String::from_str("email"), o.email.clone()),
                    (String::from_str("street_address"), o.street_address.clone()),
                    (String::from_str("zip_code"), o.zip_code.clone()),
                    (String::from_str("city"), o.city.clone()),
                    (String::from_str("state"), o.state.clone()),
                    (String::from_str("country"), o.country.clone()),
                    (String::from_str("credit_card_number"), o.cc_number.clone()),
                    (String::from_str("credit_card_expiration_month"), o.cc_month.clone()),
                    (String::from_str("credit_card_expiration_year"), o.cc_year.clone()),
                    (String::from_str("credit_card_cvv"), decimal_string(o.cc_cvv as i64)),
                ];
                assert(fields_view(form@) =~= seq![
                    ("email"@, o.email@),
                    ("street_address"@, o.street_address@),
                    ("zip_code"@, o.zip_code@),
                    ("city"@, o.city@),
                    ("state"@, o.state@),
                    ("country"@, o.country@),
                    ("credit_card_number"@, o.cc_number@),
                    ("credit_card_expiration_month"@, o.cc_month@),
                    ("credit_card_expiration_year"@, o.cc_year@),
                    ("credit_card_cvv"@, signed_decimal(o.cc_cvv as int)),
                ]);
                let url = base.concat("cart/checkout");
                HttpRequest { method: Method::Post, url, form: Some(form), zero_content_length: false }
            },
        }
    }
}

/// A product request that the sampler made for a catalog is sent to a path
/// that is the base URL followed by one of the catalog's product identifiers.
pub proof fn lemma_product_path_in_catalog(
    d: RequestData,
    catalog: Catalog,
    current_year: i32,
    base_url: Seq<char>,
    req: HttpRequest,
)
    requires
        d is Product,
        d.fits(&catalog, current_year),
        req.url@ == base_url + d.path_suffix(),
    ensures
        exists|i: int|
            0 <= i < catalog.product_ids@.len() && req.url@ == base_url
                + (#[trigger] catalog.product_ids@[i])@,
{
    let i = choose|i: int|
        0 <= i < catalog.product_ids@.len() && catalog.product_ids@[i]@ == d->Product_0.id@;
    assert(req.url@ == base_url + catalog.product_ids@[i]@);
}

} // verus!
