//! The request mix and the sampler that draws one request per arrival.

use crate::payload::{
    AddToCart, Catalog, EmptyCart, Home, Logout, PlaceOrder, Product, SetCurrency, ViewCart,
};
use crate::random::{current_year, drawn_from, weight_sum, weighted_index};
use rand::rngs::StdRng;
use vstd::prelude::*;

verus! {

/// The eight kinds of request, in the order of the mix's weights.
#[derive(Debug, Clone, Copy, PartialEq, Eq, Structural, Hash)]
pub enum RequestKind {
    Home,
    Product,
    ViewCart,
    AddToCart,
    EmptyCart,
    SetCurrency,
    Logout,
    PlaceOrder,
}

impl RequestKind {
    /// The position of the kind among the mix's weights.
    pub open spec fn index(self) -> int {
        match self {
            RequestKind::Home => 0,
            RequestKind::Product => 1,
            RequestKind::ViewCart => 2,
            RequestKind::AddToCart => 3,
            RequestKind::EmptyCart => 4,
            RequestKind::SetCurrency => 5,
            RequestKind::Logout => 6,
            RequestKind::PlaceOrder => 7,
        }
    }

    /// The kind at a position of the mix's weights.
    pub fn from_index(i: usize) -> (r: RequestKind)
        requires
            i < 8,
        ensures
            r.index() == i,
    {
        if i == 0 {
            RequestKind::Home
        } else if i == 1 {
            RequestKind::Product
        } else if i == 2 {
            RequestKind::ViewCart
        } else if i == 3 {
            RequestKind::AddToCart
        } else if i == 4 {
            RequestKind::EmptyCart
        } else if i == 5 {
            RequestKind::SetCurrency
        } else if i == 6 {
            RequestKind::Logout
        } else {
            RequestKind::PlaceOrder
        }
    }
}

/// Relative weights of the request kinds; sampling is proportional to them.
#[derive(Debug, Clone, Copy, PartialEq, Eq, Structural)]
pub struct RequestMix {
    pub home: u64,
    pub product: u64,
    pub view_cart: u64,
    pub add_to_cart: u64,
    pub empty_cart: u64,
    pub set_currency: u64,
    pub logout: u64,
    pub place_order: u64,
}

impl RequestMix {
    /// The weights in kind order.
    pub open spec fn weights(self) -> Seq<u64> {
        seq![
            self.home,
            self.product,
            self.view_cart,
            self.add_to_cart,
            self.empty_cart,
            self.set_currency,
            self.logout,
            self.place_order,
        ]
    }

    /// The weight of one kind.
    pub open spec fn weight(self, k: RequestKind) -> u64 {
        self.weights()[k.index()]
    }

    pub open spec fn total(self) -> int {
        weight_sum(self.weights())
    }

    /// A mix can be sampled when its weights sum to a positive value that fits
    /// in 64 bits.
    pub open spec fn is_valid(self) -> bool {
        0 < self.total() <= u64::MAX
    }

    /// The weights in kind order.
    pub fn weight_vec(&self) -> (r: Vec<u64>)
        ensures
            r@ == self.weights(),
    {
        let r = vec![
            self.home,
            self.product,
            self.view_cart,
            self.add_to_cart,
            self.empty_cart,
            self.set_currency,
            self.logout,
            self.place_order,
        ];
        assert(r@ =~= self.weights());
        r
    }

    /// The sum of the weights, or `None` when it does not fit in 64 bits.
    pub fn total_weight(&self) -> (r: Option<u64>)
        ensures
            r is Some <==> self.total() <= u64::MAX,
            r matches Some(t) ==> t == self.total(),
    {
        let w = self.weight_vec();
        let mut total: u64 = 0;
        let mut i: usize = 0;
        assert(w@.take(0) =~= Seq::<u64>::empty());
        while i < w.len()
            invariant
                i <= w@.len(),
                w@ == self.weights(),
                total == weight_sum(w@.take(i as int)),
            decreases w@.len() - i,
        {
            assert(w@.take(i + 1).drop_last() =~= w@.take(i as int));
            proof {
                lemma_weight_sum_prefix_le(w@, i + 1);
            }
            match total.checked_add(w[i]) {
                Some(t) => {
                    total = t;
                },
                None => {
                    return None;
                },
            }
            i = i + 1;
        }
        assert(w@.take(8) =~= w@);
        Some(total)
    }

    /// Whether the mix can be sampled.
    pub fn is_sampleable(&self) -> (r: bool)
        ensures
            r == self.is_valid(),
    {
        match self.total_weight() {
            Some(t) => t > 0,
            None => false,
        }
    }

    /// Draws one request: a kind with probability proportional to its weight,
    /// and a payload of that kind, with expiry dates counted from the current
    /// calendar year.
    pub fn sample(&self, catalog: &Catalog, rng: &mut StdRng) -> (r: RequestData)
        requires
            self.is_valid(),
            catalog.wf(),
        ensures
            self.weight(r.kind()) > 0,
            exists|year: i32| r.fits(catalog, year),
    {
        let year = current_year();
        self.sample_in_year(catalog, year, rng)
    }

    /// Draws one request as `sample` does, with expiry dates counted from
    /// `current_year`.
    pub fn sample_in_year(&self, catalog: &Catalog, current_year: i32, rng: &mut StdRng) -> (r:
        RequestData)
        requires
            self.is_valid(),
            catalog.wf(),
        ensures
            self.weight(r.kind()) > 0,
            r.fits(catalog, current_year),
    {
        let weights = self.weight_vec();
        let i = weighted_index(&weights, rng);
        let kind = RequestKind::from_index(i);
        RequestData::fake(kind, catalog, current_year, rng)
    }
}

proof fn lemma_weight_sum_prefix_le(w: Seq<u64>, n: int)
    requires
        0 <= n <= w.len(),
    ensures
        weight_sum(w.take(n)) <= weight_sum(w),
    decreases w.len(),
{
    if n < w.len() {
        assert(w.drop_last().take(n) =~= w.take(n));
        lemma_weight_sum_prefix_le(w.drop_last(), n);
    } else {
        assert(w.take(n) =~= w);
    }
}

/// A request of one kind with its payload.
#[derive(Debug, Clone)]
pub enum RequestData {
    Home(Home),
    Product(Product),
    ViewCart(ViewCart),
    AddToCart(AddToCart),
    EmptyCart(EmptyCart),
    SetCurrency(SetCurrency),
    Logout(Logout),
    PlaceOrder(PlaceOrder),
}

impl RequestData {
    pub open spec fn kind(&self) -> RequestKind {
        match self {
            RequestData::Home(_) => RequestKind::Home,
            RequestData::Product(_) => RequestKind::Product,
            RequestData::ViewCart(_) => RequestKind::ViewCart,
            RequestData::AddToCart(_) => RequestKind::AddToCart,
            RequestData::EmptyCart(_) => RequestKind::EmptyCart,
            RequestData::SetCurrency(_) => RequestKind::SetCurrency,
            RequestData::Logout(_) => RequestKind::Logout,
            RequestData::PlaceOrder(_) => RequestKind::PlaceOrder,
        }
    }

    /// The kind of the request.
    pub fn request_kind(&self) -> (r: RequestKind)
        ensures
            r == self.kind(),
    {
        match self {
            RequestData::Home(_) => RequestKind::Home,
            RequestData::Product(_) => RequestKind::Product,
            RequestData::ViewCart(_) => RequestKind::ViewCart,
            RequestData::AddToCart(_) => RequestKind::AddToCart,
            RequestData::EmptyCart(_) => RequestKind::EmptyCart,
            RequestData::SetCurrency(_) => RequestKind::SetCurrency,
            RequestData::Logout(_) => RequestKind::Logout,
            RequestData::PlaceOrder(_) => RequestKind::PlaceOrder,
        }
    }

    /// What a synthesised payload satisfies: identifiers come from the
    /// catalog, quantities lie in 1 to 10, and orders are well formed.
    pub open spec fn fits(&self, catalog: &Catalog, current_year: i32) -> bool {
        match self {
            RequestData::Product(p) => drawn_from(catalog.product_ids@, p.id@),
            RequestData::AddToCart(a) => drawn_from(catalog.product_ids@, a.product_id@) && 1
                <= a.quantity <= 10,
            RequestData::SetCurrency(s) => drawn_from(catalog.currency_codes@, s.currency_code@),
            RequestData::PlaceOrder(o) => o.valid_for(current_year),
            _ => true,
        }
    }

    /// A request of the given kind with a synthesised payload.
    pub fn fake(kind: RequestKind, catalog: &Catalog, current_year: i32, rng: &mut StdRng) -> (r:
        RequestData)
        requires
            catalog.wf(),
        ensures
            r.kind() == kind,
            r.fits(catalog, current_year),
    {
        match kind {
            RequestKind::Home => RequestData::Home(Home {  }),
            RequestKind::Product => RequestData::Product(Product::fake(catalog, rng)),
            RequestKind::ViewCart => RequestData::ViewCart(ViewCart {  }),
            RequestKind::AddToCart => RequestData::AddToCart(AddToCart::fake(catalog, rng)),
            RequestKind::EmptyCart => RequestData::EmptyCart(EmptyCart {  }),
            RequestKind::SetCurrency => RequestData::SetCurrency(SetCurrency::fake(catalog, rng)),
            RequestKind::Logout => RequestData::Logout(Logout {  }),
            RequestKind::PlaceOrder => RequestData::PlaceOrder(PlaceOrder::fake(current_year, rng)),
        }
    }
}

/// When a mix puts all of its weight on one kind, every request that the
/// sampler can return (one whose kind has positive weight) is of that kind.
pub proof fn lemma_single_kind_mix(mix: RequestMix, k: RequestKind, d: RequestData)
    requires
        forall|j: RequestKind| j != k ==> mix.weight(j) == 0,
        mix.weight(d.kind()) > 0,
    ensures
        d.kind() == k,
{
}

} // verus!
