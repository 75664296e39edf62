//! The in-process e-commerce service: a fixed product catalog searched
//! case-insensitively, order creation, user lookup or registration, and the
//! running metrics of it all.  Only the fresh identifiers come from outside
//! (random UUIDs); every other result is pinned down exactly.

use vstd::prelude::*;
use vstd::string::StringExecFns;

use crate::dto::metrics::MetricsResponse;
use crate::dto::orders::CreateOrderResponse;
use crate::dto::products::{Product, SearchProductsResponse};
use crate::dto::users::UserResponse;
use crate::error::ApiError;
use crate::text::{chars_of, contains_chars, contains_seq, lower, to_lower};

verus! {

/// The e-commerce service, with its running counters.
#[derive(Debug)]
pub struct AllFrameService {
    /// Orders created so far.
    pub orders_count: u32,
    /// Users registered so far.
    pub users_count: u32,
    /// Service calls made so far.
    pub api_calls: u32,
}

/// The fixed catalog: id and name of every product, in listing order.
pub open spec fn spec_catalog() -> Seq<(Seq<char>, Seq<char>)> {
    seq![
        ("p1"@, "Widget Pro"@),
        ("p2"@, "Widget Basic"@),
        ("p3"@, "Gadget X100"@),
        ("p4"@, "Gadget Mini"@),
        ("p5"@, "Smart Sensor"@),
        ("p6"@, "Power Module"@),
        ("p7"@, "Control Board"@),
        ("p8"@, "Display Panel"@),
        ("p9"@, "Cable Kit"@),
        ("p10"@, "Battery Pack"@),
    ]
}

/// A product's lowercased name contains the lowercased query.
pub open spec fn catalog_pred(q: Seq<char>) -> spec_fn((Seq<char>, Seq<char>)) -> bool {
    |p: (Seq<char>, Seq<char>)| contains_seq(lower(p.1), lower(q))
}

/// The catalog entries a query matches, in catalog order.
pub open spec fn spec_search_results(q: Seq<char>) -> Seq<(Seq<char>, Seq<char>)> {
    spec_catalog().filter(catalog_pred(q))
}

/// The id/name views of a product list.
pub open spec fn products_view(ps: Seq<Product>) -> Seq<(Seq<char>, Seq<char>)> {
    ps.map_values(|p: Product| (p.id@, p.name@))
}

/// Relies on `uuid::Uuid::new_v4` and its `Display`: a fresh random
/// version-4 UUID in the standard hyphenated form, which is always 36
/// characters long.  Which UUID comes back is random, so nothing more is
/// stated of it.
#[verifier::external_body]
fn new_uuid_string() -> (r: String)
    ensures
        r@.len() == 36,
{
    uuid::Uuid::new_v4().to_string()
}

/// One catalog product as an owned value.
fn product(id: &'static str, name: &'static str) -> (r: Product)
    ensures
        r.id@ == id@,
        r.name@ == name@,
{
    Product { id: String::from_str(id), name: String::from_str(name) }
}

/// The catalog as owned products, in listing order.
fn catalog() -> (r: Vec<Product>)
    ensures
        products_view(r@) == spec_catalog(),
{
    let mut v: Vec<Product> = Vec::new();
    v.push(product("p1", "Widget Pro"));
    v.push(product("p2", "Widget Basic"));
    v.push(product("p3", "Gadget X100"));
    v.push(product("p4", "Gadget Mini"));
    v.push(product("p5", "Smart Sensor"));
    v.push(product("p6", "Power Module"));
    v.push(product("p7", "Control Board"));
    v.push(product("p8", "Display Panel"));
    v.push(product("p9", "Cable Kit"));
    v.push(product("p10", "Battery Pack"));
    proof {
        assert(products_view(v@) =~= spec_catalog());
    }
    v
}

impl AllFrameService {
    /// A fresh service: all counters at zero.
    pub fn new() -> (r: AllFrameService)
        ensures
            r.orders_count == 0,
            r.users_count == 0,
            r.api_calls == 0,
    {
        AllFrameService { orders_count: 0, users_count: 0, api_calls: 0 }
    }

    /// Count one service call; the counter wraps rather than overflow.
    pub fn track_api_call(&mut self)
        ensures
            final(self).api_calls == if old(self).api_calls == u32::MAX {
                0u32
            } else {
                (old(self).api_calls + 1) as u32
            },
            *final(self) == (AllFrameService { api_calls: final(self).api_calls, ..*old(self) }),
    {
        self.api_calls = if self.api_calls == u32::MAX {
            0
        } else {
            self.api_calls + 1
        };
    }

    /// Search the catalog: exactly the products whose name contains the
    /// query, case-insensitively and in catalog order, echoing the query.
    /// Searching never fails.
    pub fn search_products(&mut self, query: String) -> (r: Result<
        SearchProductsResponse,
        ApiError,
    >)
        ensures
            match r {
                Ok(resp) => resp.query == query && products_view(resp.results@)
                    == spec_search_results(query@),
                Err(_) => false,
            },
            *final(self) == (AllFrameService { api_calls: final(self).api_calls, ..*old(self) }),
    {
        self.track_api_call();
        let cat = catalog();
        let ghost pred = catalog_pred(query@);
        let needle = to_lower(&chars_of(query.as_str()));
        let mut results: Vec<Product> = Vec::new();
        let mut i: usize = 0;
        proof {
            assert(products_view(cat@).take(0int) =~= Seq::<(Seq<char>, Seq<char>)>::empty());
            assert(products_view(results@) =~= products_view(cat@).take(0int).filter(pred));
        }
        while i < cat.len()
            invariant
                i <= cat@.len(),
                needle@ == lower(query@),
                pred == catalog_pred(query@),
                products_view(cat@) == spec_catalog(),
                products_view(results@) == products_view(cat@).take(i as int).filter(pred),
            decreases cat@.len() - i,
        {
            let ghost cv = products_view(cat@);
            proof {
                cv.lemma_take_succ_push(i as int);
                cv.take(i as int).lemma_filter_push(cv[i as int], pred);
            }
            let name_lc = to_lower(&chars_of(cat[i].name.as_str()));
            if contains_chars(&name_lc, &needle) {
                let ghost before = results@;
                results.push(cat[i].duplicate());
                proof {
                    assert(products_view(results@) =~= products_view(before).push(cv[i as int]));
                }
            }
            i = i + 1;
        }
        proof {
            assert(products_view(cat@).take(cat@.len() as int) =~= products_view(cat@));
        }
        Ok(SearchProductsResponse { query, results })
    }

    /// Create an order for a product: the response echoes the product, is
    /// marked `created`, and carries a fresh 36-character order id.  The
    /// order and call counters move up by one (wrapping).
    pub fn create_order(&mut self, product: String, _quantity: u32) -> (r: Result<
        CreateOrderResponse,
        ApiError,
    >)
        ensures
            match r {
                Ok(resp) => resp.product == product && resp.status@ == "created"@
                    && resp.order_id@.len() == 36,
                Err(_) => false,
            },
            final(self).orders_count == if old(self).orders_count == u32::MAX {
                0u32
            } else {
                (old(self).orders_count + 1) as u32
            },
            final(self).users_count == old(self).users_count,
    {
        self.track_api_call();
        self.orders_count = if self.orders_count == u32::MAX {
            0
        } else {
            self.orders_count + 1
        };
        let order_id = new_uuid_string();
        Ok(CreateOrderResponse { order_id, product, status: String::from_str("created") })
    }

    /// Look a user up by id, or register a fresh one when no id is given: a
    /// given id is echoed back, a missing one becomes a fresh 36-character
    /// id and counts a registration.  The name is `User ` plus the id and
    /// the email is fixed.
    pub fn get_user(&mut self, user_id: Option<String>) -> (r: Result<UserResponse, ApiError>)
        ensures
            match r {
                Ok(resp) => resp.name@ == "User "@ + resp.id@ && resp.email@
                    == "user@example.com"@ && match user_id {
                    Some(id) => resp.id == id,
                    None => resp.id@.len() == 36,
                },
                Err(_) => false,
            },
            final(self).users_count == if user_id is Some {
                old(self).users_count as int
            } else if old(self).users_count == u32::MAX {
                0int
            } else {
                old(self).users_count + 1
            },
            final(self).orders_count == old(self).orders_count,
    {
        self.track_api_call();
        let id = match user_id {
            Some(existing) => existing,
            None => {
                self.users_count = if self.users_count == u32::MAX {
                    0
                } else {
                    self.users_count + 1
                };
                new_uuid_string()
            },
        };
        let mut name = String::from_str("User ");
        name.append(id.as_str());
        Ok(UserResponse { id, name, email: String::from_str("user@example.com") })
    }

    /// The running metrics: the fixed catalog size and the three counters.
    pub fn get_metrics(&self) -> (r: Result<MetricsResponse, ApiError>)
        ensures
            match r {
                Ok(m) => m.products == 10 && m.orders == self.orders_count && m.users
                    == self.users_count && m.api_calls == self.api_calls,
                Err(_) => false,
            },
    {
        Ok(
            MetricsResponse {
                products: 10,
                orders: self.orders_count,
                users: self.users_count,
                api_calls: self.api_calls,
            },
        )
    }
}

impl Default for AllFrameService {
    /// A fresh service, as [`AllFrameService::new`] builds it.
    fn default() -> (r: AllFrameService)
        ensures
            r.orders_count == 0 && r.users_count == 0 && r.api_calls == 0,
    {
        AllFrameService::new()
    }
}

impl Product {
    /// An identical copy.
    pub fn duplicate(&self) -> (r: Product)
        ensures
            r == *self,
    {
        Product { id: self.id.clone(), name: self.name.clone() }
    }
}

} // verus!
