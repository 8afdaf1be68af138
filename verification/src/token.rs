//! Identity tokens for subscriptions.
//!
//! A subscription may carry a token; the runtime judges two subscriptions to
//! be "the same running subscription" exactly when both carry a token and the
//! tokens compare equal. Tokens are plain, structurally comparable values, so
//! equality is fully specified: values of different shapes never compare
//! equal, and pairs compare component-wise.

use vstd::prelude::*;

verus! {

/// The mathematical shape of a token, used by every contract that speaks of
/// token equality.
pub enum TokenView {
    Unit,
    Int(int),
    Text(Seq<char>),
    Pair(Box<TokenView>, Box<TokenView>),
}

/// A plain equatable value backing a subscription identity token.
///
/// Arbitrary application data is encoded by combining these shapes; `Pair`
/// nests, so tuples of any width can be formed. Equality is structural, so
/// two tokens encoding to the same shape compare equal wherever they came
/// from: give distinct kinds of subscription distinct shapes (a leading
/// `Text` or `Int` tag does it).
pub enum TokenValue {
    Unit,
    Int(i64),
    Text(String),
    Pair(Box<TokenValue>, Box<TokenValue>),
}

/// The view of a token value, defined by structural recursion.
pub open spec fn token_value_view(v: TokenValue) -> TokenView
    decreases v,
{
    match v {
        TokenValue::Unit => TokenView::Unit,
        TokenValue::Int(n) => TokenView::Int(n as int),
        TokenValue::Text(s) => TokenView::Text(s@),
        TokenValue::Pair(a, b) => TokenView::Pair(
            Box::new(token_value_view(*a)),
            Box::new(token_value_view(*b)),
        ),
    }
}

impl View for TokenValue {
    type V = TokenView;

    open spec fn view(&self) -> TokenView {
        token_value_view(*self)
    }
}

/// Structural equality of token values: true exactly when the views agree.
pub fn token_value_eq(a: &TokenValue, b: &TokenValue) -> (r: bool)
    ensures
        r == (a@ == b@),
    decreases *a,
{
    match (a, b) {
        (TokenValue::Unit, TokenValue::Unit) => true,
        (TokenValue::Int(x), TokenValue::Int(y)) => x == y,
        (TokenValue::Text(x), TokenValue::Text(y)) => *x == *y,
        (TokenValue::Pair(a1, a2), TokenValue::Pair(b1, b2)) => {
            token_value_eq(&**a1, &**b1) && token_value_eq(&**a2, &**b2)
        },
        _ => false,
    }
}

impl Clone for TokenValue {
    fn clone(&self) -> (r: Self)
        ensures
            r == *self,
        decreases *self,
    {
        match self {
            TokenValue::Unit => TokenValue::Unit,
            TokenValue::Int(n) => TokenValue::Int(*n),
            TokenValue::Text(s) => TokenValue::Text(s.clone()),
            TokenValue::Pair(a, b) => TokenValue::Pair(
                Box::new((**a).clone()),
                Box::new((**b).clone()),
            ),
        }
    }
}

/// An equatable identity used to decide whether two subscriptions are the
/// same running subscription.
pub struct SubscriptionToken {
    value: TokenValue,
}

impl View for SubscriptionToken {
    type V = TokenView;

    closed spec fn view(&self) -> TokenView {
        self.value@
    }
}

impl SubscriptionToken {
    /// Wraps a plain value as an identity token.
    pub fn new(value: TokenValue) -> (r: Self)
        ensures
            r@ == value@,
    {
        SubscriptionToken { value }
    }

    /// Unwraps the backing value.
    pub fn into_value(self) -> (r: TokenValue)
        ensures
            r@ == self@,
    {
        self.value
    }
}

/// The view of an optional token.
pub open spec fn opt_token_view(o: Option<SubscriptionToken>) -> Option<TokenView> {
    match o {
        Some(t) => Some(t@),
        None => None,
    }
}

/// Equality of tokens: true exactly when the backing values agree.
pub fn token_eq(a: &SubscriptionToken, b: &SubscriptionToken) -> (r: bool)
    ensures
        r == (a@ == b@),
{
    token_value_eq(&a.value, &b.value)
}

impl PartialEq for SubscriptionToken {
    fn eq(&self, other: &Self) -> bool {
        token_value_eq(&self.value, &other.value)
    }
}

impl vstd::std_specs::cmp::PartialEqSpecImpl for SubscriptionToken {
    open spec fn obeys_eq_spec() -> bool {
        true
    }

    open spec fn eq_spec(&self, other: &Self) -> bool {
        self@ == other@
    }
}

impl Clone for SubscriptionToken {
    fn clone(&self) -> (r: Self)
        ensures
            r == *self,
    {
        SubscriptionToken { value: self.value.clone() }
    }
}

} // verus!
