//! Subscriptions: declarative descriptions of live message streams, paired
//! with an optional identity token for change detection.
//!
//! The runtime derives a subscription from the model every frame and compares
//! its identity against the one currently running: when both carry a token
//! and the tokens agree, the running stream is left untouched; otherwise the
//! running stream is cancelled and the new one started. Batching fans several
//! streams into one and combines identities into an aggregate that is present
//! only when every member supplied a token.

use vstd::prelude::*;

use futures::{FutureExt, StreamExt};
use std::pin::Pin;

use crate::token::{
    SubscriptionToken, TokenValue, TokenView, opt_token_view, token_eq,
};

verus! {

/// The shape of a stream, as far as the constructor that built it shows:
/// what work produced it, and so what it will do when polled.
pub enum StreamKind {
    /// Never yields a value and never ends.
    Pending,
    /// An arbitrary outside stream.
    External,
    /// Sleeps for the period (in milliseconds), then emits, forever.
    Interval(u64),
    /// Another stream with every value passed through a function.
    Mapped(Box<StreamKind>),
    /// Two streams fanned in.
    Merged(Box<StreamKind>, Box<StreamKind>),
}

/// The opaque polling machinery of a live stream. Nothing of its behaviour is
/// visible to contracts; the `MessageStream` wrapper carries the ghost shape.
#[verifier::external_body]
#[verifier::reject_recursive_types(Message)]
pub(crate) struct StreamWork<Message: 'static> {
    pub(crate) stream: Pin<Box<dyn futures::Stream<Item = Message> + Send>>,
}

/// A live stream of messages: the values it will yield are opaque to every
/// contract, but its shape — which constructor built it, from what — is
/// carried as a ghost model.
#[verifier::reject_recursive_types(Message)]
pub struct MessageStream<Message: 'static> {
    pub(crate) work: StreamWork<Message>,
    kind: Ghost<StreamKind>,
}

impl<Message: 'static> MessageStream<Message> {
    /// The shape of this stream.
    pub closed spec fn spec_kind(&self) -> StreamKind {
        self.kind@
    }
}

impl<Message: Send + 'static> MessageStream<Message> {
    /// Relies on Box::pin: the given stream's values become the returned
    /// stream's values, unchanged and in order.
    #[verifier::external_body]
    pub fn from_futures_stream<S>(stream: S) -> (r: MessageStream<Message>)
        where
            S: futures::Stream<Item = Message> + Send + 'static,
        ensures
            r.spec_kind() == StreamKind::External,
    {
        MessageStream {
            work: StreamWork { stream: Box::pin(stream) },
            kind: Ghost(StreamKind::External),
        }
    }

    /// Relies on futures::StreamExt::next and futures::executor::block_on:
    /// runs the stream on the calling thread until it yields its next value,
    /// and returns it, or `None` once the stream has ended. Blocks for as
    /// long as the stream takes to yield.
    #[verifier::external_body]
    pub fn next_message(&mut self) -> (r: Option<Message>)
        ensures
            final(self).spec_kind() == old(self).spec_kind(),
    {
        futures::executor::block_on(self.work.stream.next())
    }
}

/// Relies on futures::stream::pending: the returned stream never yields a
/// value and never ends.
#[verifier::external_body]
fn pending_stream<Message: Send + 'static>() -> (r: MessageStream<Message>)
    ensures
        r.spec_kind() == StreamKind::Pending,
{
    MessageStream {
        work: StreamWork { stream: Box::pin(futures::stream::pending()) },
        kind: Ghost(StreamKind::Pending),
    }
}


/// Relies on futures::stream::select: the returned stream yields the values
/// of both inputs as they become ready, with no fixed priority, and ends when
/// both have ended.
#[verifier::external_body]
fn merge_streams<Message: Send + 'static>(
    a: MessageStream<Message>,
    b: MessageStream<Message>,
) -> (r: MessageStream<Message>)
    ensures
        r.spec_kind() == StreamKind::Merged(Box::new(a.spec_kind()), Box::new(b.spec_kind())),
{
    let kind = Ghost(StreamKind::Merged(Box::new(a.spec_kind()), Box::new(b.spec_kind())));
    MessageStream {
        work: StreamWork {
            stream: Box::pin(futures::stream::select(a.work.stream, b.work.stream)),
        },
        kind,
    }
}

/// Relies on futures::StreamExt::map: the returned stream yields `f` of each
/// value the input yields, in order.
#[verifier::external_body]
fn map_stream<Message, Output, F>(s: MessageStream<Message>, f: F) -> (r: MessageStream<Output>)
    where
        Message: Send + 'static,
        Output: Send + 'static,
        F: FnMut(Message) -> Output + Send + 'static,
    ensures
        r.spec_kind() == StreamKind::Mapped(Box::new(s.spec_kind())),
{
    let kind = Ghost(StreamKind::Mapped(Box::new(s.spec_kind())));
    MessageStream { work: StreamWork { stream: Box::pin(s.work.stream.map(f)) }, kind }
}

/// Relies on futures::stream::unfold, futures::FutureExt::map and
/// futures_timer::Delay: the returned stream repeats forever the cycle of
/// sleeping for `period_ms` milliseconds and then yielding a fresh value of
/// the factory.
#[verifier::external_body]
fn interval_stream<Message, F>(period_ms: u64, factory: F) -> (r: MessageStream<Message>)
    where
        Message: Send + 'static,
        F: FnMut() -> Message + Send + 'static,
    ensures
        r.spec_kind() == StreamKind::Interval(period_ms),
{
    let period = core::time::Duration::from_millis(period_ms);
    let stream = futures::stream::unfold(factory, move |mut factory| {
        futures_timer::Delay::new(period).map(move |_| {
            let message = factory();
            Some((message, factory))
        })
    });
    MessageStream {
        work: StreamWork { stream: Box::pin(stream) },
        kind: Ghost(StreamKind::Interval(period_ms)),
    }
}

/// True when both identities are present and agree: the running subscription
/// is then kept; in every other case it is restarted.
pub open spec fn same_identity(previous: Option<TokenView>, next: Option<TokenView>) -> bool {
    match (previous, next) {
        (Some(p), Some(n)) => p == n,
        _ => false,
    }
}

/// The identity-diff decision, taken once per frame by the driver: restart
/// unless both tokens are present and equal.
pub fn should_restart(
    previous: &Option<SubscriptionToken>,
    next: &Option<SubscriptionToken>,
) -> (r: bool)
    ensures
        r == !same_identity(opt_token_view(*previous), opt_token_view(*next)),
{
    match (previous, next) {
        (Some(p), Some(n)) => !token_eq(p, n),
        _ => true,
    }
}

/// Law: two subscriptions that both carry the stable empty identity are
/// judged the same, so repeated empty subscriptions never trigger a restart.
pub proof fn lemma_none_never_restarts(previous: Option<TokenView>, next: Option<TokenView>)
    requires
        previous == Some(TokenView::Unit),
        next == Some(TokenView::Unit),
    ensures
        same_identity(previous, next),
{
}

/// Law: equal tokens are judged identical and keep the running subscription;
/// differing tokens, or a missing token on either side, force a restart.
pub proof fn lemma_identity_diff(previous: Option<TokenView>, next: Option<TokenView>)
    ensures
        (previous is Some && next is Some && previous == next) ==> same_identity(
            previous,
            next,
        ),
        (previous is None || next is None || previous != next) ==> !same_identity(
            previous,
            next,
        ),
{
}

/// A declarative description of a live stream of messages, with an optional
/// identity token.
#[verifier::reject_recursive_types(Message)]
pub struct Subscription<Message: Send + 'static> {
    stream: MessageStream<Message>,
    token: Option<SubscriptionToken>,
}

/// Values that describe a subscription: an optional identity, and a stream.
pub trait IntoSubscription<Message: Send + 'static>: Sized {
    /// The identity carried for change detection, if any.
    spec fn identity_spec(&self) -> Option<TokenView>;

    /// Returns the identity token used for change detection.
    fn identity(&self) -> (r: Option<SubscriptionToken>)
        ensures
            opt_token_view(r) == self.identity_spec(),
    ;

    /// The underlying stream.
    spec fn stream_spec(&self) -> MessageStream<Message>;

    /// Consumes the description and returns exactly the underlying stream.
    fn into_stream(self) -> (r: MessageStream<Message>)
        ensures
            r == self.stream_spec(),
    ;
}

/// The stream shapes of a sequence of subscriptions, in order.
pub open spec fn stream_kinds<Message: Send + 'static>(
    subs: Seq<Subscription<Message>>,
) -> Seq<StreamKind> {
    subs.map_values(|s: Subscription<Message>| s.stream_view().spec_kind())
}

/// The shape of a left-to-right fan-in of the given streams: the never-
/// yielding stream for an empty batch, the single member alone, or nested
/// two-way merges.
pub open spec fn merged_kind(kinds: Seq<StreamKind>) -> StreamKind
    decreases kinds.len(),
{
    if kinds.len() == 0 {
        StreamKind::Pending
    } else if kinds.len() == 1 {
        kinds[0]
    } else {
        StreamKind::Merged(Box::new(merged_kind(kinds.drop_last())), Box::new(kinds.last()))
    }
}

/// The identities of a sequence of subscriptions, in order.
pub open spec fn identity_views<Message: Send + 'static>(
    subs: Seq<Subscription<Message>>,
) -> Seq<Option<TokenView>> {
    subs.map_values(|s: Subscription<Message>| s.identity_view())
}

/// The views of a sequence of tokens, in order.
pub open spec fn token_views(tokens: Seq<SubscriptionToken>) -> Seq<TokenView> {
    tokens.map_values(|t: SubscriptionToken| t@)
}

/// The member views of a sequence of identities that are all present.
pub open spec fn member_views(ids: Seq<Option<TokenView>>) -> Seq<TokenView> {
    ids.map_values(
        |o: Option<TokenView>|
            match o {
                Some(t) => t,
                None => TokenView::Unit,
            },
    )
}

/// True when every identity in the sequence is present.
pub open spec fn all_present(ids: Seq<Option<TokenView>>) -> bool {
    forall|i: int| 0 <= i < ids.len() ==> ids[i] is Some
}

/// The aggregate of a sequence of member token views: a right-nested chain of
/// pairs, so that the aggregate changes whenever a member identity changes.
pub open spec fn aggregate_view(views: Seq<TokenView>) -> TokenView
    decreases views.len(),
{
    if views.len() == 0 {
        TokenView::Unit
    } else {
        TokenView::Pair(Box::new(views.first()), Box::new(aggregate_view(views.drop_first())))
    }
}

/// The combined identity of a batch: present exactly when every member
/// supplied a token, and then the aggregate of the members' views.
pub open spec fn batch_identity(ids: Seq<Option<TokenView>>) -> Option<TokenView> {
    if all_present(ids) {
        Some(aggregate_view(member_views(ids)))
    } else {
        None
    }
}

/// Law: the aggregate pins the member identities exactly: two aggregates
/// agree only when the member views agree, member for member, so a change in
/// any member identity changes the batch identity.
pub proof fn lemma_aggregate_injective(a: Seq<TokenView>, b: Seq<TokenView>)
    requires
        aggregate_view(a) == aggregate_view(b),
    ensures
        a == b,
    decreases a.len(),
{
    if a.len() == 0 {
        assert(b.len() == 0) by {
            if b.len() != 0 {
                assert(aggregate_view(b) is Pair);
            }
        }
        assert(a =~= b);
    } else {
        assert(b.len() != 0) by {
            if b.len() == 0 {
                assert(aggregate_view(b) is Unit);
            }
        }
        assert(a.first() == b.first());
        assert(aggregate_view(a.drop_first()) == aggregate_view(b.drop_first()));
        lemma_aggregate_injective(a.drop_first(), b.drop_first());
        assert forall|i: int| 0 <= i < a.len() implies a[i] == b[i] by {
            if i > 0 {
                assert(a.drop_first()[i - 1] == a[i]);
                assert(b.drop_first()[i - 1] == b[i]);
            }
        }
        assert(a =~= b);
    }
}

impl<Message: Send + 'static> Subscription<Message> {
    /// The identity carried by this subscription, if any.
    pub closed spec fn identity_view(&self) -> Option<TokenView> {
        opt_token_view(self.token)
    }

    /// The underlying stream, for contracts that state it is kept.
    pub closed spec fn stream_view(&self) -> MessageStream<Message> {
        self.stream
    }

    /// A subscription that never emits, carrying the stable empty identity,
    /// so repeated empty subscriptions never trigger a restart.
    pub fn none() -> (r: Self)
        ensures
            r.identity_view() == Some(TokenView::Unit),
            r.stream_view().spec_kind() == StreamKind::Pending,
    {
        Subscription {
            stream: pending_stream(),
            token: Some(SubscriptionToken::new(TokenValue::Unit)),
        }
    }

    /// Wraps an arbitrary stream of messages. No identity is attached, so the
    /// subscription is treated as different on every frame and restarts.
    pub fn from_stream(stream: MessageStream<Message>) -> (r: Self)
        ensures
            r.identity_view() is None,
            r.stream_view() == stream,
    {
        Subscription { stream, token: None }
    }

    /// Fans all member streams into one (first ready wins, no fixed priority)
    /// and combines the identities: present exactly when every member
    /// supplied a token, and then an aggregate that changes whenever a member
    /// identity changes.
    pub fn batch(subscriptions: Vec<Subscription<Message>>) -> (r: Self)
        ensures
            r.identity_view() == batch_identity(identity_views(subscriptions@)),
            r.stream_view().spec_kind() == merged_kind(stream_kinds(subscriptions@)),
    {
        let ghost subs_orig: Seq<Subscription<Message>> = subscriptions@;
        let ghost ids: Seq<Option<TokenView>> = identity_views(subs_orig);
        let ghost kinds: Seq<StreamKind> = stream_kinds(subs_orig);
        let mut subscriptions = subscriptions;
        let mut merged: Option<MessageStream<Message>> = None;
        let mut tokens: Vec<SubscriptionToken> = Vec::new();
        let mut missing_identity = false;
        let ghost mut k: int = 0;
        while subscriptions.len() > 0
            invariant
                0 <= k <= ids.len(),
                ids == identity_views(subs_orig),
                kinds == stream_kinds(subs_orig),
                ids.len() == subs_orig.len(),
                kinds.len() == subs_orig.len(),
                subscriptions@ =~= subs_orig.skip(k),
                missing_identity == !all_present(ids.take(k)),
                !missing_identity ==> token_views(tokens@) =~= member_views(ids.take(k)),
                match merged {
                    None => k == 0,
                    Some(acc) => k > 0 && acc.spec_kind() == merged_kind(kinds.take(k)),
                },
            decreases subscriptions@.len(),
        {
            let subscription = subscriptions.remove(0);
            proof {
                assert(subscription == subs_orig[k]);
                assert(ids[k] == subs_orig[k].identity_view());
                assert(kinds[k] == subs_orig[k].stream_view().spec_kind());
            }
            let Subscription { stream, token } = subscription;
            match token {
                Some(t) => tokens.push(t),
                None => missing_identity = true,
            }
            merged = match merged {
                None => Some(stream),
                Some(acc) => Some(merge_streams(acc, stream)),
            };
            proof {
                if k == 0 {
                    assert(kinds.take(1).len() == 1);
                    assert(kinds.take(1)[0] == kinds[0]);
                } else {
                    assert(kinds.take(k + 1).drop_last() =~= kinds.take(k));
                    assert(kinds.take(k + 1).last() == kinds[k]);
                    assert(kinds.take(k + 1).len() >= 2);
                }
                assert(ids.take(k + 1) =~= ids.take(k).push(ids[k]));
                assert(all_present(ids.take(k + 1)) == (all_present(ids.take(k))
                    && ids[k] is Some));
                if !missing_identity {
                    assert(member_views(ids.take(k + 1)) =~= member_views(ids.take(k)).push(
                        member_views(ids.take(k + 1)).last(),
                    ));
                    assert(token_views(tokens@) =~= member_views(ids.take(k + 1)));
                }
                k = k + 1;
                assert(subscriptions@ =~= subs_orig.skip(k));
            }
        }
        proof {
            assert(ids.take(k) =~= ids);
            assert(kinds.take(k) =~= kinds);
        }
        let ghost tviews: Seq<TokenView> = token_views(tokens@);
        let mut combined = TokenValue::Unit;
        proof {
            assert(tviews.skip(tokens@.len() as int) =~= Seq::<TokenView>::empty());
        }
        while tokens.len() > 0
            invariant
                tokens@.len() <= tviews.len(),
                token_views(tokens@) =~= tviews.take(tokens@.len() as int),
                combined@ == aggregate_view(tviews.skip(tokens@.len() as int)),
            decreases tokens@.len(),
        {
            let ghost before: Seq<SubscriptionToken> = tokens@;
            let ghost j: int = tokens@.len() - 1;
            let t = match tokens.pop() {
                Some(t) => t,
                None => SubscriptionToken::new(TokenValue::Unit),
            };
            proof {
                assert(token_views(before)[j] == t@);
                assert(t@ == tviews[j]);
            }
            combined = TokenValue::Pair(Box::new(t.into_value()), Box::new(combined));
            proof {
                assert(tviews.skip(j).first() == tviews[j]);
                assert(tviews.skip(j).drop_first() =~= tviews.skip(j + 1));
                assert(token_views(tokens@) =~= tviews.take(tokens@.len() as int));
            }
        }
        proof {
            assert(tviews.skip(0) =~= tviews);
        }
        let token = if missing_identity {
            None
        } else {
            Some(SubscriptionToken::new(combined))
        };
        let stream = match merged {
            None => pending_stream(),
            Some(s) => s,
        };
        Subscription { stream, token }
    }

    /// A subscription that sleeps for `period_ms` milliseconds and then emits
    /// a clone of `message`, forever, until cancelled.
    pub fn interval(period_ms: u64, message: Message) -> (r: Self)
        where
            Message: Clone,
        ensures
            r.identity_view() is None,
            r.stream_view().spec_kind() == StreamKind::Interval(period_ms),
    {
        Subscription::interval_with(period_ms, move || message.clone())
    }

    /// A subscription that sleeps for `period_ms` milliseconds and then emits
    /// a fresh value of the factory, forever, until cancelled.
    pub fn interval_with<F>(period_ms: u64, message_factory: F) -> (r: Self)
        where
            F: FnMut() -> Message + Send + 'static,
        ensures
            r.identity_view() is None,
            r.stream_view().spec_kind() == StreamKind::Interval(period_ms),
    {
        Subscription { stream: interval_stream(period_ms, message_factory), token: None }
    }

    /// Transforms every emitted message through `f`; the identity token is
    /// kept unchanged, so mapping never alters sameness.
    pub fn map<Output, F>(self, f: F) -> (r: Subscription<Output>)
        where
            Output: Send + 'static,
            F: FnMut(Message) -> Output + Send + 'static,
        ensures
            r.identity_view() == self.identity_view(),
            r.stream_view().spec_kind() == StreamKind::Mapped(
                Box::new(self.stream_view().spec_kind()),
            ),
    {
        Subscription { stream: map_stream(self.stream, f), token: self.token }
    }

    /// Attaches an identity token, so the runtime can detect that the same
    /// subscription is being described across frames and avoid restarting it.
    pub fn with_token(self, value: TokenValue) -> (r: Self)
        ensures
            r.identity_view() == Some(value@),
            r.stream_view() == self.stream_view(),
    {
        Subscription { stream: self.stream, token: Some(SubscriptionToken::new(value)) }
    }
}

impl<Message: Send + 'static> IntoSubscription<Message> for Subscription<Message> {
    open spec fn identity_spec(&self) -> Option<TokenView> {
        self.identity_view()
    }

    open spec fn stream_spec(&self) -> MessageStream<Message> {
        self.stream_view()
    }

    fn identity(&self) -> (r: Option<SubscriptionToken>) {
        match &self.token {
            Some(t) => Some(t.clone()),
            None => None,
        }
    }

    fn into_stream(self) -> MessageStream<Message> {
        self.stream
    }
}

impl<Message: Send + 'static> Default for Subscription<Message> {
    /// The default subscription never emits and carries the stable empty
    /// identity.
    fn default() -> (r: Self)
        ensures
            r.identity_view() == Some(TokenView::Unit),
    {
        Subscription::none()
    }
}

/// A subscription built directly from a concrete stream, for callers that
/// want to attach a token before boxing into a `Subscription`.
#[verifier::reject_recursive_types(Message)]
pub struct StreamSubscription<Message: Send + 'static> {
    stream: MessageStream<Message>,
    token: Option<SubscriptionToken>,
}

impl<Message: Send + 'static> StreamSubscription<Message> {
    /// The identity carried by this subscription, if any.
    pub closed spec fn identity_view(&self) -> Option<TokenView> {
        opt_token_view(self.token)
    }

    /// The underlying stream, for contracts that state it is kept.
    pub closed spec fn stream_view(&self) -> MessageStream<Message> {
        self.stream
    }

    /// Wraps the provided stream, with no identity attached.
    pub fn new(stream: MessageStream<Message>) -> (r: Self)
        ensures
            r.identity_view() is None,
            r.stream_view() == stream,
    {
        StreamSubscription { stream, token: None }
    }

    /// Attaches an identity token.
    pub fn with_token(self, value: TokenValue) -> (r: Self)
        ensures
            r.identity_view() == Some(value@),
            r.stream_view() == self.stream_view(),
    {
        StreamSubscription { stream: self.stream, token: Some(SubscriptionToken::new(value)) }
    }

    /// Converts into the general `Subscription`, keeping stream and identity.
    pub fn boxed(self) -> (r: Subscription<Message>)
        ensures
            r.identity_view() == self.identity_view(),
            r.stream_view() == self.stream_view(),
    {
        Subscription { stream: self.stream, token: self.token }
    }
}

impl<Message: Send + 'static> IntoSubscription<Message> for StreamSubscription<Message> {
    open spec fn identity_spec(&self) -> Option<TokenView> {
        self.identity_view()
    }

    open spec fn stream_spec(&self) -> MessageStream<Message> {
        self.stream_view()
    }

    fn identity(&self) -> (r: Option<SubscriptionToken>) {
        match &self.token {
            Some(t) => Some(t.clone()),
            None => None,
        }
    }

    fn into_stream(self) -> MessageStream<Message> {
        self.stream
    }
}

} // verus!
