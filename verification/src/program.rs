//! The program descriptor: the immutable bundle of pure functions an
//! application supplies once, from which the runtime driver derives every
//! state transition.
//!
//! `update` is functional: it receives the current model by reference and a
//! message, and returns the successor model together with a command of
//! deferred effects. `subscription` derives a declarative subscription from
//! the model; `view` renders the model against an opaque surface handle and
//! may enqueue messages through the view context.

use vstd::prelude::*;

use core::marker::PhantomData;

use crate::command::Command;
use crate::subscription::IntoSubscription;
use crate::view::ViewContext;

verus! {

/// The four functions of a program, supplied once by the application.
///
/// `Ctx` is the host toolkit's render-surface handle, passed through opaquely
/// to `init` and `view`.
pub struct Program<Model, Message: 'static, Ctx, Sub, FInit, FUpdate, FView, FSub> {
    pub init: FInit,
    pub update: FUpdate,
    pub view: FView,
    pub subscription: FSub,
    pub marker: PhantomData<(Model, Message, Ctx, Sub)>,
}

impl<Model, Message, Ctx, Sub, FInit, FUpdate, FView, FSub> Program<
    Model,
    Message,
    Ctx,
    Sub,
    FInit,
    FUpdate,
    FView,
    FSub,
> where
    Message: Send + 'static,
    Sub: IntoSubscription<Message>,
    FInit: Fn(&Ctx) -> (Model, Command<Message>),
    FUpdate: Fn(&Model, Message) -> (Model, Command<Message>),
    FView: Fn(&Model, &Ctx, &ViewContext<Message>),
    FSub: Fn(&Model) -> Sub,
 {
    /// Wires the four functions together.
    pub fn new(init: FInit, update: FUpdate, view: FView, subscription: FSub) -> (r: Self)
        ensures
            r.init == init,
            r.update == update,
            r.view == view,
            r.subscription == subscription,
    {
        Program { init, update, view, subscription, marker: PhantomData }
    }

    /// True when `update` accepts every model and message.
    pub open spec fn update_total(&self) -> bool {
        forall|m: &Model, msg: Message| #[trigger] call_requires(self.update, (m, msg))
    }

    /// True when `subscription` accepts every model.
    pub open spec fn subscription_total(&self) -> bool {
        forall|m: &Model| #[trigger] call_requires(self.subscription, (m,))
    }

    /// True when `view` accepts every model, surface and view context.
    pub open spec fn view_total(&self) -> bool {
        forall|m: &Model, c: &Ctx, v: &ViewContext<Message>|
            #[trigger] call_requires(self.view, (m, c, v))
    }

    /// A program the driver can run: each supplied function accepts every
    /// input the driver may hand it.
    pub open spec fn wf(&self) -> bool {
        &&& self.update_total()
        &&& self.subscription_total()
        &&& self.view_total()
    }

    /// One possible update step: applying `update` to `m0` and `msg` may
    /// yield the successor model `m1` together with the command `c`.
    pub open spec fn step(&self, m0: Model, msg: Message, m1: Model, c: Command<Message>) -> bool {
        call_ensures(self.update, (&m0, msg), (m1, c))
    }

    /// `m1` is a possible successor of `m0` under `msg`, whatever command the
    /// step yielded.
    pub open spec fn transitions(&self, m0: Model, msg: Message, m1: Model) -> bool {
        exists|c: Command<Message>| self.step(m0, msg, m1, c)
    }

    /// `s` is a subscription this program may derive from model `m`.
    pub open spec fn derives(&self, m: Model, s: Sub) -> bool {
        call_ensures(self.subscription, (&m,), s)
    }

    /// The messages of `msgs`, folded through `update` strictly in order,
    /// may carry `m0` to `m1`.
    pub open spec fn steps(&self, m0: Model, msgs: Seq<Message>, m1: Model) -> bool
        decreases msgs.len(),
    {
        if msgs.len() == 0 {
            m1 == m0
        } else {
            exists|mid: Model|
                #[trigger] self.transitions(m0, msgs.first(), mid) && self.steps(
                    mid,
                    msgs.drop_first(),
                    m1,
                )
        }
    }
}

/// Law: appending one more message to an in-order fold is one more update
/// step at the end; the driver's mailbox drain applies messages this way,
/// strictly in dequeue order.
pub proof fn lemma_steps_snoc<Model, Message, Ctx, Sub, FInit, FUpdate, FView, FSub>(
    program: Program<Model, Message, Ctx, Sub, FInit, FUpdate, FView, FSub>,
    m0: Model,
    msgs: Seq<Message>,
    m1: Model,
    msg: Message,
    m2: Model,
) where
    Message: Send + 'static,
    Sub: IntoSubscription<Message>,
    FInit: Fn(&Ctx) -> (Model, Command<Message>),
    FUpdate: Fn(&Model, Message) -> (Model, Command<Message>),
    FView: Fn(&Model, &Ctx, &ViewContext<Message>),
    FSub: Fn(&Model) -> Sub,

    requires
        program.steps(m0, msgs, m1),
        program.transitions(m1, msg, m2),
    ensures
        program.steps(m0, msgs.push(msg), m2),
    decreases msgs.len(),
{
    if msgs.len() == 0 {
        assert(msgs.push(msg).first() == msg);
        assert(msgs.push(msg).drop_first() =~= Seq::<Message>::empty());
        assert(program.steps(m2, msgs.push(msg).drop_first(), m2));
    } else {
        let mid = choose|mid: Model|
            #[trigger] program.transitions(m0, msgs.first(), mid) && program.steps(
                mid,
                msgs.drop_first(),
                m1,
            );
        lemma_steps_snoc(program, mid, msgs.drop_first(), m1, msg, m2);
        assert(msgs.push(msg).first() == msgs.first());
        assert(msgs.push(msg).drop_first() =~= msgs.drop_first().push(msg));
        assert(program.transitions(m0, msgs.push(msg).first(), mid) && program.steps(
            mid,
            msgs.push(msg).drop_first(),
            m2,
        ));
    }
}

} // verus!
