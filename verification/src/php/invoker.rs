//! Calling a value as a function. The engine does the calling; what is decided
//! here is what to ask of it next, and what to make of its answers. Whoever
//! drives a call hands each answer to `Invocation::step` and does what the
//! request that comes back says, until the request is `Finish`.

use vstd::prelude::*;
use crate::bindings::ZendObject;
use crate::php::types::string::{string_views, ZendString, ZendStringView};
use crate::php::types::zval::{zval_views, Zval, ZvalView};

verus! {

/// Where a call stands.
#[derive(Debug, PartialEq, Eq)]
pub enum Invocation {
    /// The arguments are packed into one block. The engine has yet to say
    /// whether the value can be called.
    Packed { callable: Zval, params: Vec<Zval> },
    /// The engine runs the call over the block.
    Called { callable: Zval, params: Vec<Zval> },
    /// The call is over and the block is given up.
    Done,
}

/// An answer of the engine.
#[derive(Debug, PartialEq, Eq)]
pub enum HostReply {
    /// Whether the value can be called.
    Callable(bool),
    /// The call has returned: the status that the engine reports, negative
    /// where the call failed, and the slot for what the function returned.
    Returned { status: i32, retval: Zval },
}

/// What is to be done next.
#[derive(Debug, PartialEq, Eq)]
pub enum HostRequest {
    /// Ask the engine whether the value can be called.
    IsCallable,
    /// Have the engine call the value on `object`, with the first
    /// `param_count` values of the block as arguments and `retval` as the slot
    /// for what the function returns.
    Call { object: Option<ZendObject>, retval: Zval, param_count: usize },
    /// Hand the strings of `release` back to the engine, in this order; the
    /// call is then over with `result`.
    Finish { release: Vec<ZendString>, result: Option<Zval> },
}

/// What an `Invocation` stands for.
pub enum InvocationView {
    Packed { callable: ZvalView, params: Seq<ZvalView> },
    Called { callable: ZvalView, params: Seq<ZvalView> },
    Done,
}

/// What a `HostReply` stands for.
pub enum HostReplyView {
    Callable(bool),
    Returned { status: i32, retval: ZvalView },
}

/// What a `HostRequest` stands for.
pub enum HostRequestView {
    IsCallable,
    Call { object: Option<ZendObject>, retval: ZvalView, param_count: nat },
    Finish { release: Seq<ZendStringView>, result: Option<ZvalView> },
}

impl View for Invocation {
    type V = InvocationView;

    open spec fn view(&self) -> InvocationView {
        match self {
            Invocation::Packed { callable, params } => InvocationView::Packed {
                callable: callable@,
                params: zval_views(params@),
            },
            Invocation::Called { callable, params } => InvocationView::Called {
                callable: callable@,
                params: zval_views(params@),
            },
            Invocation::Done => InvocationView::Done,
        }
    }
}

impl View for HostReply {
    type V = HostReplyView;

    open spec fn view(&self) -> HostReplyView {
        match self {
            HostReply::Callable(callable) => HostReplyView::Callable(*callable),
            HostReply::Returned { status, retval } => HostReplyView::Returned {
                status: *status,
                retval: retval@,
            },
        }
    }
}

impl View for HostRequest {
    type V = HostRequestView;

    open spec fn view(&self) -> HostRequestView {
        match self {
            HostRequest::IsCallable => HostRequestView::IsCallable,
            HostRequest::Call { object, retval, param_count } => HostRequestView::Call {
                object: *object,
                retval: retval@,
                param_count: *param_count as nat,
            },
            HostRequest::Finish { release, result } => HostRequestView::Finish {
                release: string_views(release@),
                result: match result {
                    Some(retval) => Some(retval@),
                    None => None,
                },
            },
        }
    }
}

/// The strings among `params`, in their order. A string that a parameter only
/// refers to is not among them.
pub open spec fn strings_among(params: Seq<ZvalView>) -> Seq<ZendStringView>
    decreases params.len(),
{
    if params.len() == 0 {
        Seq::empty()
    } else {
        let before = strings_among(params.drop_last());
        match params.last() {
            ZvalView::String(string) => before.push(string),
            _ => before,
        }
    }
}

impl InvocationView {
    /// The arguments that the call still holds.
    pub open spec fn held(self) -> Seq<ZvalView> {
        match self {
            InvocationView::Packed { params, .. } => params,
            InvocationView::Called { params, .. } => params,
            InvocationView::Done => Seq::empty(),
        }
    }

    /// Whether `reply` answers what the call has asked last.
    pub open spec fn expects(self, reply: HostReplyView) -> bool {
        match (self, reply) {
            (InvocationView::Packed { .. }, HostReplyView::Callable(_)) => true,
            (InvocationView::Called { .. }, HostReplyView::Returned { .. }) => true,
            _ => false,
        }
    }

    /// The state after `reply`, and what is to be done next.
    ///
    /// A value that cannot be called is not called: the block is given up,
    /// no string is released, and the call is over without a result. One that
    /// can is called on no object, with the whole block and an empty slot for
    /// the result. When the engine returns, the strings among the arguments
    /// are released and the block is given up, whatever the status; the result
    /// is what the slot holds, unless the status is negative.
    pub open spec fn step(self, reply: HostReplyView) -> (InvocationView, HostRequestView)
        recommends
            self.expects(reply),
    {
        match (self, reply) {
            (InvocationView::Packed { callable, params }, HostReplyView::Callable(true)) => (
                InvocationView::Called { callable, params },
                HostRequestView::Call {
                    object: None,
                    retval: ZvalView::Null,
                    param_count: params.len(),
                },
            ),
            (InvocationView::Packed { .. }, HostReplyView::Callable(false)) => (
                InvocationView::Done,
                HostRequestView::Finish { release: Seq::empty(), result: None },
            ),
            (InvocationView::Called { params, .. }, HostReplyView::Returned { status, retval }) => (
                InvocationView::Done,
                HostRequestView::Finish {
                    release: strings_among(params),
                    result: if status < 0 {
                        None
                    } else {
                        Some(retval)
                    },
                },
            ),
            _ => arbitrary(),
        }
    }
}

proof fn lemma_strings_among_next(params: Seq<ZvalView>, n: int)
    requires
        0 <= n < params.len(),
    ensures
        strings_among(params.take(n + 1)) == match params[n] {
            ZvalView::String(string) => strings_among(params.take(n)).push(string),
            _ => strings_among(params.take(n)),
        },
{
    assert(params.take(n + 1).drop_last() =~= params.take(n));
}

/// The strings among `params`, each copied, in their order.
fn strings_to_release(params: &Vec<Zval>) -> (release: Vec<ZendString>)
    ensures
        string_views(release@) == strings_among(zval_views(params@)),
{
    let mut release: Vec<ZendString> = Vec::new();
    let mut n: usize = 0;
    assert(zval_views(params@).take(0) =~= Seq::empty());
    assert(string_views(release@) =~= Seq::empty());
    while n < params.len()
        invariant
            n <= params.len(),
            string_views(release@) == strings_among(zval_views(params@).take(n as int)),
        decreases params.len() - n,
    {
        proof {
            lemma_strings_among_next(zval_views(params@), n as int);
        }
        let ghost before = release@;
        match &params[n] {
            Zval::String(string) => {
                release.push(string.clone());
                assert(string_views(release@) =~= string_views(before).push(string@));
            },
            _ => {},
        }
        n = n + 1;
    }
    assert(zval_views(params@).take(n as int) =~= zval_views(params@));
    release
}

/// A value that the engine says cannot be called is not called: the call is
/// over at once without a result, nothing is released, and no argument is held
/// any more.
pub proof fn lemma_uncallable_is_not_called(callable: ZvalView, params: Seq<ZvalView>)
    ensures
        ({
            let packed = InvocationView::Packed { callable, params };
            let (state, request) = packed.step(HostReplyView::Callable(false));
            &&& packed.expects(HostReplyView::Callable(false))
            &&& state == InvocationView::Done
            &&& state.held() == Seq::<ZvalView>::empty()
            &&& request == HostRequestView::Finish { release: Seq::empty(), result: None }
        }),
{
}

/// A value that the engine says can be called is called once, on no object
/// and with all arguments, which stay held meanwhile. When the engine returns,
/// the call is over, no argument is held any more, and exactly the strings
/// among the arguments are released, whatever the status. The result is
/// absent if the status is negative, and what the engine returned otherwise.
pub proof fn lemma_callable_is_called_once(
    callable: ZvalView,
    params: Seq<ZvalView>,
    status: i32,
    retval: ZvalView,
)
    ensures
        ({
            let packed = InvocationView::Packed { callable, params };
            let (called, call) = packed.step(HostReplyView::Callable(true));
            let returned = HostReplyView::Returned { status, retval };
            let (done, finish) = called.step(returned);
            &&& packed.expects(HostReplyView::Callable(true))
            &&& called == InvocationView::Called { callable, params }
            &&& called.held() == params
            &&& call == HostRequestView::Call {
                object: None,
                retval: ZvalView::Null,
                param_count: params.len(),
            }
            &&& called.expects(returned)
            &&& done == InvocationView::Done
            &&& done.held() == Seq::<ZvalView>::empty()
            &&& finish == HostRequestView::Finish {
                release: strings_among(params),
                result: if status < 0 {
                    None
                } else {
                    Some(retval)
                },
            }
        }),
{
}

/// No more strings are released than there are arguments, and none where no
/// argument is a string.
pub proof fn lemma_strings_among_bounds(params: Seq<ZvalView>)
    ensures
        strings_among(params).len() <= params.len(),
        (forall|n: int| 0 <= n < params.len() ==> !(#[trigger] params[n] is String))
            ==> strings_among(params) == Seq::<ZendStringView>::empty(),
    decreases params.len(),
{
    if params.len() > 0 {
        lemma_strings_among_bounds(params.drop_last());
        if forall|n: int| 0 <= n < params.len() ==> !(#[trigger] params[n] is String) {
            assert forall|n: int| 0 <= n < params.drop_last().len() implies !(
            #[trigger] params.drop_last()[n] is String) by {
                assert(params.drop_last()[n] == params[n]);
            }
            assert(!(params[params.len() - 1] is String));
        }
    }
}

impl Invocation {
    /// Whether `reply` answers what the call has asked last.
    pub fn expects(&self, reply: &HostReply) -> (expected: bool)
        ensures
            expected == self@.expects(reply@),
    {
        match (self, reply) {
            (Invocation::Packed { .. }, HostReply::Callable(_)) => true,
            (Invocation::Called { .. }, HostReply::Returned { .. }) => true,
            _ => false,
        }
    }

    /// Takes the engine's answer, and says where the call stands then and what
    /// is to be done next.
    pub fn step(self, reply: HostReply) -> (next: (Invocation, HostRequest))
        requires
            self@.expects(reply@),
        ensures
            (next.0@, next.1@) == self@.step(reply@),
    {
        match (self, reply) {
            (Invocation::Packed { callable, params }, HostReply::Callable(true)) => {
                let param_count: usize = params.len();
                (
                    Invocation::Called { callable, params },
                    HostRequest::Call { object: None, retval: Zval::new(), param_count },
                )
            },
            (Invocation::Called { params, .. }, HostReply::Returned { status, retval }) => {
                let release = strings_to_release(&params);
                let result = if status < 0 {
                    None
                } else {
                    Some(retval)
                };
                (Invocation::Done, HostRequest::Finish { release, result })
            },
            _ => {
                let release: Vec<ZendString> = Vec::new();
                assert(string_views(release@) =~= Seq::empty());
                (Invocation::Done, HostRequest::Finish { release, result: None })
            },
        }
    }
}

} // verus!
