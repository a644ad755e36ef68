//! The authentication of a requester in a session.

use vstd::prelude::*;

use crate::common::ContextView;
use crate::error::{SpdmResult, SpdmStatus};
use crate::message::SpdmKeyExchangeMutAuthAttributes;
use crate::requester::mutual_authenticate::{
    mode_step, mode_text, mut_auth_step, mut_auth_traced, MutAuthStep,
};
use crate::spdm_trace::{no_message, no_r2_fields, no_snapshot, TraceR2View, TraceRuntimeView};

verus! {

/// With a certificate chain, the attributes of the session alone decide, however far
/// the session has come: for the single attributes 0x02 and 0x04 encapsulated requests
/// are answered for this very session with these very attributes; 0x01 alone ends the
/// authentication without an error; and every other set ends it with an invalid field.
pub proof fn law_attributes_decide_the_step(
    context: ContextView,
    session_id: u32,
    cert_chain: SpdmResult,
)
    requires
        cert_chain is Ok,
        context.find(session_id) is Some,
    ensures
        ({
            let requested = context.find(session_id)->0.mut_auth_requested;
            let bits = requested.bits;
            match mut_auth_step(context, session_id, cert_chain) {
                MutAuthStep::AnswerEncapsulated { session_id: id, mut_auth_requested } => (bits
                    == 0x02 || bits == 0x04) && id == session_id && mut_auth_requested
                    == requested,
                MutAuthStep::Done(Ok(_)) => bits == 0x01,
                MutAuthStep::Done(Err(status)) => bits != 0x01 && bits != 0x02 && bits != 0x04
                    && status is InvalidMsgField,
            }
        }),
{
}

/// Without a certificate chain the authentication ends with the error of building it,
/// whether or not there is a session; with one and without a session it ends with an
/// invalid local state. Nothing is traced of either.
pub proof fn law_authentication_needs_chain_and_session<C>(
    trace: TraceRuntimeView<C>,
    context: ContextView,
    session_id: u32,
    cert_chain: SpdmResult,
)
    ensures
        cert_chain matches Err(status) ==> mut_auth_step(context, session_id, cert_chain)
            == MutAuthStep::Done(Err(status)) && mut_auth_traced(
            trace,
            context,
            session_id,
            cert_chain,
        ) == trace,
        cert_chain is Ok && context.find(session_id) is None ==> mut_auth_step(
            context,
            session_id,
            cert_chain,
        ) == MutAuthStep::Done(Err(SpdmStatus::InvalidStateLocal)) && mut_auth_traced(
            trace,
            context,
            session_id,
            cert_chain,
        ) == trace,
{
}

/// Two sessions with the same attributes lead to the same step, whatever else differs
/// between them and between their contexts, but for the id of the session.
pub proof fn law_step_depends_on_attributes_alone(
    first: ContextView,
    second: ContextView,
    one: u32,
    other: u32,
)
    requires
        first.find(one) is Some,
        second.find(other) is Some,
        first.find(one)->0.mut_auth_requested == second.find(other)->0.mut_auth_requested,
    ensures
        ({
            let ok = Ok::<(), SpdmStatus>(());
            let a = mut_auth_step(first, one, ok);
            let b = mut_auth_step(second, other, ok);
            match (a, b) {
                (
                    MutAuthStep::AnswerEncapsulated { session_id, mut_auth_requested },
                    MutAuthStep::AnswerEncapsulated {
                        session_id: other_id,
                        mut_auth_requested: other_requested,
                    },
                ) => session_id == one && other_id == other && mut_auth_requested
                    == other_requested,
                (MutAuthStep::Done(x), MutAuthStep::Done(y)) => x == y,
                _ => false,
            }
        }),
{
}

/// With a chain, a session and a callback, exactly one event is queued: it names the
/// session and the mode that its attributes stand for, and nothing else.
pub proof fn law_chosen_mode_is_traced<C>(
    trace: TraceRuntimeView<C>,
    context: ContextView,
    session_id: u32,
    cert_chain: SpdmResult,
)
    requires
        cert_chain is Ok,
        context.find(session_id) is Some,
    ensures
        ({
            let after = mut_auth_traced(trace, context, session_id, cert_chain);
            let bits = context.find(session_id)->0.mut_auth_requested.bits;
            let delivery = after.pending.last();
            let event = delivery.event;
            &&& after == (TraceRuntimeView { pending: after.pending, ..trace })
            &&& trace.callback is None ==> after.pending == trace.pending
            &&& trace.callback is Some ==> {
                &&& after.pending.len() == trace.pending.len() + 1
                &&& after.pending.drop_last() == trace.pending
                &&& trace.callback == Some(delivery.callback) && !delivery.follows
                &&& event.name == "SelectMutAuthMode" && event.nid == "requester"
                &&& event.state == no_snapshot() && event.msg == no_message()
                &&& event.r2 is Some
                &&& event.r2->0.session_id == Some(session_id)
                &&& bits == 0x01 ==> event.r2->0.mut_auth_mode == Some("MutAuthReq")
                &&& bits == 0x02 ==> event.r2->0.mut_auth_mode == Some("WithEncap")
                &&& bits == 0x04 ==> event.r2->0.mut_auth_mode == Some("WithGetDigests")
                &&& bits != 0x01 && bits != 0x02 && bits != 0x04 ==> event.r2->0.mut_auth_mode
                    == Some("None")
                &&& event.r2->0 == (TraceR2View {
                    session_id: event.r2->0.session_id,
                    mut_auth_mode: event.r2->0.mut_auth_mode,
                    ..no_r2_fields()
                })
            }
        }),
{
    let after = mut_auth_traced(trace, context, session_id, cert_chain);
    if trace.callback is Some {
        assert(after.pending.drop_last() =~= trace.pending);
    }
}

/// Each mode has its own name and its own step; what is no mode has neither.
pub proof fn law_modes_are_single_attributes(
    session_id: u32,
    attributes: SpdmKeyExchangeMutAuthAttributes,
)
    ensures
        attributes.bits == 0x01 ==> mode_text(attributes) == "MutAuthReq" && mode_step(
            session_id,
            attributes,
        ) == MutAuthStep::Done(Ok(())),
        attributes.bits == 0x02 ==> mode_text(attributes) == "WithEncap",
        attributes.bits == 0x04 ==> mode_text(attributes) == "WithGetDigests",
        attributes.bits == 0x02 || attributes.bits == 0x04 ==> mode_step(session_id, attributes)
            == (MutAuthStep::AnswerEncapsulated { session_id, mut_auth_requested: attributes }),
        attributes.bits != 0x01 && attributes.bits != 0x02 && attributes.bits != 0x04 ==> mode_text(
            attributes,
        ) == "None" && mode_step(session_id, attributes) == MutAuthStep::Done(
            Err(SpdmStatus::InvalidMsgField),
        ),
{
}

} // verus!
