//! Choosing how a requester authenticates itself in a session.

use vstd::prelude::*;

use crate::common::ContextView;
use crate::error::{SpdmResult, SpdmStatus};
use crate::message::SpdmKeyExchangeMutAuthAttributes;
use crate::requester::RequesterContext;
use crate::spdm_trace::{
    emit_r2_event, no_r2_fields, r2_event_emitted, TraceR2Fields, TraceR2View, TraceRole,
    TraceRuntime, TraceRuntimeView,
};

verus! {

/// What the choice of a mode leads to.
#[derive(Clone, Copy, Debug, PartialEq, Eq)]
pub enum MutAuthStep {
    /// The authentication is over with this result.
    Done(SpdmResult),
    /// The responder sends encapsulated requests for this session. The
    /// authentication is over with the result of answering them.
    AnswerEncapsulated { session_id: u32, mut_auth_requested: SpdmKeyExchangeMutAuthAttributes },
}

/// The name of a mode. Only a single attribute is a mode.
pub open spec fn mode_text(attributes: SpdmKeyExchangeMutAuthAttributes) -> &'static str {
    if attributes.bits == SpdmKeyExchangeMutAuthAttributes::MUT_AUTH_REQ {
        "MutAuthReq"
    } else if attributes.bits == SpdmKeyExchangeMutAuthAttributes::MUT_AUTH_REQ_WITH_ENCAP_REQUEST {
        "WithEncap"
    } else if attributes.bits == SpdmKeyExchangeMutAuthAttributes::MUT_AUTH_REQ_WITH_GET_DIGESTS {
        "WithGetDigests"
    } else {
        "None"
    }
}

/// What a mode leads to.
pub open spec fn mode_step(
    session_id: u32,
    attributes: SpdmKeyExchangeMutAuthAttributes,
) -> MutAuthStep {
    if attributes.bits == SpdmKeyExchangeMutAuthAttributes::MUT_AUTH_REQ {
        MutAuthStep::Done(Ok(()))
    } else if attributes.bits == SpdmKeyExchangeMutAuthAttributes::MUT_AUTH_REQ_WITH_ENCAP_REQUEST
        || attributes.bits == SpdmKeyExchangeMutAuthAttributes::MUT_AUTH_REQ_WITH_GET_DIGESTS {
        MutAuthStep::AnswerEncapsulated { session_id, mut_auth_requested: attributes }
    } else {
        MutAuthStep::Done(Err(SpdmStatus::InvalidMsgField))
    }
}

/// What the authentication leads to, given whether the own certificate chain could
/// be built.
pub open spec fn mut_auth_step(
    context: ContextView,
    session_id: u32,
    cert_chain: SpdmResult,
) -> MutAuthStep {
    match (cert_chain, context.find(session_id)) {
        (Err(status), _) => MutAuthStep::Done(Err(status)),
        (Ok(_), None) => MutAuthStep::Done(Err(SpdmStatus::InvalidStateLocal)),
        (Ok(_), Some(session)) => mode_step(session_id, session.mut_auth_requested),
    }
}

/// The trace after a mode was chosen, if it came to that.
pub open spec fn mut_auth_traced<C>(
    trace: TraceRuntimeView<C>,
    context: ContextView,
    session_id: u32,
    cert_chain: SpdmResult,
) -> TraceRuntimeView<C> {
    match (cert_chain, context.find(session_id)) {
        (Ok(_), Some(session)) => r2_event_emitted(
            trace,
            TraceRole::Requester,
            "SelectMutAuthMode",
            TraceR2View {
                session_id: Some(session_id),
                mut_auth_mode: Some(mode_text(session.mut_auth_requested)),
                ..no_r2_fields()
            },
        ),
        _ => trace,
    }
}

impl RequesterContext {
    /// Chooses how to authenticate in a session, once the own certificate chain
    /// was built or failed to be built.
    pub fn session_based_mutual_authenticate<C: Copy>(
        &self,
        trace: &mut TraceRuntime<C>,
        session_id: u32,
        cert_chain: SpdmResult,
    ) -> (step: MutAuthStep)
        ensures
            step == mut_auth_step(self.common@, session_id, cert_chain),
            final(trace)@ == mut_auth_traced(old(trace)@, self.common@, session_id, cert_chain),
    {
        if let Err(status) = cert_chain {
            return MutAuthStep::Done(Err(status));
        }
        let mut_auth_requested = match self.common.get_immutable_session_via_id(session_id) {
            Some(session) => session.get_mut_auth_requested(),
            None => {
                return MutAuthStep::Done(Err(SpdmStatus::InvalidStateLocal));
            },
        };
        let bits: u8 = mut_auth_requested.bits;
        let mode = if bits == SpdmKeyExchangeMutAuthAttributes::MUT_AUTH_REQ {
            "MutAuthReq"
        } else if bits == SpdmKeyExchangeMutAuthAttributes::MUT_AUTH_REQ_WITH_ENCAP_REQUEST {
            "WithEncap"
        } else if bits == SpdmKeyExchangeMutAuthAttributes::MUT_AUTH_REQ_WITH_GET_DIGESTS {
            "WithGetDigests"
        } else {
            "None"
        };
        emit_r2_event(
            trace,
            TraceRole::Requester,
            "SelectMutAuthMode",
            TraceR2Fields {
                session_id: Some(session_id),
                mut_auth_mode: Some(mode),
                ..TraceR2Fields::default()
            },
        );
        if bits == SpdmKeyExchangeMutAuthAttributes::MUT_AUTH_REQ {
            MutAuthStep::Done(Ok(()))
        } else if bits == SpdmKeyExchangeMutAuthAttributes::MUT_AUTH_REQ_WITH_ENCAP_REQUEST || bits
            == SpdmKeyExchangeMutAuthAttributes::MUT_AUTH_REQ_WITH_GET_DIGESTS {
            MutAuthStep::AnswerEncapsulated { session_id, mut_auth_requested }
        } else {
            MutAuthStep::Done(Err(SpdmStatus::InvalidMsgField))
        }
    }
}

/// A set of attributes that is not a single mode ends the authentication with an
/// error, and the one mode without encapsulated requests ends it without one; in
/// either case nothing more is sent.
pub proof fn law_only_encapsulated_modes_go_on(
    session_id: u32,
    attributes: SpdmKeyExchangeMutAuthAttributes,
)
    ensures
        mode_step(session_id, attributes) is AnswerEncapsulated == (attributes.bits == 0x02
            || attributes.bits == 0x04),
        (mode_step(session_id, attributes) == MutAuthStep::Done(Ok(()))) == (attributes.bits
            == 0x01),
        (mode_text(attributes) == "None") == (mode_step(session_id, attributes)
            == MutAuthStep::Done(Err(SpdmStatus::InvalidMsgField))),
{
    reveal_strlit("None");
    reveal_strlit("MutAuthReq");
    reveal_strlit("WithEncap");
    reveal_strlit("WithGetDigests");
    assert("None"@.len() == 4);
    assert("MutAuthReq"@.len() == 10);
    assert("WithEncap"@.len() == 9);
    assert("WithGetDigests"@.len() == 14);
}

} // verus!
