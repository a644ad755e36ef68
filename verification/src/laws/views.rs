//! What contracts speak of is what the values hold, field by field.

use vstd::prelude::*;

use crate::codec::{field_views, Reader, Writer, WriterView};
use crate::common::{session_views, SpdmContext};
use crate::json::text_views;
use crate::session::{DerivedSecrets, SpdmDigestStruct, SpdmSession, SpdmSessionDataSecret};
use crate::spdm_trace::{delivery_views, TraceDelivery, TraceEvent, TraceR2Fields, TraceRuntime};

verus! {

/// A side of a connection is seen with all its parts, and with its sessions in their
/// slots.
pub proof fn law_context_is_seen_whole(context: SpdmContext)
    ensures
        context@.config == context.config_info,
        context@.negotiated == context.negotiate_info,
        context@.connection_state == context.runtime_info.connection_state,
        context@.last_session_id == context.runtime_info.last_session_id,
        context@.message_a == context.runtime_info.message_a@,
        context@.message_a_limit == context.runtime_info.message_a_limit,
        context@.resets == context.runtime_info.buffer_resets@,
        context@.sessions.len() == context.session@.len(),
        forall|slot: int|
            0 <= slot < context.session@.len() ==> #[trigger] context@.sessions[slot]
                == context.session@[slot]@,
        session_views(context.session@) == context@.sessions,
{
}

/// A session is seen with all its parts; the secrets in use and the backup apart, each
/// direction in its place.
pub proof fn law_session_is_seen_whole(session: SpdmSession)
    ensures
        session@.session_id == session.session_id,
        session@.session_state == session.session_state,
        session@.mut_auth_requested == session.mut_auth_requested,
        session@.crypto_param == session.crypto_param,
        session@.secret.request == session.application_secret.request_data_secret@,
        session@.secret.response == session.application_secret.response_data_secret@,
        session@.backup.request == session.application_secret_backup.request_data_secret@,
        session@.backup.response == session.application_secret_backup.response_data_secret@,
        session@.requester_backup_valid == session.requester_backup_valid,
        session@.responder_backup_valid == session.responder_backup_valid,
        session@.th1.data_size == session.th1.data_size,
        session@.th1.data == session.th1.data@,
        session@.th2.data_size == session.th2.data_size,
        session@.th2.data == session.th2.data@,
{
}

/// Secrets and hashes are seen as their bytes, and derived secrets where there are any.
pub proof fn law_secrets_are_seen_whole(
    digest: SpdmDigestStruct,
    secret: SpdmSessionDataSecret,
    derived: DerivedSecrets,
)
    ensures
        digest@.data_size == digest.data_size && digest@.data == digest.data@,
        secret@.request == secret.request_data_secret@,
        secret@.response == secret.response_data_secret@,
        derived.request is None ==> derived@.request is None,
        derived.request matches Some(bytes) ==> derived@.request == Some(bytes@),
        derived.response is None ==> derived@.response is None,
        derived.response matches Some(bytes) ==> derived@.response == Some(bytes@),
{
}

/// A writer is seen as what is written and how much it holds at most; a reader has all
/// left that stands behind its place; fields and texts are seen one by one.
pub proof fn law_bytes_are_seen_whole(
    writer: Writer,
    view: WriterView,
    reader: Reader,
    fields: Seq<Vec<u8>>,
    texts: Seq<String>,
)
    ensures
        writer@.used == writer.data@,
        writer@.limit == writer.limit,
        view.wf() == (view.used.len() <= view.limit),
        reader.offset <= reader.buffer@.len() ==> reader.rest() == reader.buffer@.subrange(
            reader.offset as int,
            reader.buffer@.len() as int,
        ),
        reader.offset > reader.buffer@.len() ==> reader.rest().len() == 0,
        field_views(fields).len() == fields.len(),
        forall|i: int| 0 <= i < fields.len() ==> #[trigger] field_views(fields)[i] == fields[i]@,
        text_views(texts).len() == texts.len(),
        forall|i: int| 0 <= i < texts.len() ==> #[trigger] text_views(texts)[i] == texts[i]@,
{
}

/// An event is seen with all its parts, and its further fields where it has them.
pub proof fn law_event_is_seen_whole(event: TraceEvent)
    ensures
        event@.name == event.name,
        event@.nid == event.nid,
        event@.state == event.state,
        event@.msg == event.msg,
        event.r2 is None ==> event@.r2 is None,
        event.r2 matches Some(fields) ==> event@.r2 == Some(fields@),
{
}

/// Further fields are seen one by one.
pub proof fn law_further_fields_are_seen_whole(fields: TraceR2Fields)
    ensures
        fields@.req_connection_state == fields.req_connection_state,
        fields@.rsp_connection_state == fields.rsp_connection_state,
        fields@.negotiated_version == fields.negotiated_version,
        fields@.req_caps is Some == fields.req_caps is Some,
        fields.req_caps matches Some(names) ==> fields@.req_caps == Some(names@),
        fields@.rsp_caps is Some == fields.rsp_caps is Some,
        fields.rsp_caps matches Some(names) ==> fields@.rsp_caps == Some(names@),
        fields@.req_capabilities is Some == fields.req_capabilities is Some,
        fields.req_capabilities matches Some(names) ==> fields@.req_capabilities == Some(names@),
        fields@.rsp_capabilities is Some == fields.rsp_capabilities is Some,
        fields.rsp_capabilities matches Some(names) ==> fields@.rsp_capabilities == Some(names@),
        fields@.proposed is Some == fields.proposed is Some,
        fields.proposed matches Some(names) ==> fields@.proposed == Some(names@),
        fields@.rsp_supported is Some == fields.rsp_supported is Some,
        fields.rsp_supported matches Some(names) ==> fields@.rsp_supported == Some(names@),
        fields@.negotiated_algo == fields.negotiated_algo,
        fields@.session_id == fields.session_id,
        fields@.session_state == fields.session_state,
        fields@.session_slot == fields.session_slot,
        fields@.req_backup_valid == fields.req_backup_valid,
        fields@.rsp_backup_valid == fields.rsp_backup_valid,
        fields@.op == fields.op,
        fields@.error == fields.error,
        fields@.session_mode == fields.session_mode,
        fields@.psk_cap_mode == fields.psk_cap_mode,
        fields@.mut_auth_mode == fields.mut_auth_mode,
        fields@.mut_auth_done == fields.mut_auth_done,
        fields@.encap_state == fields.encap_state,
        fields@.chunk_status == fields.chunk_status,
        fields@.chunk_seq_num == fields.chunk_seq_num,
        fields@.chunk_handle == fields.chunk_handle,
        fields@.chunk_session_id == fields.chunk_session_id,
{
}

/// A runtime is seen with all its parts, and its queue event by event.
pub proof fn law_runtime_is_seen_whole<C>(runtime: TraceRuntime<C>, delivery: TraceDelivery<C>)
    ensures
        runtime@.callback == runtime.callback,
        runtime@.requester_connection == runtime.requester_connection,
        runtime@.requester_transcript == runtime.requester_transcript,
        runtime@.responder_transcript == runtime.responder_transcript,
        runtime@.key_gens == runtime.key_gens,
        runtime@.requester_last == runtime.requester_last,
        runtime@.responder_last == runtime.responder_last,
        runtime@.pending.len() == runtime.pending@.len(),
        forall|i: int|
            0 <= i < runtime.pending@.len() ==> #[trigger] runtime@.pending[i]
                == runtime.pending@[i]@,
        delivery_views(runtime.pending@) == runtime@.pending,
        delivery@.callback == delivery.callback,
        delivery@.event == delivery.event@,
        delivery@.follows == delivery.follows,
{
}

} // verus!
