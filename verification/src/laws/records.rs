//! The records of a trace.

use vstd::prelude::*;

use crate::common::{ContextView, SpdmConnectionState};
use crate::json::{no_members, with_member, JsonTree};
use crate::session::{DerivedView, SpdmSessionState};
use crate::spdm_trace::{
    TraceErrorKind, TraceEventView, TraceKeyUpdateOp, TraceMessage, TracePeerState,
    TraceRuntimeView, TraceTranscriptPhase,
};
use crate::trace_harness::{
    config_tree, connection_text, decimal_text, digit_char, error_text, established,
    established_slots, event_record, key_state_text, law_mask_slots_are_its_bits, members_of,
    msg_tree, peer_tree, session_text, slot_mask_texts, slot_text, slots_from, state_tree,
    text_tree, trace_started, transcript_text, TraceKeyState,
};

verus! {

/// Whether a record is an object that has a member exactly where there is a value for
/// it, and then that very value.
pub open spec fn has_exactly(record: JsonTree, key: Seq<char>, value: Option<JsonTree>) -> bool {
    match record {
        JsonTree::Object(members) => match value {
            Some(tree) => members.contains_key(key) && members[key] == tree,
            None => !members.contains_key(key),
        },
        _ => false,
    }
}

/// The keys of the record of a state differ from each other.
proof fn lemma_state_keys_differ()
    ensures
        "requester"@ != "responder"@,
        "requester"@ != "reqKeyState"@,
        "requester"@ != "rspKeyState"@,
        "requester"@ != "reqBackupValid"@,
        "requester"@ != "rspBackupValid"@,
        "responder"@ != "reqKeyState"@,
        "responder"@ != "rspKeyState"@,
        "responder"@ != "reqBackupValid"@,
        "responder"@ != "rspBackupValid"@,
        "reqKeyState"@ != "rspKeyState"@,
        "reqKeyState"@ != "reqBackupValid"@,
        "reqKeyState"@ != "rspBackupValid"@,
        "rspKeyState"@ != "reqBackupValid"@,
        "rspKeyState"@ != "rspBackupValid"@,
        "reqBackupValid"@ != "rspBackupValid"@,
{
    reveal_strlit("requester");
    reveal_strlit("responder");
    reveal_strlit("reqKeyState");
    reveal_strlit("rspKeyState");
    reveal_strlit("reqBackupValid");
    reveal_strlit("rspBackupValid");
    assert("requester"@.len() == 9 && "responder"@.len() == 9);
    assert("reqKeyState"@.len() == 11 && "rspKeyState"@.len() == 11);
    assert("reqBackupValid"@.len() == 14 && "rspBackupValid"@.len() == 14);
    assert("requester"@[2] == 'q' && "responder"@[2] == 's');
    assert("reqKeyState"@[2] == 'q' && "rspKeyState"@[2] == 'p');
    assert("reqBackupValid"@[2] == 'q' && "rspBackupValid"@[2] == 'p');
}

/// The record of a state has a member for each side exactly where that side is given,
/// and it is the record of that very side; likewise for each key state and each mark of
/// a valid backup. It has no other member.
pub proof fn law_state_record_holds_each_side(
    requester: Option<TracePeerState>,
    responder: Option<TracePeerState>,
    req_key_state: Option<TraceKeyState>,
    rsp_key_state: Option<TraceKeyState>,
    req_backup_valid: Option<bool>,
    rsp_backup_valid: Option<bool>,
    key: Seq<char>,
)
    ensures
        ({
            let record = state_tree(
                requester,
                responder,
                req_key_state,
                rsp_key_state,
                req_backup_valid,
                rsp_backup_valid,
            );
            &&& record is Object
            &&& requester matches Some(peer) ==> has_exactly(
                record,
                "requester"@,
                Some(peer_tree(peer)),
            )
            &&& requester is None ==> has_exactly(record, "requester"@, None)
            &&& responder matches Some(peer) ==> has_exactly(
                record,
                "responder"@,
                Some(peer_tree(peer)),
            )
            &&& responder is None ==> has_exactly(record, "responder"@, None)
            &&& req_key_state matches Some(state) ==> has_exactly(
                record,
                "reqKeyState"@,
                Some(JsonTree::Text(key_state_text(state)@)),
            )
            &&& req_key_state is None ==> has_exactly(record, "reqKeyState"@, None)
            &&& rsp_key_state matches Some(state) ==> has_exactly(
                record,
                "rspKeyState"@,
                Some(JsonTree::Text(key_state_text(state)@)),
            )
            &&& rsp_key_state is None ==> has_exactly(record, "rspKeyState"@, None)
            &&& req_backup_valid matches Some(valid) ==> has_exactly(
                record,
                "reqBackupValid"@,
                Some(JsonTree::Bool(valid)),
            )
            &&& req_backup_valid is None ==> has_exactly(record, "reqBackupValid"@, None)
            &&& rsp_backup_valid matches Some(valid) ==> has_exactly(
                record,
                "rspBackupValid"@,
                Some(JsonTree::Bool(valid)),
            )
            &&& rsp_backup_valid is None ==> has_exactly(record, "rspBackupValid"@, None)
            &&& record->Object_0.contains_key(key) ==> key == "requester"@ || key == "responder"@
                || key == "reqKeyState"@ || key == "rspKeyState"@ || key == "reqBackupValid"@
                || key == "rspBackupValid"@
        }),
{
    lemma_state_keys_differ();
}

/// The record of an event holds its tag, its time and the event, and nothing else; and
/// there the name, the side, the state and the message, and nothing else.
pub proof fn law_event_record_has_its_members(ts: nat, event: TraceEventView, key: Seq<char>)
    ensures
        ({
            let record = event_record(ts, event);
            let reported = record->Object_0["event"@];
            &&& has_exactly(record, "tag"@, Some(JsonTree::Text("trace"@)))
            &&& has_exactly(record, "ts"@, Some(JsonTree::Number(ts)))
            &&& has_exactly(record, "event"@, Some(reported))
            &&& record->Object_0.contains_key(key) ==> key == "tag"@ || key == "ts"@ || key
                == "event"@
            &&& has_exactly(reported, "name"@, Some(JsonTree::Text(event.name@)))
            &&& has_exactly(reported, "nid"@, Some(JsonTree::Text(event.nid@)))
            &&& has_exactly(reported, "msg"@, Some(msg_tree(event.msg)))
            &&& has_exactly(reported, "state"@, Some(reported->Object_0["state"@]))
            &&& reported->Object_0.contains_key(key) ==> key == "name"@ || key == "nid"@ || key
                == "state"@ || key == "msg"@
        }),
{
    lemma_event_keys_differ();
}

proof fn lemma_event_keys_differ()
    ensures
        "tag"@ != "ts"@,
        "tag"@ != "event"@,
        "ts"@ != "event"@,
        "name"@ != "nid"@,
        "name"@ != "state"@,
        "name"@ != "msg"@,
        "nid"@ != "state"@,
        "nid"@ != "msg"@,
        "state"@ != "msg"@,
        "tag"@ != "config"@,
        "ts"@ != "config"@,
        "servers"@ != "handshakeInClear"@,
{
    reveal_strlit("tag");
    reveal_strlit("ts");
    reveal_strlit("event");
    reveal_strlit("name");
    reveal_strlit("nid");
    reveal_strlit("state");
    reveal_strlit("msg");
    reveal_strlit("config");
    reveal_strlit("servers");
    reveal_strlit("handshakeInClear");
    assert("tag"@.len() == 3 && "ts"@.len() == 2 && "event"@.len() == 5 && "config"@.len() == 6);
    assert("name"@.len() == 4 && "nid"@.len() == 3 && "state"@.len() == 5 && "msg"@.len() == 3);
    assert("nid"@[0] == 'n' && "msg"@[0] == 'm');
    assert("servers"@.len() == 7 && "handshakeInClear"@.len() == 16);
}

/// The state in the record of an event has a member for the requester exactly where the
/// event reports the requester, and one for the responder exactly where it reports the
/// responder; each is the record of that very side. The two marks of a valid backup are
/// those that the event holds, and there exactly where it holds them. There are no key
/// states, and no other members.
pub proof fn law_event_record_reports_each_side(ts: nat, event: TraceEventView, key: Seq<char>)
    ensures
        ({
            let record = event_record(ts, event);
            let state = record->Object_0["event"@]->Object_0["state"@];
            &&& event.state.requester matches Some(peer) ==> has_exactly(
                state,
                "requester"@,
                Some(peer_tree(peer)),
            )
            &&& event.state.requester is None ==> has_exactly(state, "requester"@, None)
            &&& event.state.responder matches Some(peer) ==> has_exactly(
                state,
                "responder"@,
                Some(peer_tree(peer)),
            )
            &&& event.state.responder is None ==> has_exactly(state, "responder"@, None)
            &&& event.state.req_backup_valid matches Some(valid) ==> has_exactly(
                state,
                "reqBackupValid"@,
                Some(JsonTree::Bool(valid)),
            )
            &&& event.state.req_backup_valid is None ==> has_exactly(
                state,
                "reqBackupValid"@,
                None,
            )
            &&& event.state.rsp_backup_valid matches Some(valid) ==> has_exactly(
                state,
                "rspBackupValid"@,
                Some(JsonTree::Bool(valid)),
            )
            &&& event.state.rsp_backup_valid is None ==> has_exactly(
                state,
                "rspBackupValid"@,
                None,
            )
            &&& has_exactly(state, "reqKeyState"@, None)
            &&& has_exactly(state, "rspKeyState"@, None)
            &&& state->Object_0.contains_key(key) ==> key == "requester"@ || key == "responder"@
                || key == "reqBackupValid"@ || key == "rspBackupValid"@
        }),
{
    lemma_event_keys_differ();
    lemma_state_keys_differ();
}

/// Two events that report the same sides and marks have the same state in their records,
/// whatever else they report and whenever they are recorded; and two events whose records
/// have the same state report a side in the same cases.
pub proof fn law_state_in_the_record_is_that_of_the_event(
    ts: nat,
    other_ts: nat,
    one: TraceEventView,
    other: TraceEventView,
)
    ensures
        ({
            let first = event_record(ts, one)->Object_0["event"@]->Object_0["state"@];
            let second = event_record(other_ts, other)->Object_0["event"@]->Object_0["state"@];
            &&& one.state.requester == other.state.requester && one.state.responder
                == other.state.responder && one.state.req_backup_valid
                == other.state.req_backup_valid && one.state.rsp_backup_valid
                == other.state.rsp_backup_valid ==> first == second
            &&& first == second ==> {
                &&& one.state.requester is Some == other.state.requester is Some
                &&& one.state.responder is Some == other.state.responder is Some
                &&& one.state.req_backup_valid == other.state.req_backup_valid
                &&& one.state.rsp_backup_valid == other.state.rsp_backup_valid
            }
        }),
{
    law_event_record_reports_each_side(ts, one, "requester"@);
    law_event_record_reports_each_side(other_ts, other, "requester"@);
    lemma_event_keys_differ();
}

proof fn lemma_peer_keys_differ()
    ensures
        "connectionState"@ != "sessionState"@,
        "connectionState"@ != "transcriptPhase"@,
        "sessionState"@ != "transcriptPhase"@,
{
    reveal_strlit("connectionState");
    reveal_strlit("sessionState");
    reveal_strlit("transcriptPhase");
    assert("connectionState"@.len() == 15 && "sessionState"@.len() == 12);
    assert("transcriptPhase"@.len() == 15);
    assert("connectionState"@[0] == 'c' && "transcriptPhase"@[0] == 't');
}

/// The record of a side holds what is known of it, each under its own key by its name,
/// and nothing else.
pub proof fn law_peer_record_names_what_is_known(peer: TracePeerState, key: Seq<char>)
    ensures
        ({
            let record = peer_tree(peer);
            &&& record is Object
            &&& peer.connection_state matches Some(state) ==> has_exactly(
                record,
                "connectionState"@,
                Some(JsonTree::Text(connection_text(state)@)),
            )
            &&& peer.connection_state is None ==> has_exactly(record, "connectionState"@, None)
            &&& peer.session_state matches Some(state) ==> has_exactly(
                record,
                "sessionState"@,
                Some(JsonTree::Text(session_text(state)@)),
            )
            &&& peer.session_state is None ==> has_exactly(record, "sessionState"@, None)
            &&& peer.transcript_phase matches Some(phase) ==> has_exactly(
                record,
                "transcriptPhase"@,
                Some(JsonTree::Text(transcript_text(phase)@)),
            )
            &&& peer.transcript_phase is None ==> has_exactly(record, "transcriptPhase"@, None)
            &&& record->Object_0.contains_key(key) ==> key == "connectionState"@ || key
                == "sessionState"@ || key == "transcriptPhase"@
        }),
{
    lemma_peer_keys_differ();
}

proof fn lemma_message_keys_differ()
    ensures
        "version"@ != "slot"@,
        "version"@ != "op"@,
        "version"@ != "slotMask"@,
        "version"@ != "error"@,
        "slot"@ != "op"@,
        "slot"@ != "slotMask"@,
        "slot"@ != "error"@,
        "op"@ != "slotMask"@,
        "op"@ != "error"@,
        "slotMask"@ != "error"@,
{
    reveal_strlit("version");
    reveal_strlit("slot");
    reveal_strlit("op");
    reveal_strlit("slotMask");
    reveal_strlit("error");
    assert("version"@.len() == 7 && "slot"@.len() == 4 && "op"@.len() == 2);
    assert("slotMask"@.len() == 8 && "error"@.len() == 5);
}

/// The record of a message holds its version as a number, its slot, its operation and its
/// error by their names, and its mask as the list of its slots, each exactly where the
/// message has it, and nothing else.
pub proof fn law_message_record_names_its_parts(msg: TraceMessage, key: Seq<char>)
    ensures
        ({
            let record = msg_tree(msg);
            &&& record is Object
            &&& msg.version matches Some(version) ==> has_exactly(
                record,
                "version"@,
                Some(JsonTree::Number(version as nat)),
            )
            &&& msg.version is None ==> has_exactly(record, "version"@, None)
            &&& msg.slot matches Some(slot) ==> has_exactly(
                record,
                "slot"@,
                Some(JsonTree::Text(slot_text(slot))),
            )
            &&& msg.slot is None ==> has_exactly(record, "slot"@, None)
            &&& msg.op matches Some(TraceKeyUpdateOp::UpdateSingle) ==> has_exactly(
                record,
                "op"@,
                Some(JsonTree::Text("OpUpdateSingle"@)),
            )
            &&& msg.op matches Some(TraceKeyUpdateOp::UpdateAll) ==> has_exactly(
                record,
                "op"@,
                Some(JsonTree::Text("OpUpdateAll"@)),
            )
            &&& msg.op matches Some(TraceKeyUpdateOp::VerifyNewKey) ==> has_exactly(
                record,
                "op"@,
                Some(JsonTree::Text("OpVerifyNewKey"@)),
            )
            &&& msg.op is None ==> has_exactly(record, "op"@, None)
            &&& msg.slot_mask matches Some(mask) ==> has_exactly(
                record,
                "slotMask"@,
                Some(JsonTree::List(slot_mask_texts(mask))),
            )
            &&& msg.slot_mask is None ==> has_exactly(record, "slotMask"@, None)
            &&& msg.error matches Some(TraceErrorKind::Unexpected) ==> has_exactly(
                record,
                "error"@,
                Some(JsonTree::Text("ErrUnexpected"@)),
            )
            &&& msg.error matches Some(TraceErrorKind::Unsupported) ==> has_exactly(
                record,
                "error"@,
                Some(JsonTree::Text("ErrUnsupported"@)),
            )
            &&& msg.error matches Some(TraceErrorKind::Invalid) ==> has_exactly(
                record,
                "error"@,
                Some(JsonTree::Text("ErrInvalid"@)),
            )
            &&& msg.error is None ==> has_exactly(record, "error"@, None)
            &&& record->Object_0.contains_key(key) ==> key == "version"@ || key == "slot"@ || key
                == "op"@ || key == "slotMask"@ || key == "error"@
        }),
{
    lemma_message_keys_differ();
}

/// The record that a trace starts with holds its tag, its time, the two sides in their
/// order, and that the handshake is not in the clear; and nothing else.
pub proof fn law_first_record_names_both_sides(ts: nat, key: Seq<char>)
    ensures
        ({
            let record = config_tree(ts);
            let config = record->Object_0["config"@];
            let servers = config->Object_0["servers"@];
            &&& has_exactly(record, "tag"@, Some(JsonTree::Text("config"@)))
            &&& has_exactly(record, "ts"@, Some(JsonTree::Number(ts)))
            &&& has_exactly(record, "config"@, Some(config))
            &&& record->Object_0.contains_key(key) ==> key == "tag"@ || key == "ts"@ || key
                == "config"@
            &&& has_exactly(config, "servers"@, Some(servers))
            &&& servers is List && servers->List_0.len() == 2
            &&& servers->List_0[0] == "requester"@ && servers->List_0[1] == "responder"@
            &&& has_exactly(config, "handshakeInClear"@, Some(JsonTree::Bool(false)))
            &&& config->Object_0.contains_key(key) ==> key == "servers"@ || key
                == "handshakeInClear"@
        }),
{
    lemma_event_keys_differ();
}

/// Each state, phase, key state and error has its own name in a record; a state without
/// one goes by the name of what has not started.
pub proof fn law_records_name_states(
    connection: SpdmConnectionState,
    session: SpdmSessionState,
    phase: TraceTranscriptPhase,
    state: TraceKeyState,
    error: TraceErrorKind,
)
    ensures
        ({
            let text = connection_text(connection);
            &&& connection is SpdmConnectionAfterVersion ==> text == "ConnAfterVersion"
            &&& connection is SpdmConnectionNegotiated ==> text == "ConnNegotiated"
            &&& connection is SpdmConnectionAfterCertificate ==> text == "ConnAfterCertificate"
            &&& connection is SpdmConnectionAuthenticated ==> text == "ConnAuthenticated"
            &&& !(connection is SpdmConnectionAfterVersion || connection is SpdmConnectionNegotiated
                || connection is SpdmConnectionAfterCertificate
                || connection is SpdmConnectionAuthenticated) ==> text == "ConnNotStarted"
        }),
        ({
            let text = session_text(session);
            &&& session is SpdmSessionHandshaking ==> text == "SessHandshaking"
            &&& session is SpdmSessionEstablished ==> text == "SessEstablished"
            &&& !(session is SpdmSessionHandshaking || session is SpdmSessionEstablished) ==> text
                == "SessNotStarted"
        }),
        ({
            let text = transcript_text(phase);
            &&& phase is Empty ==> text == "TranscriptEmpty"
            &&& phase is A ==> text == "TranscriptA"
            &&& phase is B ==> text == "TranscriptB"
            &&& phase is C ==> text == "TranscriptC"
            &&& phase is K ==> text == "TranscriptK"
            &&& phase is Established ==> text == "TranscriptEstablished"
        }),
        state is Old ==> key_state_text(state) == "KeyOld",
        state is New ==> key_state_text(state) == "KeyNew",
        error is Unexpected ==> error_text(error) == "ErrUnexpected",
        error is Unsupported ==> error_text(error) == "ErrUnsupported",
        error is Invalid ==> error_text(error) == "ErrInvalid",
{
}

/// The number that a text of digits stands for.
pub open spec fn digits_value(text: Seq<char>) -> nat
    decreases text.len(),
{
    if text.len() == 0 {
        0
    } else {
        (10 * digits_value(text.drop_last()) + (text.last() as u32 - '0' as u32)) as nat
    }
}

/// The name of a slot is `slot` and its number in decimal digits, without a zero in
/// front of another digit.
pub proof fn law_slot_name_is_its_number(slot: u8)
    ensures
        ({
            let text = slot_text(slot);
            let digits = text.skip(4);
            &&& text.len() >= 5
            &&& text.take(4) == "slot"@
            &&& digits_value(digits) == slot
            &&& forall|i: int| 0 <= i < digits.len() ==> '0' <= #[trigger] digits[i] <= '9'
            &&& digits.len() > 1 ==> digits[0] != '0'
        }),
{
    reveal_strlit("slot");
    assert("slot"@.len() == 4);
    let text = slot_text(slot);
    assert(text.take(4) =~= "slot"@);
    assert(text.skip(4) =~= decimal_text(slot as nat));
    lemma_decimal_text(slot as nat);
}

proof fn lemma_decimal_text(number: nat)
    requires
        number < 1000,
    ensures
        digits_value(decimal_text(number)) == number,
        decimal_text(number).len() >= 1,
        forall|i: int|
            0 <= i < decimal_text(number).len() ==> '0' <= #[trigger] decimal_text(number)[i]
                <= '9',
        number > 0 ==> decimal_text(number)[0] != '0',
        number == 0 ==> decimal_text(number).len() == 1,
        number < 10 ==> decimal_text(number).len() == 1,
    decreases number,
{
    reveal_with_fuel(digits_value, 2);
    let text = decimal_text(number);
    if number < 10 {
        assert(text.drop_last() =~= Seq::<char>::empty());
        assert(text.last() == digit_char(number));
    } else {
        let front = decimal_text(number / 10);
        lemma_decimal_text(number / 10);
        assert(text.drop_last() =~= front);
        assert(text.last() == digit_char(number % 10));
        assert(text[0] == front[0]);
    }
}

/// The list of a mask names each of its slots once, in rising order: the slot of every
/// bit that is set, and no other.
pub proof fn law_mask_names_are_its_slots(mask: u8, slot: u8)
    requires
        slot < 8,
    ensures
        ({
            let texts = slot_mask_texts(mask);
            let slots = slots_from(mask, 0);
            &&& texts.len() == slots.len()
            &&& forall|i: int|
                0 <= i < texts.len() ==> #[trigger] texts[i] == slot_text(slots[i]) && slots[i] < 8
            &&& slots.contains(slot) == (mask & (1u8 << slot) != 0)
            &&& forall|i: int, j: int|
                0 <= i < j < slots.len() ==> (#[trigger] slots[i]) < (#[trigger] slots[j])
        }),
{
    law_mask_slots_are_its_bits(mask, 0);
    let slots = slots_from(mask, 0);
    assert forall|i: int| 0 <= i < slots.len() implies #[trigger] slots[i] < 8 by {
        assert(slots.contains(slots[i]));
    }
}

/// A member is added where there is a value for it, under its key; every other member
/// stays, and without a value all of them do.
pub proof fn law_member_is_added(
    members: Map<Seq<char>, JsonTree>,
    key: Seq<char>,
    value: Option<JsonTree>,
    other: Seq<char>,
)
    ensures
        no_members().dom() == Set::<Seq<char>>::empty(),
        value is None ==> with_member(members, key, value) == members,
        value is Some ==> with_member(members, key, value).contains_key(key) && with_member(
            members,
            key,
            value,
        )[key] == value->0,
        other != key ==> with_member(members, key, value).contains_key(other)
            == members.contains_key(other) && (members.contains_key(other) ==> with_member(
            members,
            key,
            value,
        )[other] == members[other]),
        members_of(JsonTree::Object(members)) == members,
{
}

/// A name is a text with its characters.
pub proof fn law_name_is_its_text(name: &'static str)
    ensures
        text_tree(name) == JsonTree::Text(name@),
{
}

/// A side that is set up for key updates agrees on SHA-384 and has the one established
/// session; all else in it stays.
pub proof fn law_set_up_changes_hash_and_sessions(
    context: ContextView,
    session_id: u32,
    derived: DerivedView,
)
    ensures
        ({
            let after = established(context, session_id, derived);
            &&& after.negotiated.base_hash_sel.bits == 2
            &&& after.sessions == established_slots(session_id, derived)
            &&& after.config == context.config
            &&& after.connection_state == context.connection_state
            &&& after.last_session_id == context.last_session_id
            &&& after.message_a == context.message_a
            &&& after.message_a_limit == context.message_a_limit
            &&& after.resets == context.resets
            &&& after.negotiated.spdm_version_sel == context.negotiated.spdm_version_sel
            &&& after.negotiated.req_ct_exponent_sel == context.negotiated.req_ct_exponent_sel
            &&& after.negotiated.req_capabilities_sel == context.negotiated.req_capabilities_sel
            &&& after.negotiated.rsp_ct_exponent_sel == context.negotiated.rsp_ct_exponent_sel
            &&& after.negotiated.rsp_capabilities_sel == context.negotiated.rsp_capabilities_sel
            &&& after.negotiated.req_data_transfer_size_sel
                == context.negotiated.req_data_transfer_size_sel
            &&& after.negotiated.req_max_spdm_msg_size_sel
                == context.negotiated.req_max_spdm_msg_size_sel
            &&& after.negotiated.rsp_data_transfer_size_sel
                == context.negotiated.rsp_data_transfer_size_sel
            &&& after.negotiated.rsp_max_spdm_msg_size_sel
                == context.negotiated.rsp_max_spdm_msg_size_sel
        }),
{
}

/// A trace starts with its callback, with all forgotten that was noted and seen, and
/// with the events queued before still bound to their callbacks.
pub proof fn law_started_trace_has_seen_nothing<C>(
    runtime: TraceRuntimeView<C>,
    callback: C,
)
    ensures
        ({
            let after = trace_started(runtime, callback);
            &&& after.callback == Some(callback)
            &&& after.pending.len() == runtime.pending.len()
            &&& forall|i: int|
                0 <= i < runtime.pending.len() ==> (#[trigger] after.pending[i]).event
                    == runtime.pending[i].event && after.pending[i].callback
                    == runtime.pending[i].callback && !after.pending[i].follows
            &&& after.requester_connection is SpdmConnectionNotStarted
            &&& after.requester_transcript is Empty && after.responder_transcript is Empty
            &&& after.key_gens.rq_req == 0 && after.key_gens.rq_resp == 0
            &&& after.key_gens.rs_req == 0 && after.key_gens.rs_resp == 0
            &&& after.requester_last.connection_state is None
            &&& after.requester_last.session_state is None
            &&& after.requester_last.transcript_phase is None
            &&& after.responder_last.connection_state is None
            &&& after.responder_last.session_state is None
            &&& after.responder_last.transcript_phase is None
        }),
{
}

} // verus!
