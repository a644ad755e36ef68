//! The records of a trace: each event as a JSON object.

use vstd::prelude::*;

use crate::common::{
    session_views, ContextView, SpdmConnectionState, SpdmContext, SpdmNegotiateInfo,
};
use crate::json::{
    json_bool, json_list, json_number, json_object, json_text, json_tree, no_members, put_member,
    text_views, with_member, JsonTree,
};
use crate::protocol::{
    SpdmAeadAlgo, SpdmBaseHashAlgo, SpdmDheAlgo, SpdmKemAlgo, SpdmKeyScheduleAlgo,
};
use crate::session::{
    fresh_session, no_secrets, DataSecretView, DerivedSecrets, DerivedView, SessionView,
    SpdmSession, SpdmSessionCryptoParam, SpdmSessionState,
};
use crate::spdm_trace::{
    bound, fresh_runtime, key_update_op_name, operation_text, register_callback,
    reset_shadow_state, TraceErrorKind, TraceEvent, TraceEventView, TraceMessage, TracePeerState,
    TraceRuntime, TraceRuntimeView, TraceTranscriptPhase,
};

verus! {

/// Whether a key is the one from before an update or the one from after it.
#[derive(Clone, Copy, Debug, PartialEq, Eq, Structural)]
pub enum TraceKeyState {
    Old,
    New,
}

/// The name of a connection state in a record. States without a name of their own
/// go by that of a connection that has not started.
pub open spec fn connection_text(state: SpdmConnectionState) -> &'static str {
    match state {
        SpdmConnectionState::SpdmConnectionAfterVersion => "ConnAfterVersion",
        SpdmConnectionState::SpdmConnectionNegotiated => "ConnNegotiated",
        SpdmConnectionState::SpdmConnectionAfterCertificate => "ConnAfterCertificate",
        SpdmConnectionState::SpdmConnectionAuthenticated => "ConnAuthenticated",
        _ => "ConnNotStarted",
    }
}

/// The name of a connection state in a record.
pub fn connection_state_name(state: SpdmConnectionState) -> (name: &'static str)
    ensures
        name == connection_text(state),
{
    match state {
        SpdmConnectionState::SpdmConnectionNotStarted => "ConnNotStarted",
        SpdmConnectionState::SpdmConnectionAfterVersion => "ConnAfterVersion",
        SpdmConnectionState::SpdmConnectionNegotiated => "ConnNegotiated",
        SpdmConnectionState::SpdmConnectionAfterCertificate => "ConnAfterCertificate",
        SpdmConnectionState::SpdmConnectionAuthenticated => "ConnAuthenticated",
        _ => "ConnNotStarted",
    }
}

/// The name of a session state in a record. A state that is not known goes by that
/// of a session that has not started.
pub open spec fn session_text(state: SpdmSessionState) -> &'static str {
    match state {
        SpdmSessionState::SpdmSessionHandshaking => "SessHandshaking",
        SpdmSessionState::SpdmSessionEstablished => "SessEstablished",
        _ => "SessNotStarted",
    }
}

/// The name of a session state in a record.
pub fn session_state_name(state: SpdmSessionState) -> (name: &'static str)
    ensures
        name == session_text(state),
{
    match state {
        SpdmSessionState::SpdmSessionNotStarted => "SessNotStarted",
        SpdmSessionState::SpdmSessionHandshaking => "SessHandshaking",
        SpdmSessionState::SpdmSessionEstablished => "SessEstablished",
        _ => "SessNotStarted",
    }
}

/// The name of a transcript phase in a record.
pub open spec fn transcript_text(phase: TraceTranscriptPhase) -> &'static str {
    match phase {
        TraceTranscriptPhase::Empty => "TranscriptEmpty",
        TraceTranscriptPhase::A => "TranscriptA",
        TraceTranscriptPhase::B => "TranscriptB",
        TraceTranscriptPhase::C => "TranscriptC",
        TraceTranscriptPhase::K => "TranscriptK",
        TraceTranscriptPhase::Established => "TranscriptEstablished",
    }
}

/// The name of a transcript phase in a record.
pub fn transcript_phase_name(phase: TraceTranscriptPhase) -> (name: &'static str)
    ensures
        name == transcript_text(phase),
{
    match phase {
        TraceTranscriptPhase::Empty => "TranscriptEmpty",
        TraceTranscriptPhase::A => "TranscriptA",
        TraceTranscriptPhase::B => "TranscriptB",
        TraceTranscriptPhase::C => "TranscriptC",
        TraceTranscriptPhase::K => "TranscriptK",
        TraceTranscriptPhase::Established => "TranscriptEstablished",
    }
}

/// The name of a key state in a record.
pub open spec fn key_state_text(state: TraceKeyState) -> &'static str {
    match state {
        TraceKeyState::Old => "KeyOld",
        TraceKeyState::New => "KeyNew",
    }
}

/// The name of a key state in a record.
pub fn key_state_name(state: TraceKeyState) -> (name: &'static str)
    ensures
        name == key_state_text(state),
{
    match state {
        TraceKeyState::Old => "KeyOld",
        TraceKeyState::New => "KeyNew",
    }
}

/// The name of an error in a record.
pub open spec fn error_text(error: TraceErrorKind) -> &'static str {
    match error {
        TraceErrorKind::Unexpected => "ErrUnexpected",
        TraceErrorKind::Unsupported => "ErrUnsupported",
        TraceErrorKind::Invalid => "ErrInvalid",
    }
}

/// The name of an error in a record.
pub fn error_name(error: TraceErrorKind) -> (name: &'static str)
    ensures
        name == error_text(error),
{
    match error {
        TraceErrorKind::Unexpected => "ErrUnexpected",
        TraceErrorKind::Unsupported => "ErrUnsupported",
        TraceErrorKind::Invalid => "ErrInvalid",
    }
}

/// The decimal digits of a number.
pub open spec fn decimal_text(number: nat) -> Seq<char>
    decreases number,
{
    if number < 10 {
        seq![digit_char(number)]
    } else {
        decimal_text(number / 10).push(digit_char(number % 10))
    }
}

/// The character of a digit.
pub open spec fn digit_char(digit: nat) -> char {
    (('0' as u32) + digit) as char
}

/// The text of a digit.
fn digit_text(digit: u8) -> (text: &'static str)
    requires
        digit < 10,
    ensures
        text@ == seq![digit_char(digit as nat)],
{
    proof {
        reveal_strlit("0");
        reveal_strlit("1");
        reveal_strlit("2");
        reveal_strlit("3");
        reveal_strlit("4");
        reveal_strlit("5");
        reveal_strlit("6");
        reveal_strlit("7");
        reveal_strlit("8");
        reveal_strlit("9");
    }
    let text = match digit {
        0 => "0",
        1 => "1",
        2 => "2",
        3 => "3",
        4 => "4",
        5 => "5",
        6 => "6",
        7 => "7",
        8 => "8",
        _ => "9",
    };
    assert(text@ =~= seq![digit_char(digit as nat)]);
    text
}

/// The name of a slot.
pub open spec fn slot_text(slot: u8) -> Seq<char> {
    "slot"@ + decimal_text(slot as nat)
}

/// The name of a slot.
pub fn slot_name(slot: u8) -> (name: String)
    ensures
        name@ == slot_text(slot),
{
    let mut name: String = "slot".to_owned();
    let ghost start = name@;
    proof {
        reveal_with_fuel(decimal_text, 3);
    }
    if slot >= 100 {
        name.append(digit_text(slot / 100));
    }
    if slot >= 10 {
        name.append(digit_text((slot / 10) % 10));
    }
    name.append(digit_text(slot % 10));
    assert(name@ =~= start + decimal_text(slot as nat));
    name
}

/// The slots of a mask from `start` on, the lowest first.
pub open spec fn slots_from(mask: u8, start: u8) -> Seq<u8>
    decreases 8 - start,
{
    if start >= 8 {
        Seq::empty()
    } else if mask & (1u8 << start) != 0 {
        seq![start] + slots_from(mask, (start + 1) as u8)
    } else {
        slots_from(mask, (start + 1) as u8)
    }
}

/// The names of the slots of a mask, the lowest first.
pub open spec fn slot_mask_texts(mask: u8) -> Seq<Seq<char>> {
    slots_from(mask, 0).map_values(|slot: u8| slot_text(slot))
}

/// The names of the slots of a mask, the lowest first.
pub fn slot_mask_names(mask: u8) -> (names: Vec<String>)
    ensures
        text_views(names@) == slot_mask_texts(mask),
{
    let mut names: Vec<String> = Vec::new();
    let mut slot: u8 = 0;
    let ghost texts = slot_mask_texts(mask);
    let ghost name_of = |slot: u8| slot_text(slot);
    assert(texts =~= text_views(names@) + slots_from(mask, 0).map_values(name_of));
    while slot < 8
        invariant
            slot <= 8,
            name_of == (|slot: u8| slot_text(slot)),
            texts == slot_mask_texts(mask),
            texts == text_views(names@) + slots_from(mask, slot).map_values(name_of),
        decreases 8 - slot,
    {
        let ghost before = names@;
        if mask & (1u8 << slot) != 0 {
            names.push(slot_name(slot));
            assert(text_views(names@) =~= text_views(before).push(slot_text(slot)));
            assert(slots_from(mask, slot).map_values(name_of) =~= seq![slot_text(slot)]
                + slots_from(mask, (slot + 1) as u8).map_values(name_of));
        }
        slot = slot + 1;
        assert(texts =~= text_views(names@) + slots_from(mask, slot).map_values(name_of));
    }
    assert(texts =~= text_views(names@));
    names
}

/// A name as a JSON value.
pub open spec fn text_tree(name: &'static str) -> JsonTree {
    JsonTree::Text(name@)
}

/// The record of a side: a member for each thing that is known of it.
pub open spec fn peer_tree(peer: TracePeerState) -> JsonTree {
    let connection = match peer.connection_state {
        Some(state) => Some(text_tree(connection_text(state))),
        None => None,
    };
    let session = match peer.session_state {
        Some(state) => Some(text_tree(session_text(state))),
        None => None,
    };
    let transcript = match peer.transcript_phase {
        Some(phase) => Some(text_tree(transcript_text(phase))),
        None => None,
    };
    JsonTree::Object(
        with_member(
            with_member(
                with_member(no_members(), "connectionState"@, connection),
                "sessionState"@,
                session,
            ),
            "transcriptPhase"@,
            transcript,
        ),
    )
}

/// The record of a side.
pub fn peer_json(peer: TracePeerState) -> (json: serde_json::Value)
    ensures
        json_tree(json) == peer_tree(peer),
{
    let mut members = serde_json::Map::<String, serde_json::Value>::new();
    if let Some(state) = peer.connection_state {
        put_member(&mut members, "connectionState", json_text(connection_state_name(state)));
    }
    if let Some(state) = peer.session_state {
        put_member(&mut members, "sessionState", json_text(session_state_name(state)));
    }
    if let Some(phase) = peer.transcript_phase {
        put_member(&mut members, "transcriptPhase", json_text(transcript_phase_name(phase)));
    }
    json_object(members)
}

/// The record of a message: a member for each part that an event reports, except
/// for the marks of what went well.
pub open spec fn msg_tree(msg: TraceMessage) -> JsonTree {
    let version = match msg.version {
        Some(version) => Some(JsonTree::Number(version as nat)),
        None => None,
    };
    let slot = match msg.slot {
        Some(slot) => Some(JsonTree::Text(slot_text(slot))),
        None => None,
    };
    let op = match msg.op {
        Some(op) => Some(text_tree(operation_text(op))),
        None => None,
    };
    let slot_mask = match msg.slot_mask {
        Some(mask) => Some(JsonTree::List(slot_mask_texts(mask))),
        None => None,
    };
    let error = match msg.error {
        Some(error) => Some(text_tree(error_text(error))),
        None => None,
    };
    JsonTree::Object(
        with_member(
            with_member(
                with_member(
                    with_member(
                        with_member(no_members(), "version"@, version),
                        "slot"@,
                        slot,
                    ),
                    "op"@,
                    op,
                ),
                "slotMask"@,
                slot_mask,
            ),
            "error"@,
            error,
        ),
    )
}

/// The record of a message.
pub fn msg_json(msg: &TraceMessage) -> (json: serde_json::Value)
    ensures
        json_tree(json) == msg_tree(*msg),
{
    let mut members = serde_json::Map::<String, serde_json::Value>::new();
    if let Some(version) = msg.version {
        put_member(&mut members, "version", json_number(version as u64));
    }
    if let Some(slot) = msg.slot {
        put_member(&mut members, "slot", json_text(slot_name(slot).as_str()));
    }
    if let Some(op) = msg.op {
        put_member(&mut members, "op", json_text(key_update_op_name(op)));
    }
    if let Some(mask) = msg.slot_mask {
        put_member(&mut members, "slotMask", json_list(slot_mask_names(mask)));
    }
    if let Some(error) = msg.error {
        put_member(&mut members, "error", json_text(error_name(error)));
    }
    json_object(members)
}

/// The record of a state: a member for each side that an event reports, for each
/// key state that is known, and for each mark of a valid backup.
pub open spec fn state_tree(
    requester: Option<TracePeerState>,
    responder: Option<TracePeerState>,
    req_key_state: Option<TraceKeyState>,
    rsp_key_state: Option<TraceKeyState>,
    req_backup_valid: Option<bool>,
    rsp_backup_valid: Option<bool>,
) -> JsonTree {
    let requester_tree = match requester {
        Some(peer) => Some(peer_tree(peer)),
        None => None,
    };
    let responder_tree = match responder {
        Some(peer) => Some(peer_tree(peer)),
        None => None,
    };
    let req_key = match req_key_state {
        Some(state) => Some(text_tree(key_state_text(state))),
        None => None,
    };
    let rsp_key = match rsp_key_state {
        Some(state) => Some(text_tree(key_state_text(state))),
        None => None,
    };
    let req_backup = match req_backup_valid {
        Some(valid) => Some(JsonTree::Bool(valid)),
        None => None,
    };
    let rsp_backup = match rsp_backup_valid {
        Some(valid) => Some(JsonTree::Bool(valid)),
        None => None,
    };
    JsonTree::Object(
        with_member(
            with_member(
                with_member(
                    with_member(
                        with_member(
                            with_member(no_members(), "requester"@, requester_tree),
                            "responder"@,
                            responder_tree,
                        ),
                        "reqKeyState"@,
                        req_key,
                    ),
                    "rspKeyState"@,
                    rsp_key,
                ),
                "reqBackupValid"@,
                req_backup,
            ),
            "rspBackupValid"@,
            rsp_backup,
        ),
    )
}

/// The record of a state. An event carries no key states, so they are given
/// beside it.
pub fn state_json(
    requester: &Option<TracePeerState>,
    responder: &Option<TracePeerState>,
    event: &TraceEvent,
    req_key_state: Option<TraceKeyState>,
    rsp_key_state: Option<TraceKeyState>,
) -> (json: serde_json::Value)
    ensures
        json_tree(json) == state_tree(
            *requester,
            *responder,
            req_key_state,
            rsp_key_state,
            event.state.req_backup_valid,
            event.state.rsp_backup_valid,
        ),
{
    let mut members = serde_json::Map::<String, serde_json::Value>::new();
    if let Some(peer) = requester {
        put_member(&mut members, "requester", peer_json(*peer));
    }
    if let Some(peer) = responder {
        put_member(&mut members, "responder", peer_json(*peer));
    }
    if let Some(state) = req_key_state {
        put_member(&mut members, "reqKeyState", json_text(key_state_name(state)));
    }
    if let Some(state) = rsp_key_state {
        put_member(&mut members, "rspKeyState", json_text(key_state_name(state)));
    }
    if let Some(valid) = event.state.req_backup_valid {
        put_member(&mut members, "reqBackupValid", json_bool(valid));
    }
    if let Some(valid) = event.state.rsp_backup_valid {
        put_member(&mut members, "rspBackupValid", json_bool(valid));
    }
    json_object(members)
}

/// The record of an event at a time.
pub open spec fn event_record(ts: nat, event: TraceEventView) -> JsonTree {
    let state = state_tree(
        event.state.requester,
        event.state.responder,
        None,
        None,
        event.state.req_backup_valid,
        event.state.rsp_backup_valid,
    );
    let reported = no_members().insert("name"@, text_tree(event.name)).insert(
        "nid"@,
        text_tree(event.nid),
    ).insert("state"@, state).insert("msg"@, msg_tree(event.msg));
    JsonTree::Object(
        no_members().insert("tag"@, text_tree("trace")).insert("ts"@, JsonTree::Number(ts)).insert(
            "event"@,
            JsonTree::Object(reported),
        ),
    )
}

/// The record of an event at a time.
pub fn trace_record(ts: u64, event: &TraceEvent) -> (json: serde_json::Value)
    ensures
        json_tree(json) == event_record(ts as nat, event@),
{
    let state = state_json(&event.state.requester, &event.state.responder, event, None, None);
    let mut reported = serde_json::Map::<String, serde_json::Value>::new();
    put_member(&mut reported, "name", json_text(event.name));
    put_member(&mut reported, "nid", json_text(event.nid));
    put_member(&mut reported, "state", state);
    put_member(&mut reported, "msg", msg_json(&event.msg));
    let mut members = serde_json::Map::<String, serde_json::Value>::new();
    put_member(&mut members, "tag", json_text("trace"));
    put_member(&mut members, "ts", json_number(ts));
    put_member(&mut members, "event", json_object(reported));
    json_object(members)
}

/// The record that a trace starts with.
pub open spec fn config_tree(ts: nat) -> JsonTree {
    let config = no_members().insert(
        "servers"@,
        JsonTree::List(seq!["requester"@, "responder"@]),
    ).insert("handshakeInClear"@, JsonTree::Bool(false));
    JsonTree::Object(
        no_members().insert("tag"@, text_tree("config")).insert("ts"@, JsonTree::Number(ts)).insert(
            "config"@,
            JsonTree::Object(config),
        ),
    )
}

/// The record that a trace starts with: its two sides, and that the handshake is
/// not in the clear.
pub fn config_record(ts: u64) -> (json: serde_json::Value)
    ensures
        json_tree(json) == config_tree(ts as nat),
{
    let mut servers: Vec<String> = Vec::new();
    servers.push("requester".to_owned());
    servers.push("responder".to_owned());
    assert(text_views(servers@) =~= seq!["requester"@, "responder"@]);
    let mut config = serde_json::Map::<String, serde_json::Value>::new();
    put_member(&mut config, "servers", json_list(servers));
    put_member(&mut config, "handshakeInClear", json_bool(false));
    let mut members = serde_json::Map::<String, serde_json::Value>::new();
    put_member(&mut members, "tag", json_text("config"));
    put_member(&mut members, "ts", json_number(ts));
    put_member(&mut members, "config", json_object(config));
    json_object(members)
}

/// A trace at its start, with a callback.
pub open spec fn trace_started<C>(
    runtime: TraceRuntimeView<C>,
    callback: C,
) -> TraceRuntimeView<C> {
    fresh_runtime(Some(callback), bound(runtime.pending))
}

/// Starts a trace: forgets all that was seen, and registers the callback.
pub fn start_trace<C>(runtime: &mut TraceRuntime<C>, callback: C)
    ensures
        final(runtime)@ == trace_started(old(runtime)@, callback),
{
    reset_shadow_state(runtime);
    register_callback(runtime, callback);
}

/// How many slots for sessions a side has.
pub const SESSION_SLOTS: usize = 4;

/// The algorithms of an established session: SHA-384, the 384-bit curve without a
/// key encapsulation, AES with a 256-bit key, and the key schedule of the protocol.
pub open spec fn established_crypto_param() -> SpdmSessionCryptoParam {
    SpdmSessionCryptoParam {
        base_hash_algo: SpdmBaseHashAlgo { bits: SpdmBaseHashAlgo::TPM_ALG_SHA_384 },
        dhe_algo: SpdmDheAlgo { bits: SpdmDheAlgo::SECP_384_R1 },
        kem_algo: SpdmKemAlgo { bits: 0 },
        aead_algo: SpdmAeadAlgo { bits: SpdmAeadAlgo::AES_256_GCM },
        key_schedule_algo: SpdmKeyScheduleAlgo { bits: SpdmKeyScheduleAlgo::SPDM_KEY_SCHEDULE },
    }
}

/// An established session with its algorithms, and with the first data secrets, if
/// both were derived.
pub open spec fn established_session(session_id: u32, derived: DerivedView) -> SessionView {
    SessionView {
        session_id,
        session_state: SpdmSessionState::SpdmSessionEstablished,
        crypto_param: established_crypto_param(),
        secret: if derived.request is Some && derived.response is Some {
            DataSecretView { request: derived.request->0, response: derived.response->0 }
        } else {
            no_secrets()
        },
        ..fresh_session()
    }
}

/// The slots of a side with one established session, in the first of them.
pub open spec fn established_slots(session_id: u32, derived: DerivedView) -> Seq<SessionView> {
    Seq::new(
        SESSION_SLOTS as nat,
        |slot: int|
            if slot == 0 {
                established_session(session_id, derived)
            } else {
                fresh_session()
            },
    )
}

/// A side that is set up for key updates.
pub open spec fn established(
    context: ContextView,
    session_id: u32,
    derived: DerivedView,
) -> ContextView {
    ContextView {
        negotiated: SpdmNegotiateInfo {
            base_hash_sel: SpdmBaseHashAlgo { bits: SpdmBaseHashAlgo::TPM_ALG_SHA_384 },
            ..context.negotiated
        },
        sessions: established_slots(session_id, derived),
        ..context
    }
}

/// Sets one side up for key updates: with SHA-384 as the hash agreed on and an
/// established session in the first of its slots, whether or not its data secrets
/// were derived.
pub fn setup_established_key_update(
    context: &mut SpdmContext,
    session_id: u32,
    derived: DerivedSecrets,
)
    ensures
        final(context)@ == established(old(context)@, session_id, derived@),
{
    let mut session = SpdmSession::new();
    let _ = session.setup(session_id);
    session.set_crypto_param(
        SpdmBaseHashAlgo::from_bits(SpdmBaseHashAlgo::TPM_ALG_SHA_384),
        SpdmDheAlgo { bits: SpdmDheAlgo::SECP_384_R1 },
        SpdmKemAlgo { bits: 0 },
        SpdmAeadAlgo { bits: SpdmAeadAlgo::AES_256_GCM },
        SpdmKeyScheduleAlgo { bits: SpdmKeyScheduleAlgo::SPDM_KEY_SCHEDULE },
    );
    session.set_session_state(SpdmSessionState::SpdmSessionEstablished);
    let _ = session.generate_data_secret(derived);
    let mut slots: Vec<SpdmSession> = Vec::new();
    slots.push(session);
    while slots.len() < SESSION_SLOTS
        invariant
            1 <= slots@.len() <= SESSION_SLOTS,
            session_views(slots@) =~= established_slots(session_id, derived@).take(
                slots@.len() as int,
            ),
        decreases SESSION_SLOTS - slots@.len(),
    {
        slots.push(SpdmSession::new());
    }
    assert(session_views(slots@) =~= established_slots(session_id, derived@));
    context.negotiate_info.base_hash_sel = SpdmBaseHashAlgo::from_bits(
        SpdmBaseHashAlgo::TPM_ALG_SHA_384,
    );
    context.session = slots;
}

/// Two sides that are set up alike find the same established session under its id:
/// with the same state, the same algorithms and the same secrets.
pub proof fn law_sides_set_up_alike_hold_the_same_session(
    first: ContextView,
    second: ContextView,
    session_id: u32,
    derived: DerivedView,
)
    requires
        first.sessions == established_slots(session_id, derived),
        second.sessions == established_slots(session_id, derived),
    ensures
        first.find(session_id) == Some(established_session(session_id, derived)),
        second.find(session_id) == first.find(session_id),
        first.slot(session_id) == Some(0nat),
{
}

/// The slots of a mask are those whose bit is set, each once, in rising order.
pub proof fn law_mask_slots_are_its_bits(mask: u8, start: u8)
    ensures
        forall|slot: u8| #[trigger]
            slots_from(mask, start).contains(slot) == (start <= slot < 8 && mask & (1u8 << slot)
                != 0),
        forall|i: int, j: int|
            0 <= i < j < slots_from(mask, start).len() ==> (#[trigger] slots_from(mask, start)[i])
                < (#[trigger] slots_from(mask, start)[j]),
    decreases 8 - start,
{
    if start < 8 {
        let next = (start + 1) as u8;
        law_mask_slots_are_its_bits(mask, next);
        let rest = slots_from(mask, next);
        let all = slots_from(mask, start);
        if mask & (1u8 << start) != 0 {
            assert forall|slot: u8| #[trigger] all.contains(slot) == (start <= slot < 8 && mask & (
            1u8 << slot) != 0) by {
                assert(all[0] == start);
                if rest.contains(slot) {
                    let i = choose|i: int| 0 <= i < rest.len() && rest[i] == slot;
                    assert(all[i + 1] == slot);
                }
                if all.contains(slot) {
                    let i = choose|i: int| 0 <= i < all.len() && all[i] == slot;
                    if i > 0 {
                        assert(rest[i - 1] == slot);
                    }
                }
            }
            assert forall|i: int, j: int| 0 <= i < j < all.len() implies (#[trigger] all[i]) < (
            #[trigger] all[j]) by {
                assert(all[j] == rest[j - 1]);
                assert(rest.contains(rest[j - 1]));
                if i > 0 {
                    assert(all[i] == rest[i - 1]);
                }
            }
        }
    }
}

/// Different slots have different names.
pub proof fn law_slot_names_differ(first: u8, second: u8)
    requires
        slot_text(first) == slot_text(second),
    ensures
        first == second,
{
    reveal_strlit("slot");
    reveal_with_fuel(decimal_text, 3);
    let one = decimal_text(first as nat);
    let two = decimal_text(second as nat);
    assert(one =~= slot_text(first).skip(4));
    assert(two =~= slot_text(second).skip(4));
    assert(one == two);
    assert(one.last() == two.last());
    if first >= 10 && second >= 10 {
        assert(one[one.len() - 2] == two[two.len() - 2]);
    }
    if first >= 100 && second >= 100 {
        assert(one[0] == two[0]);
    }
}

/// The members of a record.
pub open spec fn members_of(record: JsonTree) -> Map<Seq<char>, JsonTree> {
    record->Object_0
}

/// The record of a side has a member for each thing that is known, and no other.
pub proof fn law_peer_record_is_what_is_known(peer: TracePeerState, key: Seq<char>)
    ensures
        members_of(peer_tree(peer)).contains_key(key) == {
            ||| key == "connectionState"@ && peer.connection_state is Some
            ||| key == "sessionState"@ && peer.session_state is Some
            ||| key == "transcriptPhase"@ && peer.transcript_phase is Some
        },
{
}

/// The record of a message has a member for each part that is reported, and no
/// other.
pub proof fn law_message_record_is_what_is_reported(msg: TraceMessage, key: Seq<char>)
    ensures
        members_of(msg_tree(msg)).contains_key(key) == {
            ||| key == "version"@ && msg.version is Some
            ||| key == "slot"@ && msg.slot is Some
            ||| key == "op"@ && msg.op is Some
            ||| key == "slotMask"@ && msg.slot_mask is Some
            ||| key == "error"@ && msg.error is Some
        },
{
}

/// The record of an event keeps its name and its side, whatever else it reports.
pub proof fn law_event_record_names_its_event(ts: nat, event: TraceEventView)
    ensures
        ({
            let record = members_of(event_record(ts, event));
            let reported = members_of(record["event"@]);
            &&& record["tag"@] == text_tree("trace")
            &&& record["ts"@] == JsonTree::Number(ts)
            &&& reported["name"@] == text_tree(event.name)
            &&& reported["nid"@] == text_tree(event.nid)
            &&& reported["msg"@] == msg_tree(event.msg)
        }),
{
    reveal_strlit("tag");
    reveal_strlit("ts");
    reveal_strlit("event");
    reveal_strlit("name");
    reveal_strlit("nid");
    reveal_strlit("state");
    reveal_strlit("msg");
    assert("tag"@.len() == 3 && "ts"@.len() == 2 && "event"@.len() == 5);
    assert("name"@.len() == 4 && "nid"@.len() == 3 && "state"@.len() == 5 && "msg"@.len() == 3);
    assert("nid"@[0] == 'n' && "msg"@[0] == 'm');
}

} // verus!
