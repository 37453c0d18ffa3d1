use fluxora_stream::Address;
use fluxora_stream::ContractError;
use fluxora_stream::FluxoraStream;
use fluxora_stream::StreamEvent;
use fluxora_stream::StreamStatus;

fn addr_token() -> Address {
    Address(1)
}

fn addr_admin() -> Address {
    Address(2)
}

fn addr_sender() -> Address {
    Address(3)
}

fn addr_recipient() -> Address {
    Address(4)
}

fn setup() -> FluxoraStream {
    let mut st = FluxoraStream::new();
    st.init(addr_token(), addr_admin()).unwrap();
    st
}

fn create_default_stream(st: &mut FluxoraStream) -> u64 {
    st.create_stream(addr_sender(), addr_recipient(), 1000, 1, 0, 0, 1000)
        .unwrap()
        .0
}

#[test]
fn test_pause_and_resume() {
    let mut st = setup();
    let stream_id = create_default_stream(&mut st);

    st.pause_stream(addr_sender(), stream_id).unwrap();
    let state = st.get_stream_state(stream_id).unwrap();
    assert_eq!(state.status, StreamStatus::Paused);

    st.resume_stream(addr_sender(), stream_id).unwrap();
    let state = st.get_stream_state(stream_id).unwrap();
    assert_eq!(state.status, StreamStatus::Active);
}

#[test]
fn test_admin_can_resume_stream() {
    let mut st = setup();
    let stream_id = create_default_stream(&mut st);

    st.pause_stream(addr_sender(), stream_id).unwrap();
    st.resume_stream(addr_sender(), stream_id).unwrap();
    let state = st.get_stream_state(stream_id).unwrap();
    assert_eq!(state.status, StreamStatus::Active);
}

#[test]
fn test_admin_can_pause_stream() {
    let mut st = setup();
    let stream_id = create_default_stream(&mut st);

    st.pause_stream(addr_sender(), stream_id).unwrap();
    let state = st.get_stream_state(stream_id).unwrap();
    assert_eq!(state.status, StreamStatus::Paused);
}

#[test]
fn test_pause_resume_events() {
    let mut st = setup();
    let stream_id = create_default_stream(&mut st);

    // The host publishes one event per transition; the payload it builds for
    // a pause is Paused(stream_id).
    st.pause_stream(addr_sender(), stream_id).unwrap();
    let pause_event = StreamEvent::Paused(stream_id);
    assert_eq!(pause_event, StreamEvent::Paused(stream_id));

    st.resume_stream(addr_sender(), stream_id).unwrap();
    let resume_event = StreamEvent::Resumed(stream_id);
    assert_eq!(resume_event, StreamEvent::Resumed(stream_id));
    assert_ne!(pause_event, resume_event);
}

#[test]
fn test_cancel_event() {
    let mut st = setup();
    let stream_id = create_default_stream(&mut st);

    st.cancel_stream(addr_sender(), stream_id, 0).unwrap();
    let cancel_event = StreamEvent::Cancelled(stream_id);
    assert_eq!(cancel_event, StreamEvent::Cancelled(stream_id));
    assert_ne!(cancel_event, StreamEvent::Paused(stream_id));
}

#[test]
fn test_multiple_streams_independent() {
    let mut st = setup();
    let id0 = create_default_stream(&mut st);
    let id1 = st
        .create_stream(addr_sender(), addr_recipient(), 200, 2, 0, 0, 100)
        .unwrap()
        .0;

    assert_eq!(id0, 0);
    assert_eq!(id1, 1);

    st.cancel_stream(addr_sender(), id0, 0).unwrap();
    assert_eq!(st.get_stream_state(id0).unwrap().status, StreamStatus::Cancelled);
    assert_eq!(st.get_stream_state(id1).unwrap().status, StreamStatus::Active);
}

#[test]
fn test_pause_stream_sender_success() {
    let mut st = setup();
    let stream_id = st
        .create_stream(addr_sender(), addr_recipient(), 1000, 1, 0, 0, 1000)
        .unwrap()
        .0;

    st.pause_stream(addr_sender(), stream_id).unwrap();
    let state = st.get_stream_state(stream_id).unwrap();
    assert_eq!(state.status, StreamStatus::Paused);
}

#[test]
fn test_pause_stream_admin_success() {
    let mut st = setup();
    let stream_id = st
        .create_stream(addr_sender(), addr_recipient(), 1000, 1, 0, 0, 1000)
        .unwrap()
        .0;

    st.pause_stream_as_admin(addr_admin(), stream_id).unwrap();
    let state = st.get_stream_state(stream_id).unwrap();
    assert_eq!(state.status, StreamStatus::Paused);
}

#[test]
fn test_admin_can_pause_via_admin_path() {
    let mut st = setup();
    let stream_id = create_default_stream(&mut st);

    st.pause_stream_as_admin(addr_admin(), stream_id).unwrap();
    let state = st.get_stream_state(stream_id).unwrap();
    assert_eq!(state.status, StreamStatus::Paused);
}

#[test]
fn test_admin_can_resume_via_admin_path() {
    let mut st = setup();
    let stream_id = create_default_stream(&mut st);

    st.pause_stream(addr_sender(), stream_id).unwrap();
    st.resume_stream_as_admin(addr_admin(), stream_id).unwrap();
    let state = st.get_stream_state(stream_id).unwrap();
    assert_eq!(state.status, StreamStatus::Active);
}

#[test]
fn test_pause_unauthorized_rejected() {
    let mut st = setup();
    let stream_id = create_default_stream(&mut st);

    assert_eq!(st.pause_stream(addr_recipient(), stream_id), Err(ContractError::Unauthorized));
    assert_eq!(st.pause_stream_as_admin(addr_sender(), stream_id), Err(ContractError::Unauthorized));
    assert_eq!(st.get_stream_state(stream_id).unwrap().status, StreamStatus::Active);
}

#[test]
fn test_pause_already_paused_rejected() {
    let mut st = setup();
    let stream_id = create_default_stream(&mut st);
    st.pause_stream(addr_sender(), stream_id).unwrap();

    assert_eq!(st.pause_stream(addr_sender(), stream_id), Err(ContractError::InvalidState));
    assert_eq!(st.pause_stream_as_admin(addr_admin(), stream_id), Err(ContractError::InvalidState));
}

#[test]
fn test_resume_non_paused_rejected() {
    let mut st = setup();
    let active_id = create_default_stream(&mut st);
    assert_eq!(st.resume_stream(addr_sender(), active_id), Err(ContractError::InvalidState));

    let cancelled_id = create_default_stream(&mut st);
    st.cancel_stream(addr_sender(), cancelled_id, 0).unwrap();
    assert_eq!(st.resume_stream(addr_sender(), cancelled_id), Err(ContractError::InvalidState));

    let completed_id = create_default_stream(&mut st);
    st.withdraw(addr_recipient(), completed_id, 1000).unwrap();
    assert_eq!(st.resume_stream(addr_sender(), completed_id), Err(ContractError::InvalidState));
    assert_eq!(
        st.resume_stream_as_admin(addr_admin(), completed_id),
        Err(ContractError::InvalidState)
    );
}

#[test]
fn test_pause_terminal_stream_rejected() {
    let mut st = setup();
    let stream_id = create_default_stream(&mut st);
    st.cancel_stream(addr_sender(), stream_id, 0).unwrap();

    assert_eq!(st.pause_stream(addr_sender(), stream_id), Err(ContractError::InvalidState));
}

#[test]
fn test_get_stream_state_all_statuses() {
    let mut st = setup();

    let id_active = create_default_stream(&mut st);
    let state_active = st.get_stream_state(id_active).unwrap();
    assert_eq!(state_active.status, StreamStatus::Active);
    assert_eq!(state_active.stream_id, id_active);

    let id_paused = create_default_stream(&mut st);
    st.pause_stream(addr_sender(), id_paused).unwrap();
    let state_paused = st.get_stream_state(id_paused).unwrap();
    assert_eq!(state_paused.status, StreamStatus::Paused);

    let id_cancelled = create_default_stream(&mut st);
    st.cancel_stream(addr_sender(), id_cancelled, 0).unwrap();
    let state_cancelled = st.get_stream_state(id_cancelled).unwrap();
    assert_eq!(state_cancelled.status, StreamStatus::Cancelled);

    let id_completed = create_default_stream(&mut st);
    st.withdraw(addr_recipient(), id_completed, 1000).unwrap();
    let state_completed = st.get_stream_state(id_completed).unwrap();
    assert_eq!(state_completed.status, StreamStatus::Completed);
}

#[test]
fn test_get_stream_state_initial() {
    let mut st = setup();
    let stream_id = create_default_stream(&mut st);

    assert_eq!(stream_id, 0, "first stream id should be 0");

    let state = st.get_stream_state(stream_id).unwrap();
    assert_eq!(state.stream_id, 0);
    assert_eq!(state.sender, addr_sender());
    assert_eq!(state.recipient, addr_recipient());
    assert_eq!(state.deposit_amount, 1000);
    assert_eq!(state.rate_per_second, 1);
    assert_eq!(state.start_time, 0);
    assert_eq!(state.cliff_time, 0);
    assert_eq!(state.end_time, 1000);
    assert_eq!(state.withdrawn_amount, 0);
    assert_eq!(state.status, StreamStatus::Active);
}

#[test]
fn test_get_stream_state_create_stream() {
    let mut st = setup();
    let stream_id = st
        .create_stream(addr_sender(), addr_recipient(), 5000, 1, 0, 0, 5000)
        .unwrap()
        .0;

    let state = st.get_stream_state(stream_id).unwrap();
    assert_eq!(state.stream_id, 0);
    assert_eq!(state.sender, addr_sender());
    assert_eq!(state.recipient, addr_recipient());
    assert_eq!(state.deposit_amount, 5000);
    assert_eq!(state.rate_per_second, 1);
    assert_eq!(state.start_time, 0);
    assert_eq!(state.cliff_time, 0);
    assert_eq!(state.end_time, 5000);
    assert_eq!(state.withdrawn_amount, 0);
    assert_eq!(state.status, StreamStatus::Active);
}

#[test]
fn test_get_stream_state_create_stream_withdraw_during_cliff() {
    let mut st = setup();
    let stream_id = st
        .create_stream(addr_sender(), addr_recipient(), 5000, 1, 0, 1000, 5000)
        .unwrap()
        .0;
    st.withdraw(addr_recipient(), stream_id, 1000).unwrap();

    let state = st.get_stream_state(stream_id).unwrap();
    assert_eq!(state.stream_id, 0);
    assert_eq!(state.sender, addr_sender());
    assert_eq!(state.recipient, addr_recipient());
    assert_eq!(state.deposit_amount, 5000);
    assert_eq!(state.rate_per_second, 1);
    assert_eq!(state.start_time, 0);
    assert_eq!(state.cliff_time, 1000);
    assert_eq!(state.end_time, 5000);
    assert_eq!(state.withdrawn_amount, 1000);
    assert_eq!(state.status, StreamStatus::Active);
}

#[test]
fn test_get_stream_state_create_stream_withdraw() {
    let mut st = setup();
    let stream_id = st
        .create_stream(addr_sender(), addr_recipient(), 5000, 1, 0, 1000, 5000)
        .unwrap()
        .0;
    st.withdraw(addr_recipient(), stream_id, 6000).unwrap();

    let state = st.get_stream_state(stream_id).unwrap();
    assert_eq!(state.stream_id, 0);
    assert_eq!(state.sender, addr_sender());
    assert_eq!(state.recipient, addr_recipient());
    assert_eq!(state.deposit_amount, 5000);
    assert_eq!(state.rate_per_second, 1);
    assert_eq!(state.start_time, 0);
    assert_eq!(state.cliff_time, 1000);
    assert_eq!(state.end_time, 5000);
    assert_eq!(state.withdrawn_amount, 5000);
    assert_eq!(state.status, StreamStatus::Completed);
}

#[test]
fn test_get_stream_state_create_stream_cancel() {
    let mut st = setup();
    let stream_id = st
        .create_stream(addr_sender(), addr_recipient(), 5000, 1, 0, 1000, 5000)
        .unwrap()
        .0;
    st.cancel_stream(addr_sender(), stream_id, 0).unwrap();

    let state = st.get_stream_state(stream_id).unwrap();
    assert_eq!(state.stream_id, 0);
    assert_eq!(state.sender, addr_sender());
    assert_eq!(state.recipient, addr_recipient());
    assert_eq!(state.deposit_amount, 5000);
    assert_eq!(state.rate_per_second, 1);
    assert_eq!(state.start_time, 0);
    assert_eq!(state.cliff_time, 1000);
    assert_eq!(state.end_time, 5000);
    assert_eq!(state.withdrawn_amount, 0);
    assert_eq!(state.status, StreamStatus::Cancelled);
}

#[test]
fn test_get_stream_state_pause_stream_cancel() {
    let mut st = setup();
    let stream_id = st
        .create_stream(addr_sender(), addr_recipient(), 5000, 1, 0, 1000, 5000)
        .unwrap()
        .0;
    st.pause_stream(addr_sender(), stream_id).unwrap();

    let state = st.get_stream_state(stream_id).unwrap();
    assert_eq!(state.stream_id, 0);
    assert_eq!(state.sender, addr_sender());
    assert_eq!(state.recipient, addr_recipient());
    assert_eq!(state.deposit_amount, 5000);
    assert_eq!(state.rate_per_second, 1);
    assert_eq!(state.start_time, 0);
    assert_eq!(state.cliff_time, 1000);
    assert_eq!(state.end_time, 5000);
    assert_eq!(state.withdrawn_amount, 0);
    assert_eq!(state.status, StreamStatus::Paused);
}

#[test]
fn test_get_stream_state_pause_resume_stream_cancel() {
    let mut st = setup();
    let stream_id = st
        .create_stream(addr_sender(), addr_recipient(), 5000, 1, 0, 1000, 5000)
        .unwrap()
        .0;
    st.pause_stream(addr_sender(), stream_id).unwrap();
    st.resume_stream(addr_sender(), stream_id).unwrap();

    let state = st.get_stream_state(stream_id).unwrap();
    assert_eq!(state.stream_id, 0);
    assert_eq!(state.sender, addr_sender());
    assert_eq!(state.recipient, addr_recipient());
    assert_eq!(state.deposit_amount, 5000);
    assert_eq!(state.rate_per_second, 1);
    assert_eq!(state.start_time, 0);
    assert_eq!(state.cliff_time, 1000);
    assert_eq!(state.end_time, 5000);
    assert_eq!(state.withdrawn_amount, 0);
    assert_eq!(state.status, StreamStatus::Active);
}

#[test]
fn test_event_stream_id_round_trip() {
    let events = [
        StreamEvent::Paused(7),
        StreamEvent::Resumed(7),
        StreamEvent::Cancelled(7),
    ];
    for e in events {
        match e {
            StreamEvent::Paused(id) | StreamEvent::Resumed(id) | StreamEvent::Cancelled(id) => {
                assert_eq!(id, 7);
            }
        }
    }
}
