use document_collection::bridge::{Bridge, BridgeAction, BridgeEvent, BridgeState};
use document_collection::channel::{Channel, TryRecv, TrySend, DEFAULT_CAPACITY};
use document_collection::document::{Document, DocumentRow, Validator};
use document_collection::envelope::DocumentQuery;
use document_collection::error::Error;
use document_collection::ident::format_id;
use document_collection::manager::{
    complete_insert, complete_keyed, create, delete, get, query_at, update, RowOp, StoreOutcome,
};
use document_collection::pipeline::{Move, Pipeline};
use document_collection::store::{StoreReply, Table};
use document_collection::timestamp::{Timestamp, Window};

const OWNER: &str = "550e8400-e29b-41d4-a716-446655440000";
const OTHER: &str = "11111111-2222-3333-4444-555555555555";
const DAY: i64 = 86_400;
const D1: i64 = 1_704_844_800;
const D2: i64 = D1 + DAY;
const D3: i64 = D2 + DAY;

fn at(seconds: i64) -> Timestamp {
    Timestamp { seconds, nanos: 0 }
}

/// A store that counts the operations it is asked to do.
struct CountingStore {
    table: Table,
    calls: usize,
    next_id: u128,
}

impl CountingStore {
    fn new() -> Self {
        CountingStore { table: Table::new(), calls: 0, next_id: 1 }
    }

    fn run(&mut self, op: RowOp, now: Timestamp) -> StoreReply {
        self.calls += 1;
        let id = self.next_id;
        self.next_id += 1;
        self.table.execute(op, id, now)
    }

    fn one(&mut self, plan: Result<RowOp, Error>, now: Timestamp) -> Result<StoreOutcome, Error> {
        match self.run(plan?, now) {
            StoreReply::One(outcome) => Ok(outcome),
            StoreReply::Many(_) => panic!("a keyed operation answered with many rows"),
        }
    }

    fn create(&mut self, owner: &str, data: &str, now: Timestamp) -> Result<Document, Error> {
        let outcome = self.one(create(owner.to_string(), data.to_string()), now)?;
        complete_insert(outcome)
    }

    fn update(&mut self, id: &str, data: &str, now: Timestamp) -> Result<Document, Error> {
        let outcome = self.one(update(id.to_string(), data.to_string()), now)?;
        complete_keyed(outcome)
    }

    fn delete(&mut self, id: &str, now: Timestamp) -> Result<Document, Error> {
        let outcome = self.one(delete(id.to_string()), now)?;
        complete_keyed(outcome)
    }

    fn get(&mut self, id: &str, now: Timestamp) -> Result<Document, Error> {
        let outcome = self.one(get(id.to_string()), now)?;
        complete_keyed(outcome)
    }

    fn query(&mut self, descriptor: DocumentQuery, now: Timestamp) -> Result<Vec<Document>, Error> {
        match self.run(query_at(descriptor, now)?, now) {
            StoreReply::Many(rows) => Ok(rows.into_iter().map(Document::from_row).collect()),
            StoreReply::One(_) => panic!("a range selection answered with one row"),
        }
    }
}

#[test]
fn created_document_is_fetched_as_created() {
    let mut store = CountingStore::new();
    let created = store.create(OWNER, "{\"n\":1}", at(D1)).unwrap();
    assert_eq!(created.user_id, OWNER);
    assert_eq!(created.data, Some("{\"n\":1}".to_string()));
    assert_eq!(created.created_at, Some(at(D1)));
    assert_eq!(created.updated_at, Some(at(D1)));
    assert!(!created.id.is_empty());
    assert_eq!(created.validate(), Ok(()));
    let fetched = store.get(&created.id, at(D2)).unwrap();
    assert_eq!(fetched, created);
    assert!(fetched.created_at.unwrap().not_after(&fetched.updated_at.unwrap()));
    assert_eq!(store.calls, 2);
}

#[test]
fn created_document_with_empty_payload_keeps_it() {
    let mut store = CountingStore::new();
    let created = store.create(OWNER, "", at(D1)).unwrap();
    assert_eq!(created.data, Some(String::new()));
    assert_eq!(store.get(&created.id, at(D1)).unwrap().data, Some(String::new()));
}

#[test]
fn update_replaces_the_payload_and_refreshes_the_instant() {
    let mut store = CountingStore::new();
    let created = store.create(OWNER, "{\"n\":1}", at(D1)).unwrap();
    let updated = store.update(&created.id, "{\"n\":2}", at(D2)).unwrap();
    assert_eq!(updated.id, created.id);
    assert_eq!(updated.user_id, created.user_id);
    assert_eq!(updated.created_at, created.created_at);
    assert_eq!(updated.data, Some("{\"n\":2}".to_string()));
    assert_eq!(updated.updated_at, Some(at(D2)));
    assert_eq!(store.get(&created.id, at(D3)).unwrap(), updated);
}

#[test]
fn second_update_with_the_same_payload_keeps_it_and_is_not_earlier() {
    let mut store = CountingStore::new();
    let created = store.create(OWNER, "{}", at(D1)).unwrap();
    let first = store.update(&created.id, "{\"p\":true}", at(D2)).unwrap();
    let second = store.update(&created.id, "{\"p\":true}", at(D2)).unwrap();
    assert_eq!(second.data, Some("{\"p\":true}".to_string()));
    assert!(first.updated_at.unwrap().not_after(&second.updated_at.unwrap()));
    let third = store.update(&created.id, "{\"p\":true}", at(D1)).unwrap();
    assert_eq!(third.updated_at, Some(at(D2)));
    assert!(second.updated_at.unwrap().not_after(&third.updated_at.unwrap()));
    assert_eq!(third.validate(), Ok(()));
}

#[test]
fn delete_hands_back_the_last_state_and_removes_the_row() {
    let mut store = CountingStore::new();
    let created = store.create(OWNER, "{}", at(D1)).unwrap();
    let updated = store.update(&created.id, "{\"last\":1}", at(D2)).unwrap();
    assert_eq!(store.delete(&created.id, at(D3)), Ok(updated));
    assert_eq!(store.table.len(), 0);
    assert_eq!(store.get(&created.id, at(D3)), Err(Error::NotFound));
}

#[test]
fn operations_on_a_missing_identity_are_not_found() {
    let mut store = CountingStore::new();
    store.create(OWNER, "{}", at(D1)).unwrap();
    let missing = format_id(0xdead_beef);
    assert_eq!(store.get(&missing, at(D1)), Err(Error::NotFound));
    assert_eq!(store.update(&missing, "{}", at(D1)), Err(Error::NotFound));
    assert_eq!(store.delete(&missing, at(D1)), Err(Error::NotFound));
    assert_eq!(store.calls, 4);
    assert_eq!(store.get("no identity at all", at(D1)), Err(Error::NotFound));
    assert_eq!(store.update("", "{}", at(D1)), Err(Error::NotFound));
    assert_eq!(store.delete("42", at(D1)), Err(Error::NotFound));
    assert_eq!(store.calls, 4);
    assert_eq!(store.table.len(), 1);
}

#[test]
fn insert_under_a_taken_identity_fails_in_the_store() {
    let mut table = Table::new();
    let first = table.insert(1, "a".to_string(), 9, at(D1));
    assert!(matches!(first, StoreOutcome::Row(_)));
    let second = table.insert(2, "b".to_string(), 9, at(D1));
    assert!(matches!(second, StoreOutcome::Failed(_)));
    assert_eq!(table.len(), 1);
    assert!(matches!(complete_insert(second), Err(Error::DbError(_))));
}

#[test]
fn query_yields_the_start_day_and_the_whole_end_day() {
    let mut store = CountingStore::new();
    let a = store.create(OWNER, "\"d1 morning\"", at(D1 + 3_600)).unwrap();
    let b = store.create(OWNER, "\"d1 night\"", at(D1 + DAY - 1)).unwrap();
    store.create(OTHER, "\"not mine\"", at(D2)).unwrap();
    let c = store.create(OWNER, "\"d2 first second\"", at(D2)).unwrap();
    let d = store.create(OWNER, "\"d2 last second\"", at(D2 + DAY - 1)).unwrap();
    store.create(OWNER, "\"d3\"", at(D3)).unwrap();
    let descriptor = DocumentQuery {
        user_id: OWNER.to_string(),
        start: Some(at(D1 + 7_200)),
        end: Some(at(D2 + 60)),
    };
    assert_eq!(store.query(descriptor, at(D3 + DAY)), Ok(vec![a, b, c, d]));
}

#[test]
fn query_for_one_instant_yields_its_whole_day() {
    let mut store = CountingStore::new();
    store.create(OWNER, "0", at(D1 - 1)).unwrap();
    let early = store.create(OWNER, "1", at(D1)).unwrap();
    let late = store.create(OWNER, "2", at(D1 + DAY - 1)).unwrap();
    store.create(OWNER, "3", at(D2)).unwrap();
    let noon = Some(at(D1 + DAY / 2));
    let descriptor = DocumentQuery { user_id: OWNER.to_string(), start: noon, end: noon };
    assert_eq!(store.query(descriptor, at(D3)), Ok(vec![early, late]));
}

#[test]
fn query_without_end_runs_through_today() {
    let mut store = CountingStore::new();
    let a = store.create(OWNER, "1", at(D1)).unwrap();
    let b = store.create(OWNER, "2", at(D2 + 10)).unwrap();
    store.create(OWNER, "3", at(D3)).unwrap();
    let descriptor = DocumentQuery { user_id: OWNER.to_string(), start: None, end: None };
    assert_eq!(store.query(descriptor, at(D2)), Ok(vec![a, b]));
}

#[test]
fn query_of_an_owner_without_documents_is_empty() {
    let mut store = CountingStore::new();
    store.create(OWNER, "1", at(D1)).unwrap();
    let descriptor = DocumentQuery { user_id: OTHER.to_string(), start: None, end: None };
    assert_eq!(store.query(descriptor, at(D3)), Ok(vec![]));
}

#[test]
fn query_with_bounds_out_of_order_never_reaches_the_store() {
    let mut store = CountingStore::new();
    store.create(OWNER, "1", at(D1)).unwrap();
    let calls = store.calls;
    let descriptor = DocumentQuery { user_id: OWNER.to_string(), start: Some(at(D2)), end: Some(at(D1)) };
    assert_eq!(store.query(descriptor, at(D3)), Err(Error::InvalidTime));
    let narrow = DocumentQuery {
        user_id: OWNER.to_string(),
        start: Some(Timestamp { seconds: D1, nanos: 2 }),
        end: Some(Timestamp { seconds: D1, nanos: 1 }),
    };
    assert_eq!(store.query(narrow, at(D3)), Err(Error::InvalidTime));
    assert_eq!(store.calls, calls);
}

#[test]
fn rows_of_a_range_selection_come_oldest_first() {
    let mut table = Table::new();
    for (i, second) in [5i64, 3, 9, 9, 1].iter().enumerate() {
        table.insert(7, format!("{}", i), i as u128 + 1, at(*second));
    }
    let found = table.select_range(7, &Window { start: 0, end: 100 });
    let created: Vec<i64> = found.iter().map(|row| row.created_at.seconds).collect();
    assert_eq!(created, vec![5, 5, 9, 9, 9]);
    let names: Vec<&str> = found.iter().map(|row| row.data.as_str()).collect();
    assert_eq!(names, vec!["0", "1", "2", "3", "4"]);
    assert_eq!(table.select_range(7, &Window { start: 6, end: 9 }), Vec::<DocumentRow>::new());
    assert_eq!(table.select_range(7, &Window { start: 9, end: 10 }).len(), 3);
}

#[test]
fn channel_takes_items_up_to_its_capacity() {
    let mut channel: Channel<u8> = Channel::new(2);
    assert_eq!(channel.capacity(), 2);
    assert_eq!(channel.try_send(1), TrySend::Sent);
    assert_eq!(channel.try_send(2), TrySend::Sent);
    assert_eq!(channel.try_send(3), TrySend::Full(3));
    assert_eq!(channel.len(), 2);
    assert_eq!(channel.try_recv(), TryRecv::Item(1));
    assert_eq!(channel.try_send(3), TrySend::Sent);
    assert_eq!(channel.try_recv(), TryRecv::Item(2));
    assert_eq!(channel.try_recv(), TryRecv::Item(3));
    assert_eq!(channel.try_recv(), TryRecv::Empty);
}

#[test]
fn channel_without_sender_ends_after_what_it_holds() {
    let mut channel: Channel<u8> = Channel::new(4);
    assert_eq!(channel.try_send(1), TrySend::Sent);
    channel.close_sender();
    assert!(!channel.sender_open());
    assert!(channel.receiver_open());
    assert_eq!(channel.try_recv(), TryRecv::Item(1));
    assert_eq!(channel.try_recv(), TryRecv::Disconnected);
}

#[test]
fn channel_without_receiver_takes_nothing_and_keeps_nothing() {
    let mut channel: Channel<u8> = Channel::new(4);
    assert_eq!(channel.try_send(1), TrySend::Sent);
    channel.drop_receiver();
    assert!(!channel.receiver_open());
    assert_eq!(channel.len(), 0);
    assert_eq!(channel.try_send(2), TrySend::Closed(2));
    assert_eq!(channel.len(), 0);
}

#[test]
fn bridge_walks_from_idle_to_exhausted() {
    let mut bridge = Bridge::new();
    assert_eq!(bridge.state(), BridgeState::Idle);
    assert_eq!(bridge.step(BridgeEvent::<u8>::Start), Some(BridgeAction::Pull));
    assert_eq!(bridge.state(), BridgeState::Fetching);
    assert_eq!(bridge.step(BridgeEvent::Row(7u8)), Some(BridgeAction::Emit(Ok(7))));
    assert_eq!(bridge.state(), BridgeState::Emitting);
    assert_eq!(bridge.step(BridgeEvent::<u8>::Sent), Some(BridgeAction::Pull));
    assert_eq!(bridge.state(), BridgeState::Fetching);
    assert_eq!(bridge.step(BridgeEvent::<u8>::CursorEnd), Some(BridgeAction::Close));
    assert_eq!(bridge.state(), BridgeState::Exhausted);
    assert!(bridge.state().terminal());
}

#[test]
fn bridge_ends_on_the_first_failed_row() {
    let mut bridge = Bridge::new();
    bridge.step(BridgeEvent::<u8>::Start);
    assert_eq!(
        bridge.step(BridgeEvent::<u8>::RowFailed(Error::DbError("bad row".to_string()))),
        Some(BridgeAction::Emit(Err(Error::DbError("bad row".to_string()))))
    );
    assert_eq!(bridge.state(), BridgeState::Emitting);
    assert_eq!(bridge.step(BridgeEvent::<u8>::Sent), Some(BridgeAction::Close));
    assert_eq!(bridge.state(), BridgeState::ErrorTerminated);
}

#[test]
fn bridge_gives_up_when_nobody_receives() {
    let mut bridge = Bridge::new();
    bridge.step(BridgeEvent::<u8>::Start);
    bridge.step(BridgeEvent::Row(1u8));
    assert_eq!(bridge.step(BridgeEvent::<u8>::ReceiverGone), Some(BridgeAction::Close));
    assert_eq!(bridge.state(), BridgeState::ConsumerGone);
}

#[test]
fn bridge_ignores_what_its_state_does_not_await() {
    let mut bridge = Bridge::new();
    assert_eq!(bridge.step(BridgeEvent::Row(1u8)), None);
    assert_eq!(bridge.step(BridgeEvent::<u8>::Sent), None);
    assert_eq!(bridge.state(), BridgeState::Idle);
    bridge.step(BridgeEvent::<u8>::Start);
    assert_eq!(bridge.step(BridgeEvent::<u8>::Start), None);
    assert_eq!(bridge.step(BridgeEvent::<u8>::ReceiverGone), None);
    assert_eq!(bridge.state(), BridgeState::Fetching);
}

#[test]
fn bridge_stays_in_each_final_state() {
    for last in [BridgeState::Exhausted, BridgeState::ErrorTerminated, BridgeState::ConsumerGone] {
        let mut bridge = Bridge { state: last, failed: last == BridgeState::ErrorTerminated };
        let before = bridge;
        assert_eq!(bridge.step(BridgeEvent::<u8>::Start), None);
        assert_eq!(bridge.step(BridgeEvent::Row(1u8)), None);
        assert_eq!(bridge.step(BridgeEvent::<u8>::RowFailed(Error::Unknown)), None);
        assert_eq!(bridge.step(BridgeEvent::<u8>::CursorEnd), None);
        assert_eq!(bridge.step(BridgeEvent::<u8>::Sent), None);
        assert_eq!(bridge.step(BridgeEvent::<u8>::ReceiverGone), None);
        assert_eq!(bridge, before);
    }
}

fn rows(n: u32) -> Vec<Result<u32, Error>> {
    (0..n).map(Ok).collect()
}

#[test]
fn backpressure_holds_the_channel_to_its_capacity() {
    let mut pipeline = Pipeline::new(rows(10), 3);
    let mut most = 0;
    let mut moves = 0;
    while pipeline.produce() {
        most = most.max(pipeline.in_flight());
        moves += 1;
    }
    assert_eq!(most, 3);
    assert_eq!(pipeline.in_flight(), 3);
    assert_eq!(pipeline.state(), BridgeState::Emitting);
    assert_eq!(pipeline.remaining(), 6);
    assert_eq!(moves, 8);
    assert!(!pipeline.produce());
    assert!(pipeline.consume());
    assert_eq!(pipeline.in_flight(), 2);
    assert!(pipeline.produce());
    assert_eq!(pipeline.in_flight(), 3);
}

#[test]
fn draining_consumer_receives_every_row_in_order() {
    let mut pipeline = Pipeline::new(rows(10), 3);
    pipeline.drain();
    assert_eq!(pipeline.received(), &rows(10));
    assert_eq!(pipeline.state(), BridgeState::Exhausted);
    assert_eq!(pipeline.in_flight(), 0);
    assert_eq!(pipeline.remaining(), 0);
}

#[test]
fn draining_through_a_channel_of_one() {
    let mut pipeline = Pipeline::new(rows(5), 1);
    let mut most = 0;
    loop {
        if !pipeline.produce() && !pipeline.consume() {
            break;
        }
        most = most.max(pipeline.in_flight());
    }
    assert_eq!(most, 1);
    assert_eq!(pipeline.received(), &rows(5));
    assert_eq!(pipeline.state(), BridgeState::Exhausted);
}

#[test]
fn empty_cursor_ends_cleanly() {
    let mut pipeline: Pipeline<u32> = Pipeline::new(Vec::new(), 128);
    assert_eq!(pipeline.state(), BridgeState::Idle);
    pipeline.drain();
    assert_eq!(pipeline.state(), BridgeState::Exhausted);
    assert!(pipeline.received().is_empty());
}

#[test]
fn failed_row_is_delivered_last_and_nothing_after_it() {
    let failure = Error::DbError("row 2 cannot be decoded".to_string());
    let source = vec![Ok(0u32), Ok(1), Err(failure.clone()), Ok(3), Ok(4)];
    let mut pipeline = Pipeline::new(source, 128);
    pipeline.drain();
    assert_eq!(pipeline.received(), &vec![Ok(0), Ok(1), Err(failure)]);
    assert_eq!(pipeline.state(), BridgeState::ErrorTerminated);
    assert_eq!(pipeline.remaining(), 2);
}

#[test]
fn consumer_that_disappears_receives_nothing_more() {
    let mut pipeline = Pipeline::new(rows(10), 3);
    while pipeline.received().len() < 4 {
        if !pipeline.consume() {
            assert!(pipeline.produce());
        }
    }
    pipeline.hang_up();
    assert_eq!(pipeline.received(), &rows(4));
    assert_eq!(pipeline.state(), BridgeState::ConsumerGone);
    assert_eq!(pipeline.in_flight(), 0);
    assert!(pipeline.remaining() > 0);
    assert!(!pipeline.produce());
    assert!(!pipeline.consume());
    assert_eq!(pipeline.received(), &rows(4));
}

#[test]
fn consumer_that_disappears_at_once_stops_production_on_its_first_send() {
    let mut pipeline = Pipeline::new(rows(3), 2);
    pipeline.disconnect();
    assert!(pipeline.produce());
    assert_eq!(pipeline.state(), BridgeState::Fetching);
    assert!(pipeline.produce());
    assert_eq!(pipeline.state(), BridgeState::Emitting);
    assert!(pipeline.produce());
    assert_eq!(pipeline.state(), BridgeState::ConsumerGone);
    assert_eq!(pipeline.remaining(), 2);
    assert!(pipeline.received().is_empty());
}

#[test]
fn consumer_that_disappears_after_the_end_changes_nothing() {
    let mut pipeline = Pipeline::new(rows(2), 8);
    while pipeline.produce() {}
    assert_eq!(pipeline.state(), BridgeState::Exhausted);
    assert!(pipeline.consume());
    pipeline.hang_up();
    assert_eq!(pipeline.state(), BridgeState::Exhausted);
    assert_eq!(pipeline.received(), &rows(1));
}

#[test]
fn channel_of_a_query_holds_128_items_by_default() {
    assert_eq!(DEFAULT_CAPACITY, 128);
    let mut pipeline = Pipeline::new(rows(200), DEFAULT_CAPACITY);
    while pipeline.produce() {}
    assert_eq!(pipeline.in_flight(), 128);
    assert_eq!(pipeline.remaining(), 200 - 129);
    pipeline.drain();
    assert_eq!(pipeline.received(), &rows(200));
}

#[test]
fn any_schedule_keeps_the_bound_and_the_order() {
    let schedule = [
        Move::Consume,
        Move::Produce,
        Move::Produce,
        Move::Produce,
        Move::Produce,
        Move::Produce,
        Move::Produce,
        Move::Consume,
        Move::Consume,
        Move::Consume,
        Move::Produce,
        Move::Produce,
        Move::Consume,
        Move::Produce,
        Move::Produce,
        Move::Produce,
        Move::Consume,
    ];
    let source = rows(6);
    let mut pipeline = Pipeline::new(source.clone(), 2);
    for m in schedule.iter().cycle().take(200) {
        pipeline.apply(*m);
        assert!(pipeline.in_flight() <= 2);
        let received = pipeline.received();
        assert_eq!(received[..], source[..received.len()]);
    }
    assert_eq!(pipeline.received(), &source);
    assert_eq!(pipeline.state(), BridgeState::Exhausted);
}

#[test]
fn moves_report_whether_their_side_could_move() {
    let mut pipeline = Pipeline::new(rows(1), 1);
    assert!(!pipeline.apply(Move::Consume));
    assert!(pipeline.apply(Move::Produce));
    assert!(pipeline.apply(Move::Produce));
    assert!(pipeline.apply(Move::Produce));
    assert_eq!(pipeline.in_flight(), 1);
    assert!(pipeline.apply(Move::Disconnect));
    assert!(!pipeline.apply(Move::Disconnect));
    assert!(!pipeline.apply(Move::Consume));
    assert!(pipeline.apply(Move::Produce));
    assert_eq!(pipeline.state(), BridgeState::Exhausted);
    assert!(!pipeline.apply(Move::Produce));
    assert!(pipeline.received().is_empty());
}

#[test]
fn failure_that_finds_nobody_ends_as_consumer_gone() {
    let source = vec![Err::<u32, Error>(Error::Unknown), Ok(1)];
    let mut pipeline = Pipeline::new(source, 4);
    assert!(pipeline.produce());
    assert!(pipeline.produce());
    assert_eq!(pipeline.state(), BridgeState::Emitting);
    pipeline.hang_up();
    assert_eq!(pipeline.state(), BridgeState::ConsumerGone);
    assert!(pipeline.received().is_empty());
    assert_eq!(pipeline.remaining(), 1);
}
