use line_sort::node::{Algo, PartialOrder, Side};
use line_sort::wire::{decode, encode, Message};
use line_sort::NodeError;

fn round_trips(m: Message) {
    let bytes = encode(&m);
    assert_eq!(decode(&bytes), Ok(m));
}

#[test]
fn order_round_trip() {
    round_trips(Message::Order {
        algo: Algo::Sasaki,
        order: PartialOrder::GreaterThan,
        node_count: 5,
        left_port: 40001,
        right_port: 40002,
        global_index: 3,
        value: -17,
    });
}

#[test]
fn order_layout_is_little_endian() {
    let m = Message::Order {
        algo: Algo::OddEvenTransposition,
        order: PartialOrder::LessThan,
        node_count: 4,
        left_port: 0x1234,
        right_port: 0,
        global_index: 1,
        value: 5,
    };
    let bytes = encode(&m);
    assert_eq!(
        bytes,
        vec![0, 0, 0, 4, 0, 0x34, 0x12, 0, 0, 1, 0, 5, 0, 0, 0]
    );
}

#[test]
fn start_and_ready_round_trip() {
    round_trips(Message::Start);
    round_trips(Message::Ready);
    assert_eq!(encode(&Message::Start), vec![1]);
    assert_eq!(encode(&Message::Ready), vec![3]);
}

#[test]
fn report_round_trip() {
    round_trips(Message::Report { port: 0 });
    round_trips(Message::Report { port: 65535 });
    round_trips(Message::Report { port: 54321 });
}

#[test]
fn finish_round_trip_boundaries() {
    round_trips(Message::Finish { value: 0 });
    round_trips(Message::Finish { value: i32::MIN });
    round_trips(Message::Finish { value: i32::MAX });
}

#[test]
fn neighbour_connect_round_trip() {
    round_trips(Message::NeighbourConnect { claimed: Side::Left });
    round_trips(Message::NeighbourConnect { claimed: Side::Right });
    assert_eq!(
        encode(&Message::NeighbourConnect { claimed: Side::Left }),
        vec![5, 0]
    );
    assert_eq!(
        encode(&Message::NeighbourConnect { claimed: Side::Right }),
        vec![5, 1]
    );
}

#[test]
fn exchange_round_trip_boundaries() {
    for v in [0, 1, -1, i32::MIN, i32::MAX] {
        round_trips(Message::Exchange { value: v });
        round_trips(Message::MarkedExchange { value: v, marked: false });
        round_trips(Message::MarkedExchange { value: v, marked: true });
    }
}

#[test]
fn exchange_layout() {
    assert_eq!(
        encode(&Message::Exchange { value: -1 }),
        vec![6, 0xff, 0xff, 0xff, 0xff]
    );
    assert_eq!(
        encode(&Message::MarkedExchange { value: 1, marked: true }),
        vec![6, 1, 1, 0, 0, 0]
    );
}

#[test]
fn decode_rejects_empty() {
    assert_eq!(decode(&vec![]), Err(NodeError::FramingError));
}

#[test]
fn decode_rejects_unknown_tag() {
    assert_eq!(decode(&vec![7]), Err(NodeError::FramingError));
    assert_eq!(decode(&vec![255, 0, 0]), Err(NodeError::FramingError));
}

#[test]
fn decode_rejects_wrong_size() {
    // An order frame one byte short, and a start frame one byte long.
    assert_eq!(
        decode(&vec![0, 0, 0, 4, 0, 0, 0, 0, 0, 1, 0, 5, 0, 0]),
        Err(NodeError::FramingError)
    );
    assert_eq!(decode(&vec![1, 0]), Err(NodeError::FramingError));
    assert_eq!(decode(&vec![6, 1, 2, 3]), Err(NodeError::FramingError));
    assert_eq!(decode(&vec![6, 1, 2, 3, 4, 5, 6]), Err(NodeError::FramingError));
}

#[test]
fn decode_rejects_bad_field_bytes() {
    // Algorithm byte 3 and ordering byte 2 name nothing.
    let mut order_frame = encode(&Message::Order {
        algo: Algo::OddEvenTransposition,
        order: PartialOrder::LessThan,
        node_count: 2,
        left_port: 0,
        right_port: 40000,
        global_index: 1,
        value: 0,
    });
    order_frame[1] = 3;
    assert_eq!(decode(&order_frame), Err(NodeError::FramingError));
    order_frame[1] = 0;
    order_frame[2] = 2;
    assert_eq!(decode(&order_frame), Err(NodeError::FramingError));

    // A claimed side of 2, and a marked byte of 2.
    assert_eq!(decode(&vec![5, 2]), Err(NodeError::FramingError));
    assert_eq!(decode(&vec![6, 2, 0, 0, 0, 0]), Err(NodeError::FramingError));
}

#[test]
fn plain_and_marked_exchange_share_a_tag() {
    let plain = encode(&Message::Exchange { value: 9 });
    let marked = encode(&Message::MarkedExchange { value: 9, marked: false });
    assert_eq!(plain[0], marked[0]);
    assert_eq!(plain.len(), 5);
    assert_eq!(marked.len(), 6);
}
