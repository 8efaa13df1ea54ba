use rumqtt::client::state::{count_one_more, Action, Session, Status, HANDSHAKE_TIMEOUT_SECS};
use rumqtt::client::{Command, ConnectCount};
use rumqtt::error::ConnectError;
use rumqtt::options::{MqttOptions, ReconnectOptions};
use rumqtt::packet::{
    Connack, Connect, ConnectReturnCode, Packet, PacketIdentifier, Publish, QoS, Suback,
    Subscribe, SubscribeReturnCodes, SubscribeTopic,
};

fn options(keep_alive: u16) -> MqttOptions {
    MqttOptions {
        broker_addr: "localhost:1883".to_string(),
        client_id: "tester".to_string(),
        keep_alive,
        max_packet_size: 1024,
        reconnect: ReconnectOptions::Never,
        ca: None,
    }
}

fn publish(qos: QoS, pid: Option<u16>, payload: &[u8]) -> Packet {
    Packet::Publish(Publish {
        dup: false,
        qos,
        retain: false,
        topic_name: "a/b".to_string(),
        pid: pid.map(PacketIdentifier),
        payload: payload.to_vec(),
    })
}

fn subscribe(pid: u16) -> Packet {
    Packet::Subscribe(Subscribe {
        pid: PacketIdentifier(pid),
        topics: vec![SubscribeTopic { topic_path: "a/#".to_string(), qos: QoS::AtLeastOnce }],
    })
}

fn accepted() -> Packet {
    Packet::Connack(Connack { session_present: false, code: ConnectReturnCode::Accepted })
}

fn active(count: ConnectCount) -> Session {
    let (mut session, _) = Session::open(&options(5), count);
    assert_eq!(session.on_packet(accepted()), vec![]);
    assert_eq!(session.status(), Status::Active);
    session
}

fn send(session: &mut Session, packet: Packet, tag: Option<&str>) -> Vec<Action> {
    session.on_command(Command::Mqtt((packet, tag.map(|t| t.to_string())))).unwrap()
}

#[test]
fn a_session_opens_with_a_connection_request() {
    let (session, connect) = Session::open(&options(5), ConnectCount::InitialConnect);
    assert_eq!(
        connect,
        Packet::Connect(Connect { keep_alive: 5, client_id: "tester".to_string() })
    );
    assert_eq!(session.status(), Status::Handshake);
    assert_eq!(session.connect_count(), ConnectCount::InitialConnect);
    assert_eq!(session.outstanding_len(), 0);
    assert_eq!(session.timer(), Some(10));
    assert_eq!(HANDSHAKE_TIMEOUT_SECS, 10);
}

#[test]
fn an_accepted_handshake_makes_the_session_active_and_counts() {
    let (mut session, _) = Session::open(&options(7), ConnectCount::InitialConnect);
    assert_eq!(session.on_packet(accepted()), vec![]);
    assert_eq!(session.status(), Status::Active);
    assert_eq!(session.connect_count(), ConnectCount::ConnectedBefore(1));
    assert_eq!(session.timer(), Some(7));

    let (mut session, _) = Session::open(&options(7), ConnectCount::ConnectedBefore(4));
    session.on_packet(accepted());
    assert_eq!(session.connect_count(), ConnectCount::ConnectedBefore(5));
}

#[test]
fn the_count_of_connections_stays_at_its_largest() {
    assert_eq!(count_one_more(ConnectCount::InitialConnect), ConnectCount::ConnectedBefore(1));
    assert_eq!(count_one_more(ConnectCount::ConnectedBefore(1)), ConnectCount::ConnectedBefore(2));
    assert_eq!(
        count_one_more(ConnectCount::ConnectedBefore(u32::MAX)),
        ConnectCount::ConnectedBefore(u32::MAX)
    );
}

#[test]
fn a_refused_handshake_ends_the_session_with_the_old_count() {
    let (mut session, _) = Session::open(&options(5), ConnectCount::InitialConnect);
    let refusal =
        Packet::Connack(Connack { session_present: false, code: ConnectReturnCode::NotAuthorized });
    assert_eq!(
        session.on_packet(refusal),
        vec![Action::Stop(
            ConnectError::ConnectionRefused(ConnectReturnCode::NotAuthorized),
            ConnectCount::InitialConnect
        )]
    );
    assert_eq!(session.status(), Status::Over);
    assert_eq!(session.timer(), None);
}

#[test]
fn a_handshake_that_takes_too_long_ends_the_session() {
    let (mut session, _) = Session::open(&options(5), ConnectCount::ConnectedBefore(2));
    assert_eq!(
        session.on_timer(),
        vec![Action::Stop(ConnectError::HandshakeTimeout, ConnectCount::ConnectedBefore(2))]
    );
    assert_eq!(session.status(), Status::Over);

    let (mut session, _) = Session::open(&options(5), ConnectCount::InitialConnect);
    assert_eq!(session.on_keep_alive(), vec![]);
    assert_eq!(
        session.on_handshake_timeout(),
        vec![Action::Stop(ConnectError::HandshakeTimeout, ConnectCount::InitialConnect)]
    );

    let mut session = active(ConnectCount::InitialConnect);
    assert_eq!(session.on_handshake_timeout(), vec![]);
    assert_eq!(session.status(), Status::Active);
}

#[test]
fn other_packets_are_ignored_during_the_handshake() {
    let (mut session, _) = Session::open(&options(5), ConnectCount::InitialConnect);
    assert_eq!(session.on_packet(publish(QoS::AtLeastOnce, Some(3), &[1])), vec![]);
    assert_eq!(session.on_packet(Packet::Pingresp), vec![]);
    assert_eq!(session.on_packet(Packet::Puback(PacketIdentifier(1))), vec![]);
    assert_eq!(session.status(), Status::Handshake);
}

#[test]
fn commands_are_handed_back_during_the_handshake() {
    let (mut session, _) = Session::open(&options(5), ConnectCount::InitialConnect);
    let command = Command::Mqtt((publish(QoS::AtLeastOnce, None, &[1]), Some("t".to_string())));
    assert_eq!(session.on_command(command.clone()), Err(command));
    assert_eq!(session.on_command(Command::Halt), Err(Command::Halt));
    assert_eq!(session.status(), Status::Handshake);
    assert_eq!(session.outstanding_len(), 0);
}

#[test]
fn a_publish_at_the_lowest_guarantee_is_written_as_it_is() {
    let mut session = active(ConnectCount::InitialConnect);
    assert_eq!(
        send(&mut session, publish(QoS::AtMostOnce, None, &[1, 2]), None),
        vec![Action::Send(publish(QoS::AtMostOnce, None, &[1, 2]))]
    );
    assert_eq!(session.outstanding_len(), 0);
}

#[test]
fn a_publish_above_the_lowest_guarantee_gets_the_next_identifier() {
    let mut session = active(ConnectCount::InitialConnect);
    assert_eq!(
        send(&mut session, publish(QoS::AtLeastOnce, None, &[1]), None),
        vec![Action::Send(publish(QoS::AtLeastOnce, Some(1), &[1]))]
    );
    assert_eq!(
        send(&mut session, publish(QoS::ExactlyOnce, None, &[2]), Some("x")),
        vec![Action::Send(publish(QoS::ExactlyOnce, Some(2), &[2]))]
    );
    assert_eq!(
        send(&mut session, subscribe(0), None),
        vec![Action::Send(subscribe(3))]
    );
    assert_eq!(session.outstanding_len(), 3);
}

#[test]
fn commands_are_executed_in_the_order_given() {
    let mut session = active(ConnectCount::InitialConnect);
    let commands = vec![
        Command::Mqtt((publish(QoS::AtLeastOnce, None, &[1]), None)),
        Command::Mqtt((subscribe(0), None)),
        Command::Mqtt((publish(QoS::AtMostOnce, None, &[2]), Some("t".to_string()))),
        Command::Mqtt((publish(QoS::ExactlyOnce, None, &[3]), None)),
        Command::Halt,
        Command::Mqtt((publish(QoS::AtMostOnce, None, &[4]), None)),
    ];
    let mut written = Vec::new();
    let mut kept_back = Vec::new();
    for command in commands {
        match session.on_command(command) {
            Ok(actions) => {
                for action in actions {
                    if let Action::Send(packet) = action {
                        written.push(packet);
                    }
                }
            }
            Err(back) => kept_back.push(back),
        }
    }
    assert_eq!(
        written,
        vec![
            publish(QoS::AtLeastOnce, Some(1), &[1]),
            subscribe(2),
            publish(QoS::AtMostOnce, None, &[2]),
            publish(QoS::ExactlyOnce, Some(3), &[3]),
            Packet::Disconnect,
        ]
    );
    assert_eq!(kept_back, vec![Command::Mqtt((publish(QoS::AtMostOnce, None, &[4]), None))]);
}

#[test]
fn an_acknowledgement_releases_the_request_and_brings_its_tag() {
    let mut session = active(ConnectCount::InitialConnect);
    send(&mut session, publish(QoS::AtLeastOnce, None, &[1]), Some("first"));
    send(&mut session, publish(QoS::AtLeastOnce, None, &[2]), None);
    send(&mut session, subscribe(0), Some("third"));
    assert_eq!(session.outstanding_len(), 3);
    assert!(session.is_outstanding(PacketIdentifier(2)));
    assert!(!session.is_outstanding(PacketIdentifier(4)));
    assert!(!session.is_outstanding(PacketIdentifier(0)));

    assert_eq!(
        session.on_packet(Packet::Puback(PacketIdentifier(2))),
        vec![Action::Notify((Packet::Puback(PacketIdentifier(2)), None))]
    );
    assert_eq!(session.outstanding_len(), 2);
    assert!(!session.is_outstanding(PacketIdentifier(2)));
    assert!(session.is_outstanding(PacketIdentifier(1)));
    assert!(session.is_outstanding(PacketIdentifier(3)));

    assert_eq!(
        session.on_packet(Packet::Puback(PacketIdentifier(1))),
        vec![Action::Notify((Packet::Puback(PacketIdentifier(1)), Some("first".to_string())))]
    );
    assert_eq!(session.outstanding_len(), 1);

    let suback = Packet::Suback(Suback {
        pid: PacketIdentifier(3),
        return_codes: vec![SubscribeReturnCodes::Success(QoS::AtLeastOnce)],
    });
    assert_eq!(
        session.on_packet(suback.clone()),
        vec![Action::Notify((suback, Some("third".to_string())))]
    );
    assert_eq!(session.outstanding_len(), 0);
}

#[test]
fn an_acknowledgement_of_nothing_outstanding_is_forwarded_without_a_tag() {
    let mut session = active(ConnectCount::InitialConnect);
    send(&mut session, publish(QoS::AtLeastOnce, None, &[1]), Some("first"));
    assert_eq!(
        session.on_packet(Packet::Puback(PacketIdentifier(9))),
        vec![Action::Notify((Packet::Puback(PacketIdentifier(9)), None))]
    );
    assert_eq!(session.outstanding_len(), 1);
    session.on_packet(Packet::Puback(PacketIdentifier(1)));
    assert_eq!(
        session.on_packet(Packet::Puback(PacketIdentifier(1))),
        vec![Action::Notify((Packet::Puback(PacketIdentifier(1)), None))]
    );
}

#[test]
fn an_identifier_in_use_is_passed_over_after_the_wraparound() {
    let mut session = active(ConnectCount::InitialConnect);
    assert_eq!(
        send(&mut session, publish(QoS::AtLeastOnce, None, &[0]), Some("kept")),
        vec![Action::Send(publish(QoS::AtLeastOnce, Some(1), &[0]))]
    );
    for pid in 2..=65535u16 {
        assert_eq!(
            send(&mut session, publish(QoS::AtLeastOnce, None, &[]), None),
            vec![Action::Send(publish(QoS::AtLeastOnce, Some(pid), &[]))]
        );
        session.on_packet(Packet::Puback(PacketIdentifier(pid)));
    }
    assert_eq!(session.outstanding_len(), 1);
    assert_eq!(
        send(&mut session, publish(QoS::AtLeastOnce, None, &[9]), None),
        vec![Action::Send(publish(QoS::AtLeastOnce, Some(2), &[9]))]
    );
    session.on_packet(Packet::Puback(PacketIdentifier(1)));
    assert_eq!(
        send(&mut session, publish(QoS::AtLeastOnce, None, &[9]), None),
        vec![Action::Send(publish(QoS::AtLeastOnce, Some(3), &[9]))]
    );
}

#[test]
fn identifiers_go_round_from_the_largest_to_one() {
    let mut session = active(ConnectCount::InitialConnect);
    for pid in 1..=65535u16 {
        assert_eq!(
            send(&mut session, subscribe(0), None),
            vec![Action::Send(subscribe(pid))]
        );
        session.on_packet(Packet::Puback(PacketIdentifier(pid)));
    }
    assert_eq!(send(&mut session, subscribe(0), None), vec![Action::Send(subscribe(1))]);
}

#[test]
fn an_incoming_publish_is_forwarded_and_acknowledged() {
    let mut session = active(ConnectCount::InitialConnect);
    assert_eq!(
        session.on_packet(publish(QoS::AtMostOnce, None, &[1])),
        vec![Action::Notify((publish(QoS::AtMostOnce, None, &[1]), None))]
    );
    assert_eq!(
        session.on_packet(publish(QoS::AtLeastOnce, Some(40), &[2])),
        vec![
            Action::Notify((publish(QoS::AtLeastOnce, Some(40), &[2]), None)),
            Action::Send(Packet::Puback(PacketIdentifier(40))),
        ]
    );
    assert_eq!(
        session.on_packet(publish(QoS::ExactlyOnce, Some(41), &[3])),
        vec![
            Action::Notify((publish(QoS::ExactlyOnce, Some(41), &[3]), None)),
            Action::Send(Packet::Puback(PacketIdentifier(41))),
        ]
    );
    assert_eq!(
        session.on_packet(publish(QoS::AtLeastOnce, None, &[4])),
        vec![Action::Notify((publish(QoS::AtLeastOnce, None, &[4]), None))]
    );
    assert_eq!(session.outstanding_len(), 0);
}

#[test]
fn packets_that_a_broker_does_not_send_are_ignored() {
    let mut session = active(ConnectCount::InitialConnect);
    assert_eq!(session.on_packet(Packet::Pingreq), vec![]);
    assert_eq!(session.on_packet(Packet::Disconnect), vec![]);
    assert_eq!(session.on_packet(subscribe(1)), vec![]);
    assert_eq!(session.on_packet(accepted()), vec![]);
    assert_eq!(
        session.on_packet(Packet::Connect(Connect { keep_alive: 1, client_id: "x".to_string() })),
        vec![]
    );
    assert_eq!(session.status(), Status::Active);
    assert_eq!(session.connect_count(), ConnectCount::ConnectedBefore(1));
}

#[test]
fn a_quiet_interval_is_followed_by_a_ping() {
    let mut session = active(ConnectCount::InitialConnect);
    assert_eq!(session.on_keep_alive(), vec![Action::Send(Packet::Pingreq)]);
    assert_eq!(
        session.on_packet(Packet::Pingresp),
        vec![Action::Notify((Packet::Pingresp, None))]
    );
    assert_eq!(session.on_timer(), vec![Action::Send(Packet::Pingreq)]);
    assert_eq!(session.status(), Status::Active);
}

#[test]
fn an_unanswered_ping_ends_the_session() {
    let mut session = active(ConnectCount::InitialConnect);
    send(&mut session, publish(QoS::AtLeastOnce, None, &[1]), None);
    assert_eq!(session.on_keep_alive(), vec![]);
    assert_eq!(session.on_keep_alive(), vec![Action::Send(Packet::Pingreq)]);
    assert_eq!(
        session.on_keep_alive(),
        vec![Action::Stop(ConnectError::PingTimeout, ConnectCount::ConnectedBefore(1))]
    );
    assert_eq!(session.status(), Status::Over);
    assert_eq!(session.outstanding_len(), 0);
}

#[test]
fn traffic_puts_the_ping_off() {
    let mut session = active(ConnectCount::InitialConnect);
    send(&mut session, publish(QoS::AtMostOnce, None, &[1]), None);
    assert_eq!(session.on_keep_alive(), vec![]);
    session.on_packet(publish(QoS::AtLeastOnce, Some(5), &[2]));
    assert_eq!(session.on_keep_alive(), vec![]);
    session.on_packet(publish(QoS::AtMostOnce, None, &[3]));
    assert_eq!(session.on_keep_alive(), vec![Action::Send(Packet::Pingreq)]);
}

#[test]
fn no_timer_runs_without_a_keep_alive_interval() {
    let (mut session, _) = Session::open(&options(0), ConnectCount::InitialConnect);
    assert_eq!(session.timer(), Some(10));
    session.on_packet(accepted());
    assert_eq!(session.timer(), None);
}

#[test]
fn a_halt_disconnects_and_ends_the_session() {
    let mut session = active(ConnectCount::ConnectedBefore(2));
    send(&mut session, publish(QoS::AtLeastOnce, None, &[1]), Some("pending"));
    assert_eq!(
        session.on_command(Command::Halt),
        Ok(vec![
            Action::Send(Packet::Disconnect),
            Action::Stop(ConnectError::Halt, ConnectCount::ConnectedBefore(3)),
        ])
    );
    assert_eq!(session.status(), Status::Over);
    assert_eq!(session.outstanding_len(), 0);
}

#[test]
fn nothing_is_executed_after_a_halt() {
    let mut session = active(ConnectCount::InitialConnect);
    session.on_command(Command::Halt).unwrap();
    let late = Command::Mqtt((publish(QoS::AtMostOnce, None, &[1]), None));
    assert_eq!(session.on_command(late.clone()), Err(late));
    assert_eq!(session.on_command(Command::Halt), Err(Command::Halt));
    assert_eq!(session.on_packet(publish(QoS::AtLeastOnce, Some(1), &[1])), vec![]);
    assert_eq!(session.on_packet(accepted()), vec![]);
    assert_eq!(session.on_keep_alive(), vec![]);
    assert_eq!(session.on_timer(), vec![]);
    assert_eq!(session.on_handshake_timeout(), vec![]);
    assert_eq!(session.on_transport_error(), vec![]);
    assert_eq!(session.status(), Status::Over);
}

#[test]
fn a_transport_failure_ends_the_session_and_discards_what_was_outstanding() {
    let mut session = active(ConnectCount::InitialConnect);
    send(&mut session, publish(QoS::AtLeastOnce, None, &[1]), Some("a"));
    send(&mut session, subscribe(0), None);
    assert_eq!(session.outstanding_len(), 2);
    assert_eq!(
        session.on_transport_error(),
        vec![Action::Stop(ConnectError::Transport, ConnectCount::ConnectedBefore(1))]
    );
    assert_eq!(session.status(), Status::Over);
    assert_eq!(session.outstanding_len(), 0);

    let (fresh, _) = Session::open(&options(5), session.connect_count());
    assert_eq!(fresh.outstanding_len(), 0);
    assert_eq!(fresh.connect_count(), ConnectCount::ConnectedBefore(1));
    let mut fresh = fresh;
    fresh.on_packet(accepted());
    assert_eq!(
        send(&mut fresh, publish(QoS::AtLeastOnce, None, &[1]), None),
        vec![Action::Send(publish(QoS::AtLeastOnce, Some(1), &[1]))]
    );
}

#[test]
fn a_transport_failure_during_the_handshake_reports_the_old_count() {
    let (mut session, _) = Session::open(&options(5), ConnectCount::InitialConnect);
    assert_eq!(
        session.on_transport_error(),
        vec![Action::Stop(ConnectError::Transport, ConnectCount::InitialConnect)]
    );
}

#[test]
fn packet_helpers_agree_with_the_packet_kinds() {
    assert!(publish(QoS::AtLeastOnce, None, &[]).needs_ack());
    assert!(publish(QoS::ExactlyOnce, None, &[]).needs_ack());
    assert!(!publish(QoS::AtMostOnce, None, &[]).needs_ack());
    assert!(subscribe(0).needs_ack());
    assert!(!Packet::Pingreq.needs_ack());
    assert!(!Packet::Puback(PacketIdentifier(1)).needs_ack());

    assert_eq!(
        publish(QoS::AtLeastOnce, None, &[1]).with_pid(PacketIdentifier(8)),
        publish(QoS::AtLeastOnce, Some(8), &[1])
    );
    assert_eq!(subscribe(0).with_pid(PacketIdentifier(8)), subscribe(8));
    assert_eq!(Packet::Pingresp.with_pid(PacketIdentifier(8)), Packet::Pingresp);
    assert_eq!(
        Packet::Puback(PacketIdentifier(1)).with_pid(PacketIdentifier(8)),
        Packet::Puback(PacketIdentifier(8))
    );

    assert_eq!(Packet::Puback(PacketIdentifier(3)).acked_pid(), Some(PacketIdentifier(3)));
    let suback = Packet::Suback(Suback { pid: PacketIdentifier(4), return_codes: vec![] });
    assert_eq!(suback.acked_pid(), Some(PacketIdentifier(4)));
    assert_eq!(publish(QoS::AtLeastOnce, Some(5), &[]).acked_pid(), None);
    assert_eq!(Packet::Pingresp.acked_pid(), None);
}
