use torresmo::packet::decode;
use torresmo::stream::{Addr, UtpSocket, UtpStream};

fn peer() -> Addr {
    Addr::new(127, 0, 0, 1, 8080)
}

fn local_socket() -> UtpSocket {
    UtpSocket {
        local: Addr::new(127, 0, 0, 1, 35000),
    }
}

#[test]
fn test_write_increments_seq_nr() {
    let mut stream = UtpStream::new(local_socket(), peer());
    assert_eq!(stream.seq_nr, 1);
    let _ = stream.write(&[1, 2, 3]);
    assert_eq!(stream.seq_nr, 2);
    let _ = stream.write(&[]);
    assert_eq!(stream.seq_nr, 3);
    let _ = stream.write(&[9]);
    assert_eq!(stream.seq_nr, 4);
}

#[test]
fn test_seq_nr_wraps_at_65535() {
    let mut stream = UtpStream {
        socket: local_socket(),
        connected_to: peer(),
        connection_id: 77,
        seq_nr: 65535,
        ack_nr: 0,
    };
    let dgram = stream.write(&[5]);
    assert_eq!(stream.seq_nr, 0);
    let sent = decode(&dgram).unwrap();
    assert_eq!(sent.header.seq_nr, 65535);
}

#[test]
fn test_read_filters_foreign_peer() {
    let stream = UtpStream::new(local_socket(), peer());
    let stranger = Addr::new(10, 0, 0, 7, 9999);
    // A 120-byte datagram carries 100 payload bytes past the 20-byte header.
    assert_eq!(stream.filter_read(120, stranger), 0);
    assert_eq!(stream.filter_read(120, peer()), 100);
    let same_ip_other_port = Addr::new(127, 0, 0, 1, 8081);
    assert_eq!(stream.filter_read(33, same_ip_other_port), 0);
    // A bare header from the peer is a legitimate empty read.
    assert_eq!(stream.filter_read(20, peer()), 0);
}

#[test]
fn test_read_length_matches_written_payload() {
    let mut sender = UtpStream::new(local_socket(), peer());
    let dgram = sender.write(&[1, 2, 3, 4, 5]);
    let receiver = UtpStream::new(local_socket(), peer());
    assert_eq!(receiver.filter_read(dgram.len(), peer()), 5);
}

#[test]
fn test_connection_id_distribution() {
    let mut ids = Vec::new();
    for _ in 0..128 {
        let stream = UtpStream::new(local_socket(), peer());
        ids.push(stream.connection_id);
    }
    let first = ids[0];
    assert!(ids.iter().any(|&id| id != first), "connection ids are constant");
    let mut distinct = ids.clone();
    distinct.sort_unstable();
    distinct.dedup();
    // 128 uniform 16-bit draws collide rarely; far more than half must differ.
    assert!(distinct.len() > 64);
}

#[test]
fn test_connect_sends_syn() {
    let (stream, syn) = local_socket().connect(peer());
    assert_eq!(stream.seq_nr, 2);
    assert_eq!(stream.ack_nr, 0);
    assert_eq!(stream.connected_to, peer());
    let packet = decode(&syn).unwrap();
    assert_eq!(packet.header.type_ver >> 4, 4); // SYN
    assert_eq!(packet.header.type_ver & 0x0F, 1); // version 1
    assert_eq!(packet.header.connection_id, stream.connection_id);
    assert_eq!(packet.header.seq_nr, 1);
    assert_eq!(packet.header.ack_nr, 0);
    assert!(packet.payload.is_empty());
}

#[test]
fn test_client_scenario() {
    // Connect to 127.0.0.1:8080, write the single byte [0], disconnect.
    let socket = local_socket();
    let (mut stream, _syn) = socket.connect(peer());
    let dgram = stream.write(&[0]);
    // What the server decodes from that datagram:
    let packet = decode(&dgram).unwrap();
    assert_eq!(packet.header.type_ver >> 4, 0); // DATA
    assert_eq!(packet.header.seq_nr, 2); // the SYN consumed seq 1
    assert_eq!(packet.payload, vec![0]);
    let returned = stream.disconnect();
    assert_eq!(returned, socket);
}
