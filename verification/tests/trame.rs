use librobot::trame::demultiplex_id_cmd;
use librobot::trame::multiplex_id_cmd;
use librobot::trame::Trame;
use librobot::trame_reader::TrameReader;

/// Builds a trame from an identifier, a command, and data bytes pushed
/// one by one.
fn make_trame(id: u8, cmd: u8, data: &[u8]) -> Trame {
    let mut t = Trame::default();
    t.id = id;
    t.cmd = cmd;
    for b in data {
        let _ = t.push(*b);
    }
    t
}

fn make_trame_with_pnum(id: u8, cmd: u8, pnum: u8, data: &[u8]) -> Trame {
    let mut t = make_trame(id, cmd, data);
    t.set_pnum(Some(pnum));
    t
}

/// The wire image of a trame, the packet number inserted after the type
/// byte.
fn trame_to_u8_with_pnum(t: Trame, pnum: u8) -> [u8; 16] {
    let mut result = [0; 16];
    let (arr, size) = t.into_bytes();
    for i in 0..16 {
        match i {
            0..=3 => result[i] = arr[i],
            4 => result[i] = pnum,
            5..=15 if i < size + 1 => result[i] = arr[i - 1],
            _ => {}
        }
    }
    result
}

#[test]
fn trame_macro() {
    let t = make_trame(0x1, 0x11, &[0, 0, 0]);
    assert_eq!(
        t,
        Trame {
            id: 0x01,
            cmd: 0x11,
            pnum: None,
            data_length: 3,
            data: [0, 0, 0, 0, 0, 0, 0, 0]
        }
    );
}

#[test]
fn trame_pong() {
    assert!(Trame::new_pong(5, None).is_pong());
}

#[test]
fn trame_ack() {
    let mut result = make_trame(0, 0, &[]);
    result.set_pnum(Some(0x96));
    assert_eq!(Trame::new_ack(0x96), result);
}

#[test]
fn trame_multiplex_id_cmd() {
    let (id, cmd) = (6, 9);
    let (m_id, m_cmd) = multiplex_id_cmd(id, cmd);
    let (c_id, c_cmd) = demultiplex_id_cmd(m_id, m_cmd);
    assert_eq!((id, cmd), (c_id, c_cmd));
}

#[test]
fn trame_conversion() {
    let t = make_trame(0xFF, 0x11, &[0x55, 0x66, 0x1, 2, 3, 4, 5, 6]);
    let (arr, size) = t.into_bytes();
    assert_eq!(
        &[0xAC, 0xDC, 0xAB, 0xBA, 0xFF, 0x11, 8, 0x55, 0x66, 0x1, 2, 3, 4, 5, 6],
        &arr[0..size]
    );
    let t = make_trame(0xDD, 0xCC, &[]);
    let (arr, size) = t.into_bytes();
    assert_eq!(&[0xAC, 0xDC, 0xAB, 0xBA, 0xDD, 0xCC, 0], &arr[0..size]);
}

#[test]
fn trame_push_overflows_after_eight() {
    let mut t = Trame::default();
    for i in 0..8 {
        assert_eq!(t.push(i), Ok(()));
    }
    assert_eq!(t.push(9), Err(()));
    assert_eq!(t.data_length, 8);
    assert_eq!(t.data, [0, 1, 2, 3, 4, 5, 6, 7]);
}

#[test]
fn trame_new_from_slice_truncates() {
    let t = Trame::new_from_slice(0x80, 0xAA, None, &[0, 1, 2, 3, 4, 5]);
    let t2 = Trame {
        id: 0x80,
        cmd: 0xAA,
        pnum: None,
        data_length: 6,
        data: [0, 1, 2, 3, 4, 5, 0, 0],
    };
    assert_eq!(t, t2);
    let t3 = Trame::new_from_slice(1, 2, None, &[9, 9, 9, 9, 9, 9, 9, 9, 9, 9]);
    assert_eq!(t3.data_length, 8);
}

#[test]
fn trame_reader_buffer() {
    let mut reader = TrameReader::new();
    assert_eq!(reader.pop_trame(), None);
}

#[test]
fn trame_reader_standard_trame() {
    let mut reader = TrameReader::new();
    {
        let t1 = make_trame_with_pnum(0xAA, 0xBB, 0x99, &[5, 6, 7, 8, 9, 10]);
        let mut arr = trame_to_u8_with_pnum(t1, t1.pnum.unwrap());
        reader.parse(&arr);
        assert_eq!(reader.pop_trame().unwrap(), t1);
        assert_eq!(reader.get_buffer_size(), 0);
        let t2 = make_trame_with_pnum(0xFF, 0x00, 0x00, &[]);
        arr = trame_to_u8_with_pnum(t2, t2.pnum.unwrap());
        reader.parse(&arr);
        assert_eq!(reader.pop_trame().unwrap(), t2);
        assert_eq!(reader.get_buffer_size(), 0);
        let t3 = make_trame_with_pnum(0x00, 0x00, 0xFF, &[1, 2, 3, 4, 5, 6, 7, 8]);
        arr = trame_to_u8_with_pnum(t3, t3.pnum.unwrap());
        reader.parse(&arr);
        assert_eq!(reader.pop_trame().unwrap(), t3);
        assert_eq!(reader.get_buffer_size(), 0);
    }
}

#[test]
fn trame_reader_special_trame() {
    let mut reader = TrameReader::new();
    let arr_header = [0xAC, 0xDC, 0xAB, 0xBA, 0x00, 0xFF, 0xFF, 0xFF, 0x9];
    let mut data: [u8; 107] = [0; 107];
    data[0..8].clone_from_slice(&arr_header[0..8]);
    reader.parse(&data);
    assert_eq!(reader.pop_trame(), None);
    assert_eq!(reader.get_buffer_size(), 0);
}

#[test]
fn trame_reader_split_stream() {
    let mut reader = TrameReader::new();
    let t = make_trame_with_pnum(0x12, 0x03, 0x42, &[7, 8, 9]);
    let wire = trame_to_u8_with_pnum(t, 0x42);
    reader.parse(&wire[0..6]);
    assert_eq!(reader.get_buffer_size(), 0);
    reader.parse(&wire[6..11]);
    assert_eq!(reader.get_buffer_size(), 1);
    assert_eq!(reader.pop_trame().unwrap(), t);
}
