use corepc_types::compact_size_decode;

fn decode(bytes: &[u8]) -> (u64, usize) {
    let mut slice = bytes;
    let v = compact_size_decode(&mut slice);
    (v, slice.len())
}

#[test]
fn compact_size_single_byte() {
    assert_eq!(decode(&[0x00]), (0, 0));
    assert_eq!(decode(&[0x01, 0xaa]), (1, 1));
    assert_eq!(decode(&[0xfc]), (252, 0));
}

#[test]
fn compact_size_two_byte_body() {
    assert_eq!(decode(&[0xfd, 0xfd, 0x00]), (253, 0));
    assert_eq!(decode(&[0xfd, 0xff, 0xff, 0x01, 0x02]), (0xffff, 2));
}

#[test]
fn compact_size_four_byte_body() {
    assert_eq!(decode(&[0xfe, 0x00, 0x00, 0x01, 0x00]), (0x1_0000, 0));
    assert_eq!(decode(&[0xfe, 0xff, 0xff, 0xff, 0xff, 0x07]), (0xffff_ffff, 1));
}

#[test]
fn compact_size_eight_byte_body() {
    assert_eq!(decode(&[0xff, 0x00, 0x00, 0x00, 0x00, 0x01, 0x00, 0x00, 0x00]), (0x1_0000_0000, 0));
    assert_eq!(decode(&[0xff, 0xff, 0xff, 0xff, 0xff, 0xff, 0xff, 0xff, 0xff]), (u64::MAX, 0));
}

#[test]
fn compact_size_leaves_the_rest() {
    let bytes = [0xfd, 0x34, 0x12, 0xde, 0xad];
    let mut slice = &bytes[..];
    assert_eq!(compact_size_decode(&mut slice), 0x1234);
    assert_eq!(slice, &[0xde, 0xad]);
    assert_eq!(compact_size_decode(&mut slice), 0xde);
    assert_eq!(slice, &[0xad]);
}

fn minimal_encoding(v: u64) -> Vec<u8> {
    if v < 0xfd {
        vec![v as u8]
    } else if v <= 0xffff {
        let mut e = vec![0xfd];
        e.extend_from_slice(&(v as u16).to_le_bytes());
        e
    } else if v <= 0xffff_ffff {
        let mut e = vec![0xfe];
        e.extend_from_slice(&(v as u32).to_le_bytes());
        e
    } else {
        let mut e = vec![0xff];
        e.extend_from_slice(&v.to_le_bytes());
        e
    }
}

#[test]
fn compact_size_minimal_encodings_read_back() {
    for v in [0u64, 1, 0xfc, 0xfd, 0xfe, 0xff, 0x100, 0xffff, 0x1_0000, 0xffff_ffff, 0x1_0000_0000, u64::MAX] {
        let mut e = minimal_encoding(v);
        let width = e.len();
        e.push(0x55);
        let mut slice = &e[..];
        assert_eq!(compact_size_decode(&mut slice), v);
        assert_eq!(slice, &[0x55]);
        assert_eq!(e.len() - slice.len(), width);
    }
}
