use roaring::RoaringBitmap;
use sui_wire::adaptor::{DeserializeAs, Readable, SerializeAs, Shape};
use sui_wire::bitmap::SuiBitmap;
use sui_wire::wire::Encoded;

fn written(bitmap: &RoaringBitmap) -> Vec<u8> {
    match SuiBitmap::serialize_as(bitmap, false) {
        Ok(Encoded::Bytes(bytes)) => bytes,
        other => panic!("bytes expected, got {:?}", other),
    }
}

fn read(bytes: &[u8]) -> RoaringBitmap {
    SuiBitmap::deserialize_as(&Encoded::Bytes(bytes.to_vec()), false).unwrap()
}

// The layout of the format: a cookie, the number of containers, then for
// each container its key and its cardinality less one, then the offsets of
// the containers, then the containers.
const COOKIE: [u8; 4] = [0x3a, 0x30, 0x00, 0x00];

#[test]
fn empty_bitmap_is_cookie_and_zero_count() {
    let bytes = written(&RoaringBitmap::new());
    assert_eq!(bytes, vec![0x3a, 0x30, 0, 0, 0, 0, 0, 0]);
    assert!(read(&bytes).is_empty());
}

#[test]
fn bitmap_of_zero_has_one_array_container() {
    let mut bitmap = RoaringBitmap::new();
    bitmap.insert(0);
    let bytes = written(&bitmap);
    let mut want = COOKIE.to_vec();
    want.extend([1, 0, 0, 0]); // one container
    want.extend([0, 0, 0, 0]); // key 0, cardinality 1
    want.extend([16, 0, 0, 0]); // the container starts at byte 16
    want.extend([0, 0]); // the value 0
    assert_eq!(bytes, want);
    assert_eq!(read(&bytes).iter().collect::<Vec<u32>>(), vec![0]);
}

#[test]
fn bitmap_of_largest_value_has_the_last_key() {
    let mut bitmap = RoaringBitmap::new();
    bitmap.insert(u32::MAX);
    let bytes = written(&bitmap);
    let mut want = COOKIE.to_vec();
    want.extend([1, 0, 0, 0]);
    want.extend([0xff, 0xff, 0, 0]); // key 65535, cardinality 1
    want.extend([16, 0, 0, 0]);
    want.extend([0xff, 0xff]); // the low half of the value
    assert_eq!(bytes, want);
    assert_eq!(read(&bytes).iter().collect::<Vec<u32>>(), vec![u32::MAX]);
}

#[test]
fn dense_range_is_written_as_a_bitset() {
    let bitmap: RoaringBitmap = (0..5000u32).collect();
    let bytes = written(&bitmap);
    let mut want = COOKIE.to_vec();
    want.extend([1, 0, 0, 0]);
    want.extend([0, 0, 0x87, 0x13]); // key 0, cardinality 5000
    want.extend([16, 0, 0, 0]);
    let mut bits = vec![0u8; 8192];
    for b in bits.iter_mut().take(625) {
        *b = 0xff; // 625 bytes of eight bits are 5000 values
    }
    want.extend(bits);
    assert_eq!(bytes.len(), 16 + 8192);
    assert_eq!(bytes, want);
    assert_eq!(read(&bytes), bitmap);
}

#[test]
fn two_containers_are_written_in_key_order() {
    let mut bitmap = RoaringBitmap::new();
    bitmap.insert(0x0002_0005);
    bitmap.insert(7);
    bitmap.insert(3);
    let bytes = written(&bitmap);
    let mut want = COOKIE.to_vec();
    want.extend([2, 0, 0, 0]);
    want.extend([0, 0, 1, 0]); // key 0, two values
    want.extend([2, 0, 0, 0]); // key 2, one value
    want.extend([24, 0, 0, 0]);
    want.extend([28, 0, 0, 0]);
    want.extend([3, 0, 7, 0]);
    want.extend([5, 0]);
    assert_eq!(bytes, want);
    assert_eq!(read(&bytes).iter().collect::<Vec<u32>>(), vec![3, 7, 0x0002_0005]);
}

#[test]
fn bitmap_reads_back_what_it_wrote() {
    let samples: Vec<RoaringBitmap> = vec![
        RoaringBitmap::new(),
        [0u32].into_iter().collect(),
        [u32::MAX].into_iter().collect(),
        (0..5000u32).collect(),
        (0..100_000u32).filter(|n| n % 3 == 0).collect(),
        [1u32, 65_536, 1 << 31, u32::MAX - 1].into_iter().collect(),
    ];
    type A = Readable<SuiBitmap, SuiBitmap>;
    for bitmap in samples {
        for human_readable in [true, false] {
            let encoded = <A as SerializeAs<RoaringBitmap>>::serialize_as(&bitmap, human_readable).unwrap();
            assert!(matches!(encoded, Encoded::Bytes(_)));
            let back = <A as DeserializeAs<RoaringBitmap>>::deserialize_as(&encoded, human_readable).unwrap();
            assert_eq!(back, bitmap);
        }
    }
}

#[test]
fn bitmap_refuses_bytes_that_are_no_bitmap() {
    for bad in [vec![], vec![1, 2, 3], vec![0xff; 8], vec![0x3a, 0x30, 0, 0, 1, 0, 0, 0]] {
        let e = SuiBitmap::deserialize_as(&Encoded::Bytes(bad.clone()), false).unwrap_err();
        assert!(e.message().starts_with("byte deserialization failed, cause by: "));
        assert!(e.detail.len() > 0);
    }
}

#[test]
fn bitmap_refuses_text() {
    let e = SuiBitmap::deserialize_as(&Encoded::Text("OjAAAAAAAAA=".to_string()), true).unwrap_err();
    assert_eq!(e.detail, "invalid type: text, expected bytes");
    assert_eq!(SuiBitmap::expects(true), Shape::Bytes);
    assert_eq!(SuiBitmap::expects(false), Shape::Bytes);
}

#[test]
fn written_bitmap_is_wrapped_as_bytes_and_failure_as_encode_error() {
    assert_eq!(SuiBitmap::wrap_written(Ok(vec![1, 2])), Ok(Encoded::Bytes(vec![1, 2])));
    let failure = std::io::Error::new(std::io::ErrorKind::Other, "disk full");
    let e = SuiBitmap::wrap_written(Err(failure)).unwrap_err();
    assert!(e.message().starts_with("byte serialization failed"));
    assert!(e.detail.contains("disk full"));
}

// A bitmap in the layout with run containers, in which the one container has
// no run at all: a cookie that counts one container, the flag that it is a
// run container, its key and cardinality, and a run count of zero.
const EMPTY_RUN_CONTAINER: [u8; 11] = [0x3b, 0x30, 0, 0, 0x01, 0, 0, 0, 0, 0, 0];

#[test]
fn bitmap_with_an_empty_container_is_read_as_the_empty_set_and_written_back() {
    let bitmap = read(&EMPTY_RUN_CONTAINER);
    assert_eq!(bitmap.len(), 0);
    assert_eq!(bitmap.iter().count(), 0);
    // What leaves the adaptor is laid out as the empty bitmap is.
    assert!(bitmap.is_empty());
    assert_eq!(bitmap, RoaringBitmap::new());
    let bytes = written(&bitmap);
    assert_eq!(bytes, vec![0x3a, 0x30, 0, 0, 0, 0, 0, 0]);
    assert!(read(&bytes).is_empty());
}

#[test]
fn bitmap_with_an_empty_container_from_elsewhere_is_written() {
    let odd = RoaringBitmap::deserialize_from(&EMPTY_RUN_CONTAINER[..]).unwrap();
    assert!(!odd.is_empty());
    assert_eq!(odd.len(), 0);
    let bytes = written(&odd);
    assert_eq!(bytes, vec![0x3a, 0x30, 0, 0, 0, 0, 0, 0]);
    assert!(read(&bytes).is_empty());
}

// Two thousand runs of three values each in one container: six thousand
// values, which the reader keeps in the layout of a small container.
fn many_short_runs() -> (Vec<u8>, Vec<u32>) {
    let mut bytes = vec![0x3b, 0x30, 0, 0, 0x01];
    bytes.extend([0, 0]); // key 0
    bytes.extend(5999u16.to_le_bytes()); // cardinality 6000
    bytes.extend(2000u16.to_le_bytes()); // the number of runs
    let mut values = vec![];
    for i in 0..2000u16 {
        bytes.extend((4 * i).to_le_bytes()); // where the run starts
        bytes.extend(2u16.to_le_bytes()); // how many values follow the first
        for j in 0..3u32 {
            values.push(4 * u32::from(i) + j);
        }
    }
    (bytes, values)
}

#[test]
fn bitmap_from_runs_is_written_as_a_bitset_that_reads_back() {
    let (input, values) = many_short_runs();
    let bitmap = read(&input);
    assert_eq!(bitmap.iter().collect::<Vec<u32>>(), values);
    let by_insertion: RoaringBitmap = values.iter().copied().collect();
    assert_eq!(bitmap, by_insertion);
    let bytes = written(&bitmap);
    assert_eq!(bytes, written(&by_insertion));
    assert_eq!(bytes.len(), 16 + 8192);
    assert_eq!(&bytes[..16], &[0x3a, 0x30, 0, 0, 1, 0, 0, 0, 0, 0, 0x6f, 0x17, 16, 0, 0, 0]);
    assert_eq!(bytes[16], 0b0111_0111);
    assert_eq!(read(&bytes).iter().collect::<Vec<u32>>(), values);
}

#[test]
fn bitmap_from_runs_read_elsewhere_is_written_the_same() {
    let (input, values) = many_short_runs();
    let odd = RoaringBitmap::deserialize_from(&input[..]).unwrap();
    let by_insertion: RoaringBitmap = values.iter().copied().collect();
    assert_eq!(written(&odd), written(&by_insertion));
    assert_eq!(read(&written(&odd)).iter().collect::<Vec<u32>>(), values);
}

#[test]
fn full_container_is_written_and_read_back() {
    let bitmap: RoaringBitmap = (0..65536u32).collect();
    let bytes = written(&bitmap);
    assert_eq!(&bytes[..16], &[0x3a, 0x30, 0, 0, 1, 0, 0, 0, 0, 0, 0xff, 0xff, 16, 0, 0, 0]);
    assert!(bytes[16..].iter().all(|b| *b == 0xff));
    assert_eq!(bytes.len(), 16 + 8192);
    assert_eq!(read(&bytes), bitmap);
}
