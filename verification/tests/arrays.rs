use move_core_types::account_address::AccountAddress;
use sui_wire::adaptor::{DeserializeAs, Readable, SerializeAs, Shape};
use sui_wire::codec::{Base64, Bytes, Hex};
use sui_wire::convert::{to_array, try_from_vec, ToArray, TryFromVec};
use sui_wire::object_id::{HexObjectId, ObjectId, OBJECT_ID_LENGTH};
use sui_wire::wire::{DecodeError, Encoded};

fn text(s: &str) -> Encoded {
    Encoded::Text(s.to_string())
}

fn wrong_lengths_fail<const N: usize>() {
    for len in [0usize, 1, 2, 15, 16, 17, 31, 32, 33, 63, 64, 65] {
        let bytes: Vec<u8> = (0..len).map(|i| i as u8).collect();
        let out = to_array::<N>(&bytes);
        let through =
            <ToArray<Bytes> as DeserializeAs<[u8; N]>>::deserialize_as(&Encoded::Bytes(bytes.clone()), false);
        assert_eq!(out, through);
        if len == N {
            assert_eq!(out.unwrap().to_vec(), bytes);
        } else {
            let e = out.unwrap_err();
            assert_eq!(e.detail, format!("invalid array length {}, expecting {}", len, N));
        }
    }
}

#[test]
fn to_array_fails_on_any_other_length() {
    wrong_lengths_fail::<0>();
    wrong_lengths_fail::<1>();
    wrong_lengths_fail::<16>();
    wrong_lengths_fail::<32>();
    wrong_lengths_fail::<64>();
}

#[test]
fn to_array_error_has_the_cause_in_its_message() {
    let e = to_array::<4>(&vec![1, 2, 3]).unwrap_err();
    assert_eq!(
        e.message(),
        "byte deserialization failed, cause by: invalid array length 3, expecting 4"
    );
}

#[test]
fn to_array_hands_on_the_inner_failure() {
    let out = <ToArray<Hex> as DeserializeAs<[u8; 2]>>::deserialize_as(&text("xyz"), true);
    assert_eq!(out, Err(DecodeError::new("InvalidInput".to_string())));
    assert_eq!(<ToArray<Hex> as DeserializeAs<[u8; 2]>>::expects(true), Shape::Text);
}

#[test]
fn to_array_round_trips_through_both_codecs() {
    type A = Readable<ToArray<Base64>, ToArray<Bytes>>;
    let value: [u8; 16] = [7; 16];
    for human_readable in [true, false] {
        let written = <A as SerializeAs<[u8; 16]>>::serialize_as(&value, human_readable).unwrap();
        let back = <A as DeserializeAs<[u8; 16]>>::deserialize_as(&written, human_readable);
        assert_eq!(back, Ok(value));
    }
}

#[test]
fn try_from_vec_converts_by_the_target_type() {
    let bytes = vec![3u8; AccountAddress::LENGTH];
    let made: AccountAddress = try_from_vec(bytes.clone()).unwrap();
    assert_eq!(made.to_vec(), bytes);
    let through: AccountAddress = <TryFromVec<Bytes> as DeserializeAs<AccountAddress>>::deserialize_as(
        &Encoded::Bytes(bytes.clone()),
        false,
    )
    .unwrap();
    assert_eq!(through, made);
}

#[test]
fn try_from_vec_gives_the_conversion_error_in_its_own_words() {
    let out: Result<AccountAddress, DecodeError> = try_from_vec(vec![1, 2, 3]);
    let e = out.unwrap_err();
    assert_eq!(e.detail, "unable to parse AccoutAddress");
    assert_eq!(
        e.message(),
        "byte deserialization failed, cause by: unable to parse AccoutAddress"
    );
    let inner = <TryFromVec<Hex> as DeserializeAs<AccountAddress>>::deserialize_as(&text("q"), true);
    assert_eq!(inner.unwrap_err().detail, "InvalidInput");
}

#[test]
fn try_from_vec_writes_through_the_inner_adaptor() {
    let data = vec![1u8, 2];
    assert_eq!(
        <TryFromVec<Hex> as SerializeAs<Vec<u8>>>::serialize_as(&data, true),
        Ok(text("0102"))
    );
    assert_eq!(
        <ToArray<Hex> as SerializeAs<Vec<u8>>>::serialize_as(&data, true),
        Ok(text("0102"))
    );
}

fn sample_id() -> ObjectId {
    let mut bytes = [0u8; 32];
    for (i, b) in bytes.iter_mut().enumerate() {
        *b = (i as u8).wrapping_mul(7).wrapping_add(0xa1);
    }
    ObjectId::new(bytes)
}

#[test]
fn object_id_is_written_as_lowercase_hex() {
    assert_eq!(OBJECT_ID_LENGTH, 32);
    let id = ObjectId::new([0xab; 32]);
    let out = HexObjectId::serialize_as(&id, true);
    assert_eq!(out, Ok(text(&"ab".repeat(32))));
    assert_eq!(id.into_bytes(), [0xab; 32]);
    assert_eq!(id.as_bytes(), &[0xab; 32]);
}

#[test]
fn object_id_reads_with_and_without_prefix() {
    let id = sample_id();
    let Encoded::Text(hex) = HexObjectId::serialize_as(&id, true).unwrap() else {
        panic!("text expected")
    };
    assert_eq!(hex.len(), 64);
    let plain = HexObjectId::deserialize_as(&text(&hex), true);
    let prefixed = HexObjectId::deserialize_as(&text(&format!("0x{}", hex)), true);
    let upper = HexObjectId::deserialize_as(&text(&hex.to_uppercase()), true);
    assert_eq!(plain, Ok(id));
    assert_eq!(prefixed, plain);
    assert_eq!(upper, plain);
    assert_eq!(HexObjectId::expects(true), Shape::Text);
    assert_eq!(HexObjectId::expects(false), Shape::Text);
}

#[test]
fn object_id_refuses_malformed_hex() {
    let odd = "a".repeat(63);
    let not_hex = format!("{}g", "a".repeat(63));
    for bad in [odd.as_str(), not_hex.as_str(), "0x1", "xyz"] {
        let e = HexObjectId::deserialize_as(&text(bad), true).expect_err(bad);
        assert_eq!(e.message(), "byte deserialization failed, cause by: InvalidInput");
    }
}

#[test]
fn object_id_refuses_other_lengths() {
    let short = "ab".repeat(31);
    let long = format!("0x{}", "ab".repeat(33));
    assert_eq!(
        HexObjectId::deserialize_as(&text(&short), true).unwrap_err().message(),
        "byte deserialization failed, cause by: invalid array length 31, expecting 32"
    );
    assert_eq!(
        HexObjectId::deserialize_as(&text(&long), true).unwrap_err().detail,
        "invalid array length 33, expecting 32"
    );
    assert_eq!(
        HexObjectId::deserialize_as(&text("0x01"), true).unwrap_err().detail,
        "invalid array length 1, expecting 32"
    );
    assert_eq!(
        HexObjectId::deserialize_as(&text(""), true).unwrap_err().detail,
        "invalid array length 0, expecting 32"
    );
    assert_eq!(
        HexObjectId::deserialize_as(&Encoded::Bytes(vec![0; 32]), false).unwrap_err().detail,
        "invalid type: bytes, expected text"
    );
}

#[test]
fn object_id_round_trips_behind_readable() {
    type A = Readable<HexObjectId, HexObjectId>;
    let id = sample_id();
    for human_readable in [true, false] {
        let written = <A as SerializeAs<ObjectId>>::serialize_as(&id, human_readable).unwrap();
        assert_eq!(<A as DeserializeAs<ObjectId>>::deserialize_as(&written, human_readable), Ok(id));
    }
}
