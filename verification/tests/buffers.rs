use memsecurity::MemSecurityErr;
use memsecurity::ToBlake3Hash;
use memsecurity::ZeroizeArray;
use memsecurity::ZeroizeArrayVec;
use memsecurity::ZeroizeArrayVecBytes;
use memsecurity::ZeroizeByte;
use memsecurity::ZeroizeBytes;
use memsecurity::ZeroizeBytesArray;

fn expect_err<T>(outcome: Result<T, MemSecurityErr>) -> MemSecurityErr {
    match outcome {
        Ok(_) => panic!("expected an error"),
        Err(e) => e,
    }
}

#[test]
fn zeroize_byte_basics() {
    let mut byte = ZeroizeByte::new(0x5A);
    assert_eq!(*byte.expose_borrowed(), 0x5A);
    assert_eq!(byte.expose_owned(), 0x5A);
    byte.set(0x10);
    assert_eq!(byte.expose_owned(), 0x10);
    assert!(byte.clone() == byte);
    assert!(!(byte == ZeroizeByte::new_zeroed()));
    byte.zeroize();
    assert_eq!(byte.expose_owned(), 0);
    assert!(byte.own() == ZeroizeByte::new_zeroed());
}

#[test]
fn zeroize_byte_csprng_constructs() {
    let byte = ZeroizeByte::csprng();
    let _ = byte.expose_owned();
}

#[test]
fn zeroize_array_constructors_and_fill() {
    let array = ZeroizeArray::<4>::new([1, 2, 3, 4]);
    assert_eq!(array.expose_borrowed(), &[1, 2, 3, 4]);
    assert_eq!(array.expose_owned(), [1, 2, 3, 4]);

    let zeroed = ZeroizeArray::<4>::new_zeroed();
    assert_eq!(zeroed.expose_borrowed(), &[0; 4]);

    let filled = array.fill_from_array([9, 8, 7, 6]);
    assert_eq!(filled.expose_borrowed(), &[9, 8, 7, 6]);

    let mut borrowed = ZeroizeArray::<4>::new_zeroed();
    borrowed.fill_from_array_borrowed([4, 4, 4, 4]);
    assert_eq!(borrowed.expose_borrowed(), &[4, 4, 4, 4]);

    let mut indexed = ZeroizeArray::<4>::new_zeroed();
    indexed.insert(2, 0xFF);
    assert_eq!(indexed.expose_borrowed(), &[0, 0, 0xFF, 0]);
}

#[test]
fn zeroize_array_slice_length_errors() {
    let err = expect_err(ZeroizeArray::<4>::new_from_slice(&[1, 2, 3]));
    assert_eq!(
        err,
        MemSecurityErr::InvalidSliceLength {
            expected: 4,
            found: 3,
        }
    );

    let ok = ZeroizeArray::<4>::new_from_slice(&[1, 2, 3, 4]).unwrap();
    assert_eq!(ok.expose_borrowed(), &[1, 2, 3, 4]);

    let refilled = ok.fill_from_slice(&[5, 6, 7, 8]).unwrap();
    assert_eq!(refilled.expose_borrowed(), &[5, 6, 7, 8]);
    assert_eq!(
        expect_err(refilled.clone().fill_from_slice(&[1])),
        MemSecurityErr::InvalidSliceLength {
            expected: 4,
            found: 1,
        }
    );

    let mut in_place = ZeroizeArray::<4>::new_zeroed();
    in_place.fill_from_slice_borrowed(&[2, 2, 2, 2]).unwrap();
    assert_eq!(in_place.expose_borrowed(), &[2, 2, 2, 2]);
    assert_eq!(
        expect_err(in_place.fill_from_slice_borrowed(&[1, 2])),
        MemSecurityErr::InvalidSliceLength {
            expected: 4,
            found: 2,
        }
    );
    assert_eq!(in_place.expose_borrowed(), &[2, 2, 2, 2]);
}

#[test]
fn zeroize_array_zeroization_observable() {
    let mut array = ZeroizeArray::<8>::new([0xAA; 8]);
    array.zeroize();
    assert_eq!(array.expose_borrowed(), &[0u8; 8]);
}

#[test]
fn zeroize_array_equality_is_hash_based() {
    let left = ZeroizeArray::<3>::new([1, 2, 3]);
    let right = ZeroizeArray::<3>::new([1, 2, 3]);
    let other = ZeroizeArray::<3>::new([1, 2, 4]);
    assert!(left == right);
    assert!(!(left == other));
}

#[test]
fn to_blake3_hash_matches_reference_digest() {
    let array = ZeroizeArray::<8>::new(*b"abcdefgh");
    let digest = array.hash();
    let reference = blake3::hash(b"abcdefgh");
    assert_eq!(digest.expose_borrowed(), reference.as_bytes());
}

#[test]
fn variable_length_buffers_hash_their_contents() {
    let reference = blake3::hash(b"redacted");
    let buffer = ZeroizeBytes::new_with_data(b"redacted");
    assert_eq!(buffer.hash().expose_borrowed(), reference.as_bytes());
    let sized = ZeroizeBytesArray::<8>::new_with_data(*b"redacted");
    assert_eq!(sized.hash().expose_borrowed(), reference.as_bytes());
}

#[test]
fn zeroize_bytes_array_operations() {
    let empty = ZeroizeBytesArray::<4>::new();
    assert_eq!(empty.expose_borrowed().len(), 0);

    let data = ZeroizeBytesArray::<4>::new_with_data([1, 2, 3, 4]);
    assert_eq!(data.expose_borrowed().as_ref(), &[1, 2, 3, 4]);
    assert!(data.clone() == data);

    let replaced = data.set([5, 6, 7, 8]);
    assert_eq!(replaced.expose_borrowed().as_ref(), &[5, 6, 7, 8]);

    let mut with_byte = ZeroizeBytesArray::<4>::new_with_data([1, 2, 3, 4]);
    with_byte.set_byte(9);
    assert_eq!(with_byte.expose_borrowed().as_ref(), &[1, 2, 3, 4, 9]);

    let mut extra = bytes::BytesMut::new();
    bytes::BufMut::put_slice(&mut extra, &[7, 7]);
    let replaced_from_buffer = ZeroizeBytesArray::<4>::new_with_data([1, 2, 3, 4]).set_bytes_mut(extra);
    assert_eq!(replaced_from_buffer.expose_borrowed().as_ref(), &[7, 7]);

    let reserved = ZeroizeBytesArray::<4>::with_additional_capacity(16);
    assert_eq!(reserved.expose_borrowed().len(), 0);

    let random = ZeroizeBytesArray::<16>::new_with_csprng();
    assert_eq!(random.expose_borrowed().len(), 16);

    let mut to_clear = ZeroizeBytesArray::<4>::new_with_data([1, 2, 3, 4]);
    to_clear.zeroize();
    assert_eq!(to_clear.expose_borrowed().len(), 0);
}

#[test]
fn zeroize_bytes_operations() {
    let mut buffer = ZeroizeBytes::new();
    assert_eq!(buffer.expose_borrowed().len(), 0);

    buffer.set(&[1, 2, 3]);
    assert_eq!(buffer.expose_borrowed().as_ref(), &[1, 2, 3]);

    buffer.set_byte(4);
    assert_eq!(buffer.expose_borrowed().as_ref(), &[1, 2, 3, 4]);

    buffer.set(&[9]);
    assert_eq!(buffer.expose_borrowed().as_ref(), &[9]);

    let mut extra = bytes::BytesMut::new();
    bytes::BufMut::put_slice(&mut extra, &[5, 5]);
    buffer.set_bytes_mut(extra);
    assert_eq!(buffer.expose_borrowed().as_ref(), &[5, 5]);

    let copy = buffer.clone();
    assert!(copy == buffer);

    buffer.zeroize();
    assert_eq!(buffer.expose_borrowed().len(), 0);
    assert!(!(copy == buffer));

    let with_data = ZeroizeBytes::new_with_data(&[8, 8, 8]);
    assert_eq!(with_data.expose_borrowed().as_ref(), &[8, 8, 8]);
    let with_capacity = ZeroizeBytes::new_with_capacity(128);
    assert_eq!(with_capacity.expose_borrowed().len(), 0);
}

#[test]
fn zeroize_array_vec_bytes_operations() {
    let mut vector = ZeroizeArrayVecBytes::<4>::new();
    assert_eq!(vector.expose_borrowed().len(), 0);
    vector.fill_from_slice([1, 2, 3, 4]);
    assert_eq!(vector.expose_borrowed().as_slice(), &[1, 2, 3, 4]);

    let built = ZeroizeArrayVecBytes::<4>::new_with([4, 3, 2, 1]);
    assert_eq!(built.expose_owned(), vec![4, 3, 2, 1]);
    assert!(built.clone() == built);
    assert!(!(built == vector));

    let mut grown = ZeroizeArrayVecBytes::<4>::new();
    grown.push(1);
    grown.insert(0, 2);
    assert_eq!(grown.expose_borrowed().as_slice(), &[2, 1]);

    let mut cleared = built.own();
    cleared.zeroize();
    assert_eq!(cleared.expose_borrowed().len(), 0);
}

#[test]
fn zeroize_array_vec_generic_operations() {
    let first = [1u8; 8];
    let second = [2u8; 8];

    let mut vector: ZeroizeArrayVec<2, [u8; 8]> = ZeroizeArrayVec::new();
    vector.push(first);
    vector.push(second);

    let same = ZeroizeArrayVec::<2, [u8; 8]>::new_with([first, second]);
    assert!(vector == same);

    let different = ZeroizeArrayVec::<2, [u8; 8]>::new_with([second, first]);
    assert!(!(vector == different));

    let mut filled: ZeroizeArrayVec<1, [u8; 8]> = ZeroizeArrayVec::new();
    filled.fill_from_slice([first]);
    assert_eq!(filled.expose_borrowed().len(), 1);
    assert_eq!(filled.expose_owned().len(), 1);

    let mut inserted: ZeroizeArrayVec<2, [u8; 8]> = ZeroizeArrayVec::new();
    inserted.insert(0, first);
    assert_eq!(inserted.expose_borrowed().len(), 1);

    let element_digest = first.hash();
    assert_eq!(
        element_digest.expose_borrowed(),
        blake3::hash(&first).as_bytes()
    );

    let mut cleared = inserted.own();
    cleared.zeroize();
    assert_eq!(cleared.expose_borrowed().len(), 0);
}
