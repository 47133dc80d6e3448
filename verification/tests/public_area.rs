use tpm2_rs::error::Error;
use tpm2_rs::public::{into_rsa_public_unique, parse_public_area, PublicUnique};
use tpm2_rs::tpm::Tpm2bPublic;

fn rsa_area(unique: &[u8]) -> Vec<u8> {
    let mut area = vec![0, 1, 0, 0x0b, 0, 0x02, 0, 0x72, 0, 0, 0, 0x10, 0, 0x17, 0, 0x0b, 0x08, 0, 0, 0, 0, 0];
    area.extend_from_slice(&(unique.len() as u16).to_be_bytes());
    area.extend_from_slice(unique);
    area
}

fn ecc_area() -> Vec<u8> {
    vec![0, 0x23, 0, 0x0b, 0, 0x03, 0, 0x72, 0, 0, 0, 0x06, 0, 0x80, 0, 0x43, 0, 0x18, 0, 0x0b, 0, 3, 0, 0x10, 0, 1, 5, 0, 1, 6]
}

#[test]
fn the_modulus_of_an_rsa_public_area_is_read() {
    let area = rsa_area(&[0xc1, 0x02, 0x03]);
    assert!(matches!(parse_public_area(&area).unwrap(), (0x0001, PublicUnique::Rsa(n)) if n == vec![0xc1, 0x02, 0x03]));
    let public = Tpm2bPublic { buffer: area };
    let unique = into_rsa_public_unique(public.unique().unwrap()).unwrap();
    assert_eq!(unique.buffer, vec![0xc1, 0x02, 0x03]);
}

#[test]
fn an_ecc_public_area_has_a_point_and_no_rsa_modulus() {
    let public = Tpm2bPublic { buffer: ecc_area() };
    match public.unique().unwrap() {
        PublicUnique::Ecc { x, y } => assert_eq!((x, y), (vec![5], vec![6])),
        other => panic!("unexpected unique {:?}", other),
    }
    assert!(matches!(into_rsa_public_unique(public.unique().unwrap()), Err(Error::Internal)));
}

#[test]
fn malformed_public_areas_are_invalid_data() {
    let mut trailing = rsa_area(&[1]);
    trailing.push(0);
    assert!(matches!(parse_public_area(&trailing), Err(Error::InvalidData)));
    assert!(matches!(parse_public_area(&[0, 1, 0, 0x0b]), Err(Error::InvalidData)));
    assert!(matches!(parse_public_area(&[0, 0x99, 0, 0x0b, 0, 0, 0, 0, 0, 0]), Err(Error::InvalidData)));
    let long = Tpm2bPublic { buffer: rsa_area(&[7u8; 513]) };
    assert!(matches!(into_rsa_public_unique(long.unique().unwrap()), Err(Error::TooLong { .. })));
}
